//! The option translator: a comma-separated mount option string becomes a
//! set of kernel flags plus a residual, filesystem-specific data string.
//! Recognised tokens map one to one onto kernel flags; every unrecognised
//! token is preserved, in its original position, in the comma-joined data
//! string, because it may still mean something to the filesystem driver.
use vstd::prelude::*;

use crate::flags::MountFlags;
use crate::text::{join_commas, join_commas_vec, split_char, split_str, str_eq, vec_contains_str};

verus! {

/// Whether every token of `test` occurs among the tokens of `have`:
/// the subset test that decides which fstab entries a restricted bulk
/// run keeps.
pub open spec fn tokens_subset(test: Seq<Seq<char>>, have: Seq<Seq<char>>) -> bool {
    forall|i: int| 0 <= i < test.len() ==> have.contains(test[i])
}

/// Decides whether every comma-separated token of `test_opts` occurs
/// among the comma-separated tokens of `fstab_opts`.
pub fn match_test_opts(fstab_opts: &str, test_opts: &str) -> (r: bool)
    ensures
        r == tokens_subset(split_char(test_opts@, ','), split_char(fstab_opts@, ',')),
{
    let have = split_str(fstab_opts, ',');
    let test = split_str(test_opts, ',');
    let ghost testd = test.deep_view();
    let mut i: usize = 0;
    while i < test.len()
        invariant
            0 <= i <= test.len(),
            testd == test.deep_view(),
            testd == split_char(test_opts@, ','),
            have.deep_view() == split_char(fstab_opts@, ','),
            forall|j: int| 0 <= j < i ==> split_char(fstab_opts@, ',').contains(testd[j]),
        decreases test.len() - i,
    {
        if !vec_contains_str(&have, test[i].as_str()) {
            proof {
                assert(!split_char(fstab_opts@, ',').contains(testd[i as int]));
            }
            return false;
        }
        i = i + 1;
    }
    true
}

/// The result of translating an option string: the kernel flag set and
/// the residual data handed verbatim to the filesystem driver.
#[derive(Debug, PartialEq, Eq)]
pub struct ResolvedFlags {
    pub flags: MountFlags,
    pub data: Option<String>,
}

/// Whether `t` is one of the option tokens that maps onto a kernel flag.
pub open spec fn is_flag_token(t: Seq<char>) -> bool {
    ||| t == "noexec"@
    ||| t == "nosuid"@
    ||| t == "nodev"@
    ||| t == "sync"@
    ||| t == "dirsync"@
    ||| t == "noatime"@
    ||| t == "nodiratime"@
    ||| t == "relatime"@
    ||| t == "strictatime"@
    ||| t == "lazytime"@
}

/// The flag set `f` after taking option token `t` into account; an
/// unrecognised token leaves the flags unchanged.
pub open spec fn apply_option_token(f: MountFlags, t: Seq<char>) -> MountFlags {
    if t == "noexec"@ {
        MountFlags { no_exec: true, ..f }
    } else if t == "nosuid"@ {
        MountFlags { no_suid: true, ..f }
    } else if t == "nodev"@ {
        MountFlags { no_dev: true, ..f }
    } else if t == "sync"@ {
        MountFlags { synchronous: true, ..f }
    } else if t == "dirsync"@ {
        MountFlags { dir_sync: true, ..f }
    } else if t == "noatime"@ {
        MountFlags { no_atime: true, ..f }
    } else if t == "nodiratime"@ {
        MountFlags { no_diratime: true, ..f }
    } else if t == "relatime"@ {
        MountFlags { relatime: true, ..f }
    } else if t == "strictatime"@ {
        MountFlags { strict_atime: true, ..f }
    } else if t == "lazytime"@ {
        MountFlags { lazytime: true, ..f }
    } else {
        f
    }
}

/// The flag set after folding every token of `ts` into `init`, in order.
pub open spec fn flags_of_tokens(init: MountFlags, ts: Seq<Seq<char>>) -> MountFlags
    decreases ts.len(),
{
    if ts.len() == 0 {
        init
    } else {
        flags_of_tokens(apply_option_token(init, ts[0]), ts.skip(1))
    }
}

/// The tokens of `ts` that name no kernel flag, in their original order
/// and multiplicity.
pub open spec fn unknown_option_tokens(ts: Seq<Seq<char>>) -> Seq<Seq<char>>
    decreases ts.len(),
{
    if ts.len() == 0 {
        Seq::empty()
    } else {
        (if is_flag_token(ts[0]) {
            Seq::<Seq<char>>::empty()
        } else {
            seq![ts[0]]
        }) + unknown_option_tokens(ts.skip(1))
    }
}

/// The initial flag set of a request: empty, except that a read-only
/// request forces the read-only flag before any option token is read.
pub open spec fn initial_flags(read_only: bool) -> MountFlags {
    if read_only {
        MountFlags { read_only: true, ..MountFlags::spec_empty() }
    } else {
        MountFlags::spec_empty()
    }
}

/// Folds a single option token into the flag set, and reports whether
/// the token named a kernel flag.
fn translate_token(f: MountFlags, t: &str) -> (r: (MountFlags, bool))
    ensures
        r.0 == apply_option_token(f, t@),
        r.1 == is_flag_token(t@),
{
    if str_eq(t, "noexec") {
        (MountFlags { no_exec: true, ..f }, true)
    } else if str_eq(t, "nosuid") {
        (MountFlags { no_suid: true, ..f }, true)
    } else if str_eq(t, "nodev") {
        (MountFlags { no_dev: true, ..f }, true)
    } else if str_eq(t, "sync") {
        (MountFlags { synchronous: true, ..f }, true)
    } else if str_eq(t, "dirsync") {
        (MountFlags { dir_sync: true, ..f }, true)
    } else if str_eq(t, "noatime") {
        (MountFlags { no_atime: true, ..f }, true)
    } else if str_eq(t, "nodiratime") {
        (MountFlags { no_diratime: true, ..f }, true)
    } else if str_eq(t, "relatime") {
        (MountFlags { relatime: true, ..f }, true)
    } else if str_eq(t, "strictatime") {
        (MountFlags { strict_atime: true, ..f }, true)
    } else if str_eq(t, "lazytime") {
        (MountFlags { lazytime: true, ..f }, true)
    } else {
        (f, false)
    }
}

/// Translates a comma-separated option string into kernel flags and a
/// residual data string. `read_only` forces the read-only flag whatever
/// the option string holds. Unknown tokens are never an error: they are
/// comma-joined, in order, into the data string, which is absent exactly
/// when every token was recognised (or no option string was given).
#[verifier::rlimit(60)]
pub fn parse_mount_options(options: Option<&str>, read_only: bool) -> (r: ResolvedFlags)
    ensures
        ({
            let init = initial_flags(read_only);
            match options {
                None => r.flags == init && r.data is None,
                Some(s) => {
                    let toks = split_char(s@, ',');
                    let unk = unknown_option_tokens(toks);
                    &&& r.flags == flags_of_tokens(init, toks)
                    &&& (unk.len() == 0 ==> r.data is None)
                    &&& (unk.len() > 0 ==> (r.data matches Some(d) && d@ == join_commas(unk)))
                },
            }
        }),
{
    let mut flags = if read_only {
        MountFlags { read_only: true, ..MountFlags::empty() }
    } else {
        MountFlags::empty()
    };
    match options {
        None => ResolvedFlags { flags, data: None },
        Some(s) => {
            let toks = split_str(s, ',');
            let ghost toksd = toks.deep_view();
            let mut unk: Vec<String> = Vec::new();
            let mut i: usize = 0;
            proof {
                assert(toksd.skip(0) =~= toksd);
                assert(unk.deep_view() =~= Seq::<Seq<char>>::empty());
                assert(unk.deep_view() + unknown_option_tokens(toksd) =~= unknown_option_tokens(
                    toksd,
                ));
            }
            while i < toks.len()
                invariant
                    0 <= i <= toks.len(),
                    toksd == toks.deep_view(),
                    flags_of_tokens(flags, toksd.skip(i as int)) == flags_of_tokens(
                        initial_flags(read_only),
                        toksd,
                    ),
                    unknown_option_tokens(toksd) == unk.deep_view() + unknown_option_tokens(
                        toksd.skip(i as int),
                    ),
                decreases toks.len() - i,
            {
                let ghost pre = unk.deep_view();
                proof {
                    assert(toksd.skip(i as int)[0] == toksd[i as int]);
                    assert(toksd.skip(i as int).skip(1) =~= toksd.skip(i + 1));
                }
                let t = toks[i].as_str();
                let step = translate_token(flags, t);
                flags = step.0;
                if !step.1 {
                    unk.push(toks[i].clone());
                    proof {
                        assert(unk.deep_view() =~= pre + seq![toksd[i as int]]);
                    }
                }
                i = i + 1;
            }
            proof {
                assert(toksd.skip(toksd.len() as int).len() == 0);
            }
            if unk.len() == 0 {
                ResolvedFlags { flags, data: None }
            } else {
                let data = join_commas_vec(&unk);
                ResolvedFlags { flags, data: Some(data) }
            }
        },
    }
}

} // verus!
