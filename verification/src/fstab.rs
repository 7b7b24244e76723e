//! The fstab table parser. A table is a text of lines; a line whose
//! trimmed form is empty or starts with `#` is ignored; a line of at
//! least six whitespace-separated fields, whose fifth field is a digit
//! run and whose sixth begins with a digit, yields exactly one entry;
//! every other line yields a warning and no entry, and is never fatal.
use vstd::prelude::*;

use crate::errors::MountError;
use crate::text::{
    digits_prefix, digits_prefix_str, is_digit_run, is_digit_run_str, split_char, split_str,
    trim_str, trimmed, ws_tokens, ws_tokens_str,
};

verus! {

/// One well-formed fstab line: the classic six fields.
#[derive(Debug, PartialEq, Eq)]
pub struct FstabEntry {
    pub source: String,
    pub target: String,
    pub fstype: String,
    pub options: String,
    pub dump: String,
    pub pass: String,
}

/// The mathematical value of an `FstabEntry`.
pub struct FstabEntryV {
    pub source: Seq<char>,
    pub target: Seq<char>,
    pub fstype: Seq<char>,
    pub options: Seq<char>,
    pub dump: Seq<char>,
    pub pass: Seq<char>,
}

impl View for FstabEntry {
    type V = FstabEntryV;

    open spec fn view(&self) -> FstabEntryV {
        FstabEntryV {
            source: self.source@,
            target: self.target@,
            fstype: self.fstype@,
            options: self.options@,
            dump: self.dump@,
            pass: self.pass@,
        }
    }
}

impl DeepView for FstabEntry {
    type V = FstabEntryV;

    open spec fn deep_view(&self) -> FstabEntryV {
        self.view()
    }
}

/// Whether the line is skipped silently: blank, or a comment.
pub open spec fn line_is_blank_or_comment(l: Seq<char>) -> bool {
    let t = trimmed(l);
    t.len() == 0 || t[0] == '#'
}

/// Whether the line has the six-field shape of an fstab entry.
pub open spec fn line_matches(l: Seq<char>) -> bool {
    let toks = ws_tokens(trimmed(l));
    toks.len() >= 6 && is_digit_run(toks[4]) && digits_prefix(toks[5]).len() > 0
}

/// The entry a well-formed line denotes.
pub open spec fn entry_of_line(l: Seq<char>) -> FstabEntryV {
    let toks = ws_tokens(trimmed(l));
    FstabEntryV {
        source: toks[0],
        target: toks[1],
        fstype: toks[2],
        options: toks[3],
        dump: toks[4],
        pass: digits_prefix(toks[5]),
    }
}

/// The entries of the lines `ls`, one per well-formed line, in order.
pub open spec fn entries_of_lines(ls: Seq<Seq<char>>) -> Seq<FstabEntryV>
    decreases ls.len(),
{
    if ls.len() == 0 {
        Seq::empty()
    } else {
        (if !line_is_blank_or_comment(ls[0]) && line_matches(ls[0]) {
            seq![entry_of_line(ls[0])]
        } else {
            Seq::<FstabEntryV>::empty()
        }) + entries_of_lines(ls.skip(1))
    }
}

/// The one-based numbers of the lines of `ls` that are neither blank,
/// comments, nor well-formed — the lines that earn a warning. `first`
/// is the number of the first line of `ls`.
pub open spec fn warnings_of_lines(ls: Seq<Seq<char>>, first: int) -> Seq<int>
    decreases ls.len(),
{
    if ls.len() == 0 {
        Seq::empty()
    } else {
        (if !line_is_blank_or_comment(ls[0]) && !line_matches(ls[0]) {
            seq![first]
        } else {
            Seq::<int>::empty()
        }) + warnings_of_lines(ls.skip(1), first + 1)
    }
}

/// The entries of a whole table text.
pub open spec fn fstab_entries(content: Seq<char>) -> Seq<FstabEntryV> {
    entries_of_lines(split_char(content, '\n'))
}

/// The warning line numbers of a whole table text.
pub open spec fn fstab_warnings(content: Seq<char>) -> Seq<int> {
    warnings_of_lines(split_char(content, '\n'), 1)
}

/// Parses a table text into its entries and the one-based numbers of the
/// malformed lines, exactly as `fstab_entries` and `fstab_warnings`
/// describe.
pub fn scan_fstab(content: &str) -> (r: (Vec<FstabEntry>, Vec<usize>))
    ensures
        r.0.deep_view() == fstab_entries(content@),
        r.1@.map_values(|w: usize| w as int) == fstab_warnings(content@),
{
    let lines = split_str(content, '\n');
    let ghost linesd = lines.deep_view();
    let mut entries: Vec<FstabEntry> = Vec::new();
    let mut warns: Vec<usize> = Vec::new();
    let mut i: usize = 0;
    proof {
        assert(linesd.skip(0) =~= linesd);
        assert(entries.deep_view() =~= Seq::<FstabEntryV>::empty());
        assert(warns@.map_values(|w: usize| w as int) =~= Seq::<int>::empty());
        assert(entries.deep_view() + entries_of_lines(linesd) =~= fstab_entries(content@));
        assert(warns@.map_values(|w: usize| w as int) + warnings_of_lines(linesd, 1)
            =~= fstab_warnings(content@));
    }
    while i < lines.len()
        invariant
            0 <= i <= lines.len(),
            linesd == lines.deep_view(),
            lines.len() <= usize::MAX,
            fstab_entries(content@) == entries.deep_view() + entries_of_lines(
                linesd.skip(i as int),
            ),
            fstab_warnings(content@) == warns@.map_values(|w: usize| w as int)
                + warnings_of_lines(linesd.skip(i as int), i + 1),
        decreases lines.len() - i,
    {
        let ghost pre_e = entries.deep_view();
        let ghost pre_w = warns@.map_values(|w: usize| w as int);
        proof {
            assert(linesd.skip(i as int)[0] == linesd[i as int]);
            assert(linesd.skip(i as int).skip(1) =~= linesd.skip(i + 1));
        }
        let line = lines[i].as_str();
        let t = trim_str(line);
        let blank_or_comment = if t.as_str().unicode_len() == 0 {
            true
        } else {
            t.as_str().get_char(0) == '#'
        };
        if !blank_or_comment {
            let toks = ws_tokens_str(t.as_str());
            let ghost toksd = toks.deep_view();
            let ok = if toks.len() >= 6 {
                if is_digit_run_str(toks[4].as_str()) {
                    let p = digits_prefix_str(toks[5].as_str());
                    if p.as_str().unicode_len() > 0 {
                        let entry = FstabEntry {
                            source: toks[0].clone(),
                            target: toks[1].clone(),
                            fstype: toks[2].clone(),
                            options: toks[3].clone(),
                            dump: toks[4].clone(),
                            pass: p,
                        };
                        proof {
                            assert(entry@ == entry_of_line(linesd[i as int]));
                        }
                        entries.push(entry);
                        true
                    } else {
                        false
                    }
                } else {
                    false
                }
            } else {
                false
            };
            if ok {
                proof {
                    assert(line_matches(linesd[i as int]));
                    assert(entries.deep_view() =~= pre_e + seq![entry_of_line(linesd[i as int])]);
                }
            } else {
                warns.push(i + 1);
                proof {
                    assert(!line_matches(linesd[i as int]));
                    assert(warns@.map_values(|w: usize| w as int) =~= pre_w + seq![i + 1]);
                }
            }
        }
        i = i + 1;
    }
    proof {
        assert(linesd.skip(linesd.len() as int).len() == 0);
    }
    (entries, warns)
}

/// Parses a table text, requiring at least one entry: a table in which
/// no line is well-formed is an error, as an empty bulk run would
/// silently do nothing.
pub fn parse_fstab(content: &str) -> (r: Result<Vec<FstabEntry>, MountError>)
    ensures
        fstab_entries(content@).len() > 0 ==> (r matches Ok(v) && v.deep_view() == fstab_entries(
            content@,
        )),
        fstab_entries(content@).len() == 0 ==> (r matches Err(e) && e@ == crate::errors::MountErrorV::FstabEmpty),
{
    let (entries, _warns) = scan_fstab(content);
    if entries.len() == 0 {
        Err(MountError::FstabEmpty)
    } else {
        Ok(entries)
    }
}

} // verus!
