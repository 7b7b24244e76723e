//! The argument lists handed to the external tools: the blkid queries,
//! the loop-device attach, and the external mount fallback whose options
//! re-express the kernel flags that have a command-line equivalent.
use vstd::prelude::*;

use crate::actions::{MountCall, MountCallV};

verus! {

/// The arguments of the blkid invocation that resolves a label.
pub open spec fn label_lookup_args(label: Seq<char>) -> Seq<Seq<char>> {
    seq!["-L"@, label]
}

pub fn build_label_lookup_args(label: &str) -> (r: Vec<String>)
    ensures
        r.deep_view() == label_lookup_args(label@),
{
    let mut r: Vec<String> = Vec::new();
    r.push(String::from_str("-L"));
    r.push(label.to_owned());
    proof {
        assert(r.deep_view() =~= label_lookup_args(label@));
    }
    r
}

/// The arguments of the blkid invocation that resolves a UUID.
pub open spec fn uuid_lookup_args(uuid: Seq<char>) -> Seq<Seq<char>> {
    seq!["-U"@, uuid]
}

pub fn build_uuid_lookup_args(uuid: &str) -> (r: Vec<String>)
    ensures
        r.deep_view() == uuid_lookup_args(uuid@),
{
    let mut r: Vec<String> = Vec::new();
    r.push(String::from_str("-U"));
    r.push(uuid.to_owned());
    proof {
        assert(r.deep_view() =~= uuid_lookup_args(uuid@));
    }
    r
}

/// The arguments of the blkid invocation that queries a filesystem type.
pub open spec fn fstype_query_args(device: Seq<char>) -> Seq<Seq<char>> {
    seq!["-o"@, "value"@, "-s"@, "TYPE"@, device]
}

pub fn build_fstype_query_args(device: &str) -> (r: Vec<String>)
    ensures
        r.deep_view() == fstype_query_args(device@),
{
    let mut r: Vec<String> = Vec::new();
    r.push(String::from_str("-o"));
    r.push(String::from_str("value"));
    r.push(String::from_str("-s"));
    r.push(String::from_str("TYPE"));
    r.push(device.to_owned());
    proof {
        assert(r.deep_view() =~= fstype_query_args(device@));
    }
    r
}

/// The arguments of the blkid invocation that queries a filesystem label.
pub open spec fn fslabel_query_args(device: Seq<char>) -> Seq<Seq<char>> {
    seq!["-s"@, "LABEL"@, "-o"@, "value"@, device]
}

pub fn build_fslabel_query_args(device: &str) -> (r: Vec<String>)
    ensures
        r.deep_view() == fslabel_query_args(device@),
{
    let mut r: Vec<String> = Vec::new();
    r.push(String::from_str("-s"));
    r.push(String::from_str("LABEL"));
    r.push(String::from_str("-o"));
    r.push(String::from_str("value"));
    r.push(device.to_owned());
    proof {
        assert(r.deep_view() =~= fslabel_query_args(device@));
    }
    r
}

/// The arguments of the loop-device attach invocation: ask for the
/// first free device and print the one used.
pub open spec fn loop_attach_args(file: Seq<char>) -> Seq<Seq<char>> {
    seq!["-f"@, "--show"@, file]
}

pub fn build_loop_attach_args(file: &str) -> (r: Vec<String>)
    ensures
        r.deep_view() == loop_attach_args(file@),
{
    let mut r: Vec<String> = Vec::new();
    r.push(String::from_str("-f"));
    r.push(String::from_str("--show"));
    r.push(file.to_owned());
    proof {
        assert(r.deep_view() =~= loop_attach_args(file@));
    }
    r
}

/// The arguments of the external mount fallback: the source if any and
/// the target, the filesystem type behind `-t`, `-r` for read-only, an
/// `-o` option for each of the suid, dev and exec suppressions, and the
/// residual data string as one more `-o` option.
pub open spec fn fallback_mount_args(c: MountCallV) -> Seq<Seq<char>> {
    (match c.source {
        Some(s) => seq![s],
        None => Seq::<Seq<char>>::empty(),
    }) + seq![c.target] + (match c.fstype {
        Some(f) => seq!["-t"@, f],
        None => Seq::<Seq<char>>::empty(),
    }) + (if c.flags.read_only {
        seq!["-r"@]
    } else {
        Seq::<Seq<char>>::empty()
    }) + (if c.flags.no_suid {
        seq!["-o"@, "nosuid"@]
    } else {
        Seq::<Seq<char>>::empty()
    }) + (if c.flags.no_dev {
        seq!["-o"@, "nodev"@]
    } else {
        Seq::<Seq<char>>::empty()
    }) + (if c.flags.no_exec {
        seq!["-o"@, "noexec"@]
    } else {
        Seq::<Seq<char>>::empty()
    }) + (match c.data {
        Some(d) => seq!["-o"@, d],
        None => Seq::<Seq<char>>::empty(),
    })
}

#[verifier::rlimit(100)]
pub fn build_fallback_mount_args(c: &MountCall) -> (r: Vec<String>)
    ensures
        r.deep_view() == fallback_mount_args(c@),
{
    let mut r: Vec<String> = Vec::new();
    let ghost g0: Seq<Seq<char>> = match c@.source {
        Some(s) => seq![s],
        None => Seq::<Seq<char>>::empty(),
    };
    match &c.source {
        Some(s) => {
            r.push(s.clone());
        },
        None => {},
    }
    proof {
        assert(r.deep_view() =~= g0);
    }
    r.push(c.target.clone());
    let ghost g1 = g0 + seq![c@.target];
    proof {
        assert(r.deep_view() =~= g1);
    }
    let ghost g2 = g1 + (match c@.fstype {
        Some(f) => seq!["-t"@, f],
        None => Seq::<Seq<char>>::empty(),
    });
    match &c.fstype {
        Some(f) => {
            r.push(String::from_str("-t"));
            r.push(f.clone());
        },
        None => {},
    }
    proof {
        assert(r.deep_view() =~= g2);
    }
    let ghost g3 = g2 + (if c@.flags.read_only {
        seq!["-r"@]
    } else {
        Seq::<Seq<char>>::empty()
    });
    if c.flags.read_only {
        r.push(String::from_str("-r"));
    }
    proof {
        assert(r.deep_view() =~= g3);
    }
    let ghost g4 = g3 + (if c@.flags.no_suid {
        seq!["-o"@, "nosuid"@]
    } else {
        Seq::<Seq<char>>::empty()
    });
    if c.flags.no_suid {
        r.push(String::from_str("-o"));
        r.push(String::from_str("nosuid"));
    }
    proof {
        assert(r.deep_view() =~= g4);
    }
    let ghost g5 = g4 + (if c@.flags.no_dev {
        seq!["-o"@, "nodev"@]
    } else {
        Seq::<Seq<char>>::empty()
    });
    if c.flags.no_dev {
        r.push(String::from_str("-o"));
        r.push(String::from_str("nodev"));
    }
    proof {
        assert(r.deep_view() =~= g5);
    }
    let ghost g6 = g5 + (if c@.flags.no_exec {
        seq!["-o"@, "noexec"@]
    } else {
        Seq::<Seq<char>>::empty()
    });
    if c.flags.no_exec {
        r.push(String::from_str("-o"));
        r.push(String::from_str("noexec"));
    }
    proof {
        assert(r.deep_view() =~= g6);
    }
    let ghost g7 = g6 + (match c@.data {
        Some(d) => seq!["-o"@, d],
        None => Seq::<Seq<char>>::empty(),
    });
    match &c.data {
        Some(d) => {
            r.push(String::from_str("-o"));
            r.push(d.clone());
        },
        None => {},
    }
    proof {
        assert(r.deep_view() =~= g7);
        assert(g7 == fallback_mount_args(c@));
    }
    r
}

} // verus!
