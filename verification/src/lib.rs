use vstd::prelude::*;

pub mod actions;
pub mod cmdline;
pub mod errors;
pub mod flags;
pub mod fstab;
pub mod handler;
pub mod laws;
pub mod machine;
pub mod mounts;
pub mod options;
pub mod request;
pub mod text;

verus! {

/// Tests whether an fstab filesystem type names swap space, which the
/// bulk mounter refuses to mount (swap is activated by a separate tool).
pub fn is_swapfile(fstype: &str) -> (r: bool)
    ensures
        r == (fstype@ == "swap"@),
{
    let s: String = fstype.to_owned();
    let w: String = String::from_str("swap");
    s == w
}

} // verus!
