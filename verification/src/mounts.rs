//! The already-mounted oracle's reading of the kernel mount table. Each
//! line of `/proc/mounts` names a mount as `source target ...`; a target
//! is mounted exactly when some line's second field equals it verbatim.
use vstd::prelude::*;

use crate::text::{is_space, is_space_char, split_char, split_str, str_eq, ws_tokens, ws_tokens_str};

verus! {

/// Whether one mount-table line names `target` as its mount point: the
/// line starts with a field (no leading whitespace), has a second field,
/// and that field equals `target` exactly.
pub open spec fn line_names_mount_point(l: Seq<char>, target: Seq<char>) -> bool {
    l.len() > 0 && !is_space_char(l[0]) && ws_tokens(l).len() >= 2 && ws_tokens(l)[1] == target
}

/// Whether the mount-table text lists `target` as a mount point.
pub open spec fn mounts_table_lists(content: Seq<char>, target: Seq<char>) -> bool {
    exists|i: int|
        0 <= i < split_char(content, '\n').len() && line_names_mount_point(
            split_char(content, '\n')[i],
            target,
        )
}

/// Decides from the text of the kernel mount table whether `target` is
/// already mounted, as `mounts_table_lists` describes.
pub fn is_already_mounted(mounts: &str, target: &str) -> (r: bool)
    ensures
        r == mounts_table_lists(mounts@, target@),
{
    let lines = split_str(mounts, '\n');
    let ghost linesd = lines.deep_view();
    let mut i: usize = 0;
    while i < lines.len()
        invariant
            0 <= i <= lines.len(),
            linesd == lines.deep_view(),
            linesd == split_char(mounts@, '\n'),
            forall|j: int| 0 <= j < i ==> !line_names_mount_point(linesd[j], target@),
        decreases lines.len() - i,
    {
        let line = lines[i].as_str();
        let n = line.unicode_len();
        if n > 0 && !is_space(line.get_char(0)) {
            let toks = ws_tokens_str(line);
            if toks.len() >= 2 && str_eq(toks[1].as_str(), target) {
                proof {
                    assert(line_names_mount_point(linesd[i as int], target@));
                }
                return true;
            }
        }
        proof {
            assert(!line_names_mount_point(linesd[i as int], target@));
        }
        i = i + 1;
    }
    false
}

} // verus!
