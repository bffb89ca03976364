//! Records and helpers for directory inspection.
//!
//! Probing the filesystem (existence, permissions, sizes) is the caller's
//! business; this module defines the record those facts are reported in and
//! the path arithmetic that needs no probe.

use vstd::prelude::*;

use crate::platform::Platform;
use crate::security::{is_separator, spec_is_separator};

verus! {

/// What a directory probe reports about one selected directory.
#[derive(Debug, Clone)]
pub struct DirectoryInfo {
    pub path: String,
    pub name: String,
    pub is_readable: bool,
    pub is_writable: bool,
    pub file_count: Option<u64>,
    pub total_size: Option<u64>,
}

/// The characters of the path after its last separator: the path's own
/// name. Empty when the path is empty or ends in a separator.
pub open spec fn spec_base_name(path: Seq<char>, platform: Platform) -> Seq<char>
    decreases path.len(),
{
    if path.len() == 0 {
        Seq::empty()
    } else if spec_is_separator(path.last(), platform) {
        Seq::empty()
    } else {
        spec_base_name(path.drop_last(), platform).push(path.last())
    }
}

/// The base name is the suffix that follows the last separator.
proof fn lemma_base_name_suffix(path: Seq<char>, platform: Platform, j: int)
    requires
        0 <= j <= path.len(),
        forall|k: int| j <= k < path.len() ==> !spec_is_separator(#[trigger] path[k], platform),
        j == 0 || spec_is_separator(path[j - 1], platform),
    ensures
        spec_base_name(path, platform) == path.subrange(j, path.len() as int),
    decreases path.len(),
{
    if path.len() == 0 {
        assert(path.subrange(0, 0) =~= Seq::<char>::empty());
    } else if j == path.len() {
        assert(spec_is_separator(path.last(), platform));
        assert(path.subrange(j, path.len() as int) =~= Seq::<char>::empty());
    } else {
        assert(!spec_is_separator(path.last(), platform));
        lemma_base_name_suffix(path.drop_last(), platform, j);
        assert(spec_base_name(path, platform) == path.drop_last().subrange(
            j,
            path.len() - 1,
        ).push(path.last()));
        assert(path.drop_last().subrange(j, path.len() - 1).push(path.last()) =~= path.subrange(
            j,
            path.len() as int,
        ));
    }
}

/// The path's own name: the characters after the last separator, or `None`
/// when the path is empty or ends in a separator.
pub fn base_name(path: &str, platform: Platform) -> (r: Option<String>)
    ensures
        spec_base_name(path@, platform).len() == 0 ==> r matches None,
        spec_base_name(path@, platform).len() > 0 ==> (r matches Some(n) && n@ == spec_base_name(
            path@,
            platform,
        )),
{
    let len = path.unicode_len();
    let mut j: usize = len;
    while j > 0 && !is_separator(path.get_char(j - 1), platform)
        invariant
            j <= len,
            len == path@.len(),
            forall|k: int| j <= k < len ==> !spec_is_separator(#[trigger] path@[k], platform),
        decreases j,
    {
        j = j - 1;
    }
    proof {
        lemma_base_name_suffix(path@, platform, j as int);
    }
    if j == len {
        None
    } else {
        Some(path.substring_char(j, len).to_owned())
    }
}

} // verus!
