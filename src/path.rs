//! Slash-separated paths as strings: joining and containment.
use vstd::prelude::*;

use crate::text::{concat2, concat3, starts_with, starts_with_str, str_eq};

verus! {

/// `rel` resolved against `base`: an absolute `rel` replaces `base`, an empty
/// `base` leaves `rel` as it is, and otherwise one `/` separates the two.
pub open spec fn join_path(base: Seq<char>, rel: Seq<char>) -> Seq<char> {
    if rel.len() > 0 && rel[0] == '/' {
        rel
    } else if base.len() == 0 {
        rel
    } else if base.last() == '/' {
        base + rel
    } else {
        base + "/"@ + rel
    }
}

/// The path `rel` resolved against `base`.
pub fn join(base: &str, rel: &str) -> (r: String)
    ensures
        r@ == join_path(base@, rel@),
{
    let b = base.unicode_len();
    if rel.unicode_len() > 0 && rel.get_char(0) == '/' {
        rel.to_owned()
    } else if b == 0 {
        rel.to_owned()
    } else if base.get_char(b - 1) == '/' {
        concat2(base, rel)
    } else {
        concat3(base, "/", rel)
    }
}

/// Whether the canonical path `path` is `root` or lies below it, compared
/// by whole components: `/proj2` does not lie below `/proj`.
pub open spec fn within(path: Seq<char>, root: Seq<char>) -> bool {
    path == root || starts_with(path, root + "/"@) || (root.len() > 0 && root.last() == '/'
        && starts_with(path, root))
}

/// Whether `path` is `root` or lies below it.
pub fn is_within(path: &str, root: &str) -> (r: bool)
    ensures
        r == within(path@, root@),
{
    if str_eq(path, root) {
        return true;
    }
    let n = root.unicode_len();
    if n > 0 && root.get_char(n - 1) == '/' {
        if starts_with_str(path, root) {
            return true;
        }
    }
    let with_sep = concat2(root, "/");
    let below = starts_with_str(path, with_sep.as_str());
    if !below && n > 0 && root.get_char(n - 1) == '/' {
        assert(!starts_with(path@, root@));
    }
    below
}

} // verus!
