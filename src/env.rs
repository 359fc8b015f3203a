//! The `PATH` a task runs with: the binary directories of the pinned
//! runtimes, each followed by `:`, ahead of the inherited `PATH`.
use vstd::prelude::*;

use crate::install::views;
use crate::text::{concat3, ends_with, occurs_at};

verus! {

/// The directories of `bins` folded into one prefix: each directory in turn
/// is put in front of what came before, followed by `:`.
pub open spec fn path_prefix(bins: Seq<Seq<char>>) -> Seq<char>
    decreases bins.len(),
{
    if bins.len() == 0 {
        seq![]
    } else {
        bins.last() + ":"@ + path_prefix(bins.drop_last())
    }
}

/// The `PATH` made of the binary directories `bins` and the inherited `system` value.
pub open spec fn composed_path(bins: Seq<Seq<char>>, system: Seq<char>) -> Seq<char> {
    path_prefix(bins) + system
}

/// The `PATH` for the binary directories `bin_dirs`, in the order their
/// runtimes were installed, ahead of the inherited `system_path`.
pub fn compose_env_path(bin_dirs: &Vec<String>, system_path: &str) -> (r: String)
    ensures
        r@ == composed_path(views(bin_dirs@), system_path@),
{
    let mut acc = String::new();
    let mut i: usize = 0;
    while i < bin_dirs.len()
        invariant
            i <= bin_dirs@.len(),
            acc@ == path_prefix(views(bin_dirs@.subrange(0, i as int))),
        decreases bin_dirs.len() - i,
    {
        let ghost done = views(bin_dirs@.subrange(0, i as int));
        let ghost more = views(bin_dirs@.subrange(0, i + 1));
        assert(more.drop_last() =~= done);
        acc = concat3(bin_dirs[i].as_str(), ":", acc.as_str());
        i = i + 1;
    }
    assert(bin_dirs@.subrange(0, bin_dirs@.len() as int) =~= bin_dirs@);
    let mut r = acc;
    r.append(system_path);
    r
}

/// `x` occurs in full in `s`, ending before position `limit`.
pub open spec fn occurs_before(s: Seq<char>, x: Seq<char>, limit: int) -> bool {
    exists|j: int| occurs_at(s, x, j) && j + x.len() < limit
}

proof fn lemma_prefix_shape(bins: Seq<Seq<char>>)
    requires
        bins.len() > 0,
    ensures
        path_prefix(bins).len() > 0,
        path_prefix(bins).last() == ':',
        forall|i: int|
            0 <= i < bins.len() ==> occurs_before(
                path_prefix(bins),
                #[trigger] bins[i],
                path_prefix(bins).len() as int,
            ),
    decreases bins.len(),
{
    let rest = bins.drop_last();
    let head = bins.last() + ":"@;
    let p = path_prefix(bins);
    assert(":"@.len() == 1) by {
        reveal_strlit(":");
    }
    assert(":"@[0] == ':') by {
        reveal_strlit(":");
    }
    assert(p == head + path_prefix(rest));
    if rest.len() > 0 {
        lemma_prefix_shape(rest);
    } else {
        assert(path_prefix(rest) =~= seq![]);
    }
    assert(p.last() == ':');
    assert forall|i: int| 0 <= i < bins.len() implies occurs_before(
        p,
        #[trigger] bins[i],
        p.len() as int,
    ) by {
        if i == bins.len() - 1 {
            assert(p.subrange(0, bins[i].len() as int) =~= bins[i]);
            assert(occurs_at(p, bins[i], 0));
        } else {
            assert(rest[i] == bins[i]);
            let q = path_prefix(rest);
            assert(occurs_before(q, rest[i], q.len() as int));
            let j = choose|j: int| occurs_at(q, rest[i], j) && j + rest[i].len() < q.len();
            let k = j + head.len();
            assert(p.subrange(k, k + bins[i].len()) =~= q.subrange(j, j + bins[i].len()));
            assert(occurs_at(p, bins[i], k));
        }
    }
}

/// Pinned runtimes take precedence: with at least one binary directory the
/// composed `PATH` ends with `:` and the inherited value, and every binary
/// directory occurs in full before that final part.
pub proof fn lemma_pinned_dirs_precede_system_path(bins: Seq<Seq<char>>, system: Seq<char>)
    requires
        bins.len() > 0,
    ensures
        ends_with(composed_path(bins, system), ":"@ + system),
        forall|i: int|
            0 <= i < bins.len() ==> occurs_before(
                composed_path(bins, system),
                #[trigger] bins[i],
                composed_path(bins, system).len() - system.len(),
            ),
{
    lemma_prefix_shape(bins);
    let p = path_prefix(bins);
    let c = composed_path(bins, system);
    assert(":"@.len() == 1 && ":"@[0] == ':') by {
        reveal_strlit(":");
    }
    assert(c.subrange(c.len() - (":"@ + system).len(), c.len() as int) =~= ":"@ + system);
    assert forall|i: int| 0 <= i < bins.len() implies occurs_before(
        c,
        #[trigger] bins[i],
        c.len() - system.len(),
    ) by {
        assert(occurs_before(p, bins[i], p.len() as int));
        let j = choose|j: int| occurs_at(p, bins[i], j) && j + bins[i].len() < p.len();
        assert(c.subrange(j, j + bins[i].len()) =~= p.subrange(j, j + bins[i].len()));
        assert(occurs_at(c, bins[i], j));
    }
}

} // verus!
