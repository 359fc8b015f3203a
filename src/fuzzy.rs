//! "Did you mean" suggestions: candidates ranked by a normalized edit
//! distance, compared case-insensitively.
use vstd::prelude::*;

use crate::install::views;

verus! {

/// The minimum of three numbers.
pub open spec fn min3(a: nat, b: nat, c: nat) -> nat {
    if a <= b && a <= c {
        a
    } else if b <= c {
        b
    } else {
        c
    }
}

/// The Levenshtein distance: the fewest single-character insertions,
/// deletions and substitutions that turn `a` into `b`.
pub open spec fn edit_distance(a: Seq<char>, b: Seq<char>) -> nat
    decreases a.len() + b.len(),
{
    if a.len() == 0 {
        b.len()
    } else if b.len() == 0 {
        a.len()
    } else {
        min3(
            edit_distance(a.drop_last(), b.drop_last()) + if a.last() == b.last() {
                0nat
            } else {
                1nat
            },
            edit_distance(a.drop_last(), b) + 1,
            edit_distance(a, b.drop_last()) + 1,
        )
    }
}

proof fn lemma_distance_bounded(a: Seq<char>, b: Seq<char>)
    ensures
        edit_distance(a, b) <= if a.len() >= b.len() {
            a.len()
        } else {
            b.len()
        },
    decreases a.len() + b.len(),
{
    if a.len() > 0 && b.len() > 0 {
        lemma_distance_bounded(a.drop_last(), b.drop_last());
    }
}

/// The characters of `s`.
fn chars_of(s: &str) -> (r: Vec<char>)
    ensures
        r@ == s@,
{
    let n = s.unicode_len();
    let mut r: Vec<char> = Vec::new();
    let mut i: usize = 0;
    while i < n
        invariant
            n == s@.len(),
            i <= n,
            r@ == s@.subrange(0, i as int),
        decreases n - i,
    {
        r.push(s.get_char(i));
        assert(r@ =~= s@.subrange(0, i + 1));
        i = i + 1;
    }
    assert(s@.subrange(0, n as int) =~= s@);
    r
}

/// The Levenshtein distance between `query` and `candidate`, by characters.
pub fn levenshtein_distance(query: &str, candidate: &str) -> (r: usize)
    ensures
        r == edit_distance(query@, candidate@),
{
    let a = chars_of(query);
    let b = chars_of(candidate);
    let n = a.len();
    let m = b.len();
    let mut prev: Vec<usize> = Vec::new();
    let mut j: usize = 0;
    while j < m
        invariant
            j <= m,
            m == b@.len(),
            prev@.len() == j,
            forall|k: int| 0 <= k < j ==> prev@[k] == k,
        decreases m - j,
    {
        prev.push(j);
        j = j + 1;
    }
    prev.push(m);
    assert forall|k: int| 0 <= k <= m implies prev@[k] == edit_distance(
        #[trigger] a@.subrange(0, 0),
        b@.subrange(0, k),
    ) by {
        assert(a@.subrange(0, 0).len() == 0);
    }
    let mut i: usize = 0;
    while i < n
        invariant
            i <= n,
            n == a@.len(),
            m == b@.len(),
            prev@.len() == m + 1,
            forall|k: int|
                0 <= k <= m ==> prev@[k] == edit_distance(
                    #[trigger] a@.subrange(0, i as int),
                    b@.subrange(0, k),
                ),
        decreases n - i,
    {
        let ghost ai = a@.subrange(0, i + 1);
        let ghost ap = a@.subrange(0, i as int);
        assert(ai.drop_last() =~= ap);
        let mut cur: Vec<usize> = Vec::new();
        cur.push(i + 1);
        assert(b@.subrange(0, 0).len() == 0);
        let mut j: usize = 0;
        while j < m
            invariant
                j <= m,
                i < n,
                n == a@.len(),
                m == b@.len(),
                ai == a@.subrange(0, i + 1),
                ap == a@.subrange(0, i as int),
                ai.drop_last() == ap,
                ai.last() == a@[i as int],
                prev@.len() == m + 1,
                cur@.len() == j + 1,
                forall|k: int|
                    0 <= k <= m ==> prev@[k] == edit_distance(
                        #[trigger] a@.subrange(0, i as int),
                        b@.subrange(0, k),
                    ),
                forall|k: int| 0 <= k <= j ==> cur@[k] == edit_distance(ai, b@.subrange(0, k)),
            decreases m - j,
        {
            let ghost bj = b@.subrange(0, j + 1);
            let ghost bp = b@.subrange(0, j as int);
            assert(bj.drop_last() =~= bp);
            proof {
                lemma_distance_bounded(ap, bp);
                lemma_distance_bounded(ap, bj);
                lemma_distance_bounded(ai, bp);
                lemma_distance_bounded(ai, bj);
            }
            let cost: usize = if a[i] == b[j] {
                0
            } else {
                1
            };
            let substitute = prev[j] + cost;
            let delete = prev[j + 1].saturating_add(1);
            let insert = cur[j].saturating_add(1);
            let best = if substitute <= delete && substitute <= insert {
                substitute
            } else if delete <= insert {
                delete
            } else {
                insert
            };
            cur.push(best);
            j = j + 1;
        }
        prev = cur;
        i = i + 1;
    }
    assert(a@.subrange(0, n as int) =~= a@);
    assert(b@.subrange(0, m as int) =~= b@);
    prev[m]
}

/// What `str::to_lowercase` makes of a text.
pub uninterp spec fn lower_of(s: Seq<char>) -> Seq<char>;

/// Relies on `str::to_lowercase`: the result depends on the characters
/// alone, and an empty text stays empty.
#[verifier::external_body]
fn lowercase(s: &str) -> (r: String)
    ensures
        r@ == lower_of(s@),
        s@.len() == 0 ==> r@.len() == 0,
{
    s.to_lowercase()
}

/// A candidate with its distance to the query and the longer of the two
/// lengths; its similarity is `1 - distance / max_len`.
#[derive(Debug, Clone)]
pub struct FuzzyMatch {
    pub candidate: String,
    pub distance: usize,
    pub max_len: usize,
}

/// The mathematical content of a [`FuzzyMatch`].
pub struct MatchSpec {
    pub candidate: Seq<char>,
    pub distance: nat,
    pub max_len: nat,
}

impl View for FuzzyMatch {
    type V = MatchSpec;

    open spec fn view(&self) -> MatchSpec {
        MatchSpec {
            candidate: self.candidate@,
            distance: self.distance as nat,
            max_len: self.max_len as nat,
        }
    }
}

/// The views of a sequence of matches.
pub open spec fn match_views(v: Seq<FuzzyMatch>) -> Seq<MatchSpec> {
    v.map_values(|x: FuzzyMatch| x@)
}

/// The match of `candidate`, whose lowercased text is `c`, against the
/// lowercased query `q`.
pub open spec fn match_lowered(q: Seq<char>, c: Seq<char>, candidate: Seq<char>) -> MatchSpec {
    MatchSpec {
        candidate,
        distance: edit_distance(q, c),
        max_len: if q.len() >= c.len() {
            q.len()
        } else {
            c.len()
        },
    }
}

/// The match of `candidate` against `query`, both lowercased.
pub open spec fn match_of(query: Seq<char>, candidate: Seq<char>) -> MatchSpec {
    match_lowered(lower_of(query), lower_of(candidate), candidate)
}

/// The matches of `candidates`, lowercased as `lowered`, against the
/// lowercased query `q`, in the order given.
pub open spec fn lowered_matches(
    q: Seq<char>,
    lowered: Seq<Seq<char>>,
    candidates: Seq<Seq<char>>,
) -> Seq<MatchSpec> {
    Seq::new(candidates.len(), |i: int| match_lowered(q, lowered[i], candidates[i]))
}

/// The similarity of a match as a fraction `num / den`; two empty texts are
/// identical.
pub open spec fn sim_num(x: MatchSpec) -> int {
    if x.max_len == 0 {
        1
    } else {
        x.max_len - x.distance
    }
}

pub open spec fn sim_den(x: MatchSpec) -> int {
    if x.max_len == 0 {
        1
    } else {
        x.max_len as int
    }
}

/// `x` is at least as similar as `y`.
pub open spec fn at_least_as_similar(x: MatchSpec, y: MatchSpec) -> bool {
    sim_num(x) * sim_den(y) >= sim_num(y) * sim_den(x)
}

/// `x` reaches the similarity `percent / 100`.
pub open spec fn reaches(x: MatchSpec, percent: nat) -> bool {
    100 * sim_num(x) >= percent * sim_den(x)
}

/// Where `x` goes into the list `s`, sorted from most to least similar:
/// after every entry at least as similar as `x`.
pub open spec fn insert_position(s: Seq<MatchSpec>, x: MatchSpec) -> int
    decreases s.len(),
{
    if s.len() == 0 {
        0
    } else if at_least_as_similar(s.last(), x) {
        s.len() as int
    } else {
        insert_position(s.drop_last(), x)
    }
}

/// `s` sorted from most to least similar; equally similar entries keep
/// their order.
pub open spec fn sorted_by_similarity(s: Seq<MatchSpec>) -> Seq<MatchSpec>
    decreases s.len(),
{
    if s.len() == 0 {
        s
    } else {
        let rest = sorted_by_similarity(s.drop_last());
        rest.insert(insert_position(rest, s.last()), s.last())
    }
}

/// `s` runs from most to least similar.
pub open spec fn similarity_sorted(s: Seq<MatchSpec>) -> bool {
    forall|i: int, j: int| 0 <= i < j < s.len() ==> at_least_as_similar(s[i], s[j])
}

proof fn lemma_similarity_transitive(x: MatchSpec, y: MatchSpec, z: MatchSpec)
    requires
        at_least_as_similar(x, y),
        at_least_as_similar(y, z),
    ensures
        at_least_as_similar(x, z),
{
    let (nx, dx, ny, dy, nz, dz) = (sim_num(x), sim_den(x), sim_num(y), sim_den(y), sim_num(z), sim_den(z));
    assert(nx * dz >= nz * dx) by (nonlinear_arith)
        requires
            dx > 0,
            dy > 0,
            dz > 0,
            nx * dy >= ny * dx,
            ny * dz >= nz * dy,
    {
        assert(nx * dy * dz >= ny * dx * dz);
        assert(ny * dz * dx >= nz * dy * dx);
        assert((nx * dz) * dy >= (nz * dx) * dy);
    }
}

proof fn lemma_insert_position(s: Seq<MatchSpec>, x: MatchSpec)
    requires
        similarity_sorted(s),
    ensures
        0 <= insert_position(s, x) <= s.len(),
        forall|k: int| 0 <= k < insert_position(s, x) ==> at_least_as_similar(#[trigger] s[k], x),
        forall|k: int|
            insert_position(s, x) <= k < s.len() ==> !at_least_as_similar(#[trigger] s[k], x),
    decreases s.len(),
{
    if s.len() > 0 {
        if at_least_as_similar(s.last(), x) {
            assert forall|k: int| 0 <= k < s.len() implies at_least_as_similar(#[trigger] s[k], x) by {
                if k < s.len() - 1 {
                    lemma_similarity_transitive(s[k], s.last(), x);
                }
            }
        } else {
            let t = s.drop_last();
            assert(similarity_sorted(t));
            lemma_insert_position(t, x);
            assert forall|k: int| 0 <= k < insert_position(s, x) implies at_least_as_similar(
                #[trigger] s[k],
                x,
            ) by {
                assert(s[k] == t[k]);
            }
            assert forall|k: int| insert_position(s, x) <= k < s.len() implies !at_least_as_similar(
                #[trigger] s[k],
                x,
            ) by {
                if k < s.len() - 1 {
                    assert(s[k] == t[k]);
                }
            }
        }
    }
}

proof fn lemma_insert_keeps_sorted(s: Seq<MatchSpec>, x: MatchSpec)
    requires
        similarity_sorted(s),
    ensures
        similarity_sorted(s.insert(insert_position(s, x), x)),
{
    lemma_insert_position(s, x);
    let p = insert_position(s, x);
    let r = s.insert(p, x);
    assert forall|i: int, j: int| 0 <= i < j < r.len() implies at_least_as_similar(r[i], r[j]) by {
        if j < p {
            assert(r[i] == s[i] && r[j] == s[j]);
        } else if j == p {
            assert(r[i] == s[i] && r[j] == x);
        } else if i < p {
            assert(r[i] == s[i] && r[j] == s[j - 1]);
        } else if i == p {
            assert(r[i] == x && r[j] == s[j - 1]);
            assert(!at_least_as_similar(s[j - 1], x));
        } else {
            assert(r[i] == s[i - 1] && r[j] == s[j - 1]);
        }
    }
}

/// The ranking puts the matches in order from most to least similar, and
/// it only reorders them: the result holds the same entries as the input.
pub proof fn lemma_ranking_sorted_permutation(s: Seq<MatchSpec>)
    ensures
        similarity_sorted(sorted_by_similarity(s)),
        sorted_by_similarity(s).to_multiset() == s.to_multiset(),
    decreases s.len(),
{
    if s.len() > 0 {
        let rest = sorted_by_similarity(s.drop_last());
        lemma_ranking_sorted_permutation(s.drop_last());
        lemma_insert_keeps_sorted(rest, s.last());
        lemma_insert_position(rest, s.last());
        vstd::seq_lib::to_multiset_insert(rest, insert_position(rest, s.last()), s.last());
        assert(s.drop_last().push(s.last()) =~= s);
        vstd::seq_lib::to_multiset_build(s.drop_last(), s.last());
    }
}

/// The entries of `s` that reach `percent`, in order.
pub open spec fn keep_reaching(s: Seq<MatchSpec>, percent: nat) -> Seq<MatchSpec>
    decreases s.len(),
{
    if s.len() == 0 {
        s
    } else if reaches(s.last(), percent) {
        keep_reaching(s.drop_last(), percent).push(s.last())
    } else {
        keep_reaching(s.drop_last(), percent)
    }
}

/// The matches of every candidate against `query`, in the order given.
pub open spec fn matches_of(query: Seq<char>, candidates: Seq<Seq<char>>) -> Seq<MatchSpec> {
    candidates.map_values(|c: Seq<char>| match_of(query, c))
}

proof fn lemma_products_fit(a: int, b: int)
    requires
        0 <= a <= u64::MAX,
        0 <= b <= u64::MAX,
    ensures
        a * b <= u128::MAX,
{
    assert(a * b <= u64::MAX * u64::MAX) by (nonlinear_arith)
        requires
            0 <= a <= u64::MAX,
            0 <= b <= u64::MAX,
    ;
}

/// Whether `x` is at least as similar as `y`.
fn compare_similarity(x: &FuzzyMatch, y: &FuzzyMatch) -> (r: bool)
    requires
        x.distance <= x.max_len,
        y.distance <= y.max_len,
    ensures
        r == at_least_as_similar(x@, y@),
{
    let (xn, xd): (usize, usize) = if x.max_len == 0 {
        (1, 1)
    } else {
        (x.max_len - x.distance, x.max_len)
    };
    let (yn, yd): (usize, usize) = if y.max_len == 0 {
        (1, 1)
    } else {
        (y.max_len - y.distance, y.max_len)
    };
    proof {
        assert(usize::MAX <= u64::MAX);
        lemma_products_fit(xn as int, yd as int);
        lemma_products_fit(yn as int, xd as int);
    }
    (xn as u128) * (yd as u128) >= (yn as u128) * (xd as u128)
}

/// Whether `x` reaches `percent`.
fn reaches_percent(x: &FuzzyMatch, percent: u64) -> (r: bool)
    requires
        x.distance <= x.max_len,
    ensures
        r == reaches(x@, percent as nat),
{
    let (n, d): (usize, usize) = if x.max_len == 0 {
        (1, 1)
    } else {
        (x.max_len - x.distance, x.max_len)
    };
    proof {
        assert(usize::MAX <= u64::MAX);
        lemma_products_fit(100, n as int);
        lemma_products_fit(percent as int, d as int);
    }
    100u128 * (n as u128) >= (percent as u128) * (d as u128)
}

/// The match of `candidate`, lowercased as `lowered`, against `query_lower`.
fn match_candidate(query_lower: &str, lowered: &str, candidate: &String) -> (r: FuzzyMatch)
    ensures
        r@ == match_lowered(query_lower@, lowered@, candidate@),
        r.distance <= r.max_len,
{
    let distance = levenshtein_distance(query_lower, lowered);
    let ql = query_lower.unicode_len();
    let cl = lowered.unicode_len();
    let max_len = if ql >= cl {
        ql
    } else {
        cl
    };
    proof {
        lemma_distance_bounded(query_lower@, lowered@);
    }
    FuzzyMatch { candidate: candidate.clone(), distance, max_len }
}

/// Every candidate with its distance to the lowercased query `query_lower`,
/// from most to least similar; `lowered[i]` is the lowercased text of
/// `candidates[i]`. Equally similar candidates keep their order.
pub fn rank_lowered(query_lower: &str, lowered: &Vec<String>, candidates: &Vec<String>) -> (r: Vec<
    FuzzyMatch,
>)
    requires
        lowered@.len() == candidates@.len(),
    ensures
        match_views(r@) == sorted_by_similarity(
            lowered_matches(query_lower@, views(lowered@), views(candidates@)),
        ),
        forall|i: int| 0 <= i < r@.len() ==> #[trigger] r@[i].distance <= r@[i].max_len,
{
    let ghost all = lowered_matches(query_lower@, views(lowered@), views(candidates@));
    let mut r: Vec<FuzzyMatch> = Vec::new();
    let mut i: usize = 0;
    assert(all.subrange(0, 0) =~= Seq::<MatchSpec>::empty());
    while i < candidates.len()
        invariant
            i <= candidates@.len(),
            lowered@.len() == candidates@.len(),
            all == lowered_matches(query_lower@, views(lowered@), views(candidates@)),
            match_views(r@) == sorted_by_similarity(all.subrange(0, i as int)),
            forall|k: int| 0 <= k < r@.len() ==> #[trigger] r@[k].distance <= r@[k].max_len,
        decreases candidates.len() - i,
    {
        let ghost done = all.subrange(0, i as int);
        let ghost more = all.subrange(0, i + 1);
        assert(more.drop_last() =~= done);
        let x = match_candidate(query_lower, lowered[i].as_str(), &candidates[i]);
        assert(more.last() == x@);
        let mut pos: usize = r.len();
        assert(match_views(r@).subrange(0, r@.len() as int) =~= match_views(r@));
        while pos > 0 && !compare_similarity(&r[pos - 1], &x)
            invariant
                pos <= r@.len(),
                x.distance <= x.max_len,
                forall|k: int| 0 <= k < r@.len() ==> #[trigger] r@[k].distance <= r@[k].max_len,
                insert_position(match_views(r@), x@) == insert_position(
                    match_views(r@).subrange(0, pos as int),
                    x@,
                ),
            decreases pos,
        {
            let ghost s = match_views(r@).subrange(0, pos as int);
            assert(s.drop_last() =~= match_views(r@).subrange(0, pos - 1));
            pos = pos - 1;
        }
        proof {
            let s = match_views(r@).subrange(0, pos as int);
            if pos > 0 {
                assert(s.last() == match_views(r@)[pos - 1]);
            }
            assert(insert_position(s, x@) == pos as int);
        }
        let ghost old_r = r@;
        r.insert(pos, x);
        proof {
            assert(match_views(r@) =~= match_views(old_r).insert(pos as int, x@));
            assert forall|k: int| 0 <= k < r@.len() implies #[trigger] r@[k].distance
                <= r@[k].max_len by {
                if k < pos {
                    assert(r@[k] == old_r[k]);
                } else if k > pos {
                    assert(r@[k] == old_r[k - 1]);
                }
            }
        }
        i = i + 1;
    }
    assert(all.subrange(0, candidates@.len() as int) =~= all);
    r
}

/// The entries of `all` that reach the similarity `percent / 100`, in order.
fn keep_percent(all: &Vec<FuzzyMatch>, percent: u64) -> (r: Vec<FuzzyMatch>)
    requires
        forall|k: int| 0 <= k < all@.len() ==> #[trigger] all@[k].distance <= all@[k].max_len,
    ensures
        match_views(r@) == keep_reaching(match_views(all@), percent as nat),
{
    let mut r: Vec<FuzzyMatch> = Vec::new();
    let mut i: usize = 0;
    while i < all.len()
        invariant
            i <= all@.len(),
            forall|k: int| 0 <= k < all@.len() ==> #[trigger] all@[k].distance <= all@[k].max_len,
            match_views(r@) == keep_reaching(match_views(all@.subrange(0, i as int)), percent as nat),
        decreases all.len() - i,
    {
        let ghost done = match_views(all@.subrange(0, i as int));
        let ghost more = match_views(all@.subrange(0, i + 1));
        assert(more.drop_last() =~= done);
        if reaches_percent(&all[i], percent) {
            r.push(
                FuzzyMatch {
                    candidate: all[i].candidate.clone(),
                    distance: all[i].distance,
                    max_len: all[i].max_len,
                },
            );
            assert(match_views(r@) =~= keep_reaching(more, percent as nat));
        }
        i = i + 1;
    }
    assert(all@.subrange(0, all@.len() as int) =~= all@);
    r
}

/// The candidates that reach the similarity `percent / 100` against the
/// lowercased query `query_lower`, from most to least similar;
/// `lowered[i]` is the lowercased text of `candidates[i]`.
pub fn filter_lowered(
    query_lower: &str,
    lowered: &Vec<String>,
    candidates: &Vec<String>,
    percent: u64,
) -> (r: Vec<FuzzyMatch>)
    requires
        lowered@.len() == candidates@.len(),
    ensures
        match_views(r@) == keep_reaching(
            sorted_by_similarity(lowered_matches(query_lower@, views(lowered@), views(candidates@))),
            percent as nat,
        ),
{
    let all = rank_lowered(query_lower, lowered, candidates);
    keep_percent(&all, percent)
}

/// The lowercased texts of `candidates`.
fn lower_all(candidates: &Vec<String>) -> (r: Vec<String>)
    ensures
        r@.len() == candidates@.len(),
        forall|i: int| 0 <= i < r@.len() ==> #[trigger] r@[i]@ == lower_of(candidates@[i]@),
{
    let mut r: Vec<String> = Vec::new();
    let mut i: usize = 0;
    while i < candidates.len()
        invariant
            i <= candidates@.len(),
            r@.len() == i,
            forall|k: int| 0 <= k < i ==> #[trigger] r@[k]@ == lower_of(candidates@[k]@),
        decreases candidates.len() - i,
    {
        r.push(lowercase(candidates[i].as_str()));
        i = i + 1;
    }
    r
}

proof fn lemma_matches_lowered(query: Seq<char>, lowered: Seq<String>, candidates: Seq<String>)
    requires
        lowered.len() == candidates.len(),
        forall|i: int| 0 <= i < lowered.len() ==> #[trigger] lowered[i]@ == lower_of(candidates[i]@),
    ensures
        matches_of(query, views(candidates)) == lowered_matches(
            lower_of(query),
            views(lowered),
            views(candidates),
        ),
{
    assert(matches_of(query, views(candidates)) =~= lowered_matches(
        lower_of(query),
        views(lowered),
        views(candidates),
    ));
}

/// Every candidate with its distance to `query`, from most to least similar;
/// equally similar candidates keep their order.
pub fn fuzzy_match(query: &str, candidates: &Vec<String>) -> (r: Vec<FuzzyMatch>)
    ensures
        match_views(r@) == sorted_by_similarity(matches_of(query@, views(candidates@))),
        forall|i: int| 0 <= i < r@.len() ==> #[trigger] r@[i].distance <= r@[i].max_len,
{
    let q = lowercase(query);
    let lowered = lower_all(candidates);
    proof {
        lemma_matches_lowered(query@, lowered@, candidates@);
    }
    rank_lowered(q.as_str(), &lowered, candidates)
}

/// The candidates that reach the similarity `percent / 100`, from most to
/// least similar.
pub fn filter_matches(query: &str, candidates: &Vec<String>, percent: u64) -> (r: Vec<FuzzyMatch>)
    ensures
        match_views(r@) == keep_reaching(
            sorted_by_similarity(matches_of(query@, views(candidates@))),
            percent as nat,
        ),
{
    let q = lowercase(query);
    let lowered = lower_all(candidates);
    proof {
        lemma_matches_lowered(query@, lowered@, candidates@);
    }
    filter_lowered(q.as_str(), &lowered, candidates, percent)
}

/// The names of `s`, separated by `, `.
pub open spec fn joined(s: Seq<Seq<char>>) -> Seq<char>
    decreases s.len(),
{
    if s.len() == 0 {
        seq![]
    } else if s.len() == 1 {
        s[0]
    } else {
        joined(s.drop_last()) + ", "@ + s.last()
    }
}

/// The candidate names of `s`.
pub open spec fn candidate_names(s: Seq<MatchSpec>) -> Seq<Seq<char>> {
    s.map_values(|x: MatchSpec| x.candidate)
}

/// The candidate names of `matches`, separated by `, `.
pub fn join_candidates(matches: &Vec<FuzzyMatch>) -> (r: String)
    ensures
        r@ == joined(candidate_names(match_views(matches@))),
{
    let mut r = String::new();
    let mut i: usize = 0;
    while i < matches.len()
        invariant
            i <= matches@.len(),
            r@ == joined(candidate_names(match_views(matches@.subrange(0, i as int)))),
        decreases matches.len() - i,
    {
        let ghost done = candidate_names(match_views(matches@.subrange(0, i as int)));
        let ghost more = candidate_names(match_views(matches@.subrange(0, i + 1)));
        assert(more.drop_last() =~= done);
        if i > 0 {
            r.append(", ");
        } else {
            assert(r@ =~= seq![]);
        }
        r.append(matches[i].candidate.as_str());
        proof {
            if i == 0 {
                assert(r@ =~= more[0]);
            }
        }
        i = i + 1;
    }
    assert(matches@.subrange(0, matches@.len() as int) =~= matches@);
    r
}

} // verus!
