//! The commit-graph model and the branch-delta walk.
//!
//! A repository's history, as far as this pipeline reads it, is a directed
//! acyclic graph of commits. The binary materializes the part of it reachable
//! from the two branch tips into a [`CommitGraph`]: commits stored oldest
//! first, every parent edge pointing at a smaller index. On that model the
//! delta walk is a reachability computation: the commits reachable from the
//! source tip but not from the target tip, emitted newest first (each commit
//! before any of its ancestors).

use vstd::prelude::*;
use crate::error::ShipItError;

verus! {

/// One commit: its content hash, its message (absent when the stored object
/// carries none), and its parents as indices into the owning graph.
#[derive(Debug, Clone)]
pub struct Commit {
    pub id: String,
    pub message: Option<String>,
    pub parents: Vec<usize>,
}

/// One commit of the delta, ready for the description composer.
#[derive(Debug, Clone)]
pub struct CommitRecord {
    pub id: String,
    pub message: String,
}

/// The materialized history the walk runs on.
#[derive(Debug, Clone)]
pub struct CommitGraph {
    pub commits: Vec<Commit>,
}

/// Every parent edge points at a strictly smaller index: the commits stand in
/// topological order, oldest first.
pub open spec fn parents_before(g: Seq<Commit>) -> bool {
    forall|i: int, k: int|
        0 <= i < g.len() && 0 <= k < g[i].parents.len() ==> (#[trigger] g[i].parents[k]) < i
}

impl CommitGraph {
    /// The graph's well-formedness: parents stand at smaller indices.
    pub open spec fn wf(self) -> bool {
        parents_before(self.commits@)
    }
}

/// Is `b` reachable from `a` along parent edges, where every commit a step
/// leaves has index at least `lo`? (`a == b` needs no step.) The guard
/// `parent < a` mirrors `parents_before` and gives termination.
pub open spec fn reach_via(g: Seq<Commit>, a: int, b: int, lo: int) -> bool
    decreases a,
{
    ||| a == b
    ||| (a >= lo && exists|k: int|
        0 <= k < g[a].parents.len() && (g[a].parents[k] as int) < a && reach_via(
            g,
            g[a].parents[k] as int,
            b,
            lo,
        ))
}

/// Is `b` in the ancestor closure of `a` (itself included)?
pub open spec fn in_closure(g: Seq<Commit>, a: int, b: int) -> bool {
    reach_via(g, a, b, 0)
}

/// Is `k` a commit unique to the source tip `s` relative to the target tip
/// `t`: reachable from `s`, not reachable from `t`?
pub open spec fn in_delta(g: Seq<Commit>, s: int, t: int, k: int) -> bool {
    in_closure(g, s, k) && !in_closure(g, t, k)
}

/// Does commit `i` have `b` among its parents?
pub open spec fn has_parent(g: Seq<Commit>, i: int, b: int) -> bool {
    exists|k: int| 0 <= k < g[i].parents.len() && (#[trigger] g[i].parents[k]) as int == b
}

/// Does commit `i` have `b` among its first `k` parents?
spec fn has_parent_upto(g: Seq<Commit>, i: int, b: int, k: int) -> bool {
    exists|k2: int| 0 <= k2 < k && (#[trigger] g[i].parents[k2]) as int == b
}

/// A lower `lo` only admits more paths.
proof fn lemma_reach_mono(g: Seq<Commit>, a: int, b: int, lo1: int, lo2: int)
    requires
        lo1 <= lo2,
        reach_via(g, a, b, lo2),
    ensures
        reach_via(g, a, b, lo1),
    decreases a,
{
    if a != b {
        let k = choose|k: int|
            0 <= k < g[a].parents.len() && (g[a].parents[k] as int) < a && reach_via(
                g,
                g[a].parents[k] as int,
                b,
                lo2,
            );
        lemma_reach_mono(g, g[a].parents[k] as int, b, lo1, lo2);
    }
}

/// Lowering the step bound from `i + 1` to `i` admits exactly the paths that
/// step off commit `i` itself; such a path runs from `a` to `i` over higher
/// commits and then takes a single parent edge of `i`.
proof fn lemma_reach_step(g: Seq<Commit>, a: int, b: int, i: int)
    requires
        parents_before(g),
        0 <= a < g.len(),
        0 <= i < g.len(),
    ensures
        reach_via(g, a, b, i) <==> (reach_via(g, a, b, i + 1) || (reach_via(g, a, i, i + 1)
            && has_parent(g, i, b))),
    decreases a,
{
    // Left to right.
    if reach_via(g, a, b, i) {
        if a == b {
            assert(reach_via(g, a, b, i + 1));
        } else {
            let k = choose|k: int|
                0 <= k < g[a].parents.len() && (g[a].parents[k] as int) < a && reach_via(
                    g,
                    g[a].parents[k] as int,
                    b,
                    i,
                );
            let p = g[a].parents[k] as int;
            if a == i {
                // The path's first step already leaves `i`; the rest of it
                // cannot step anywhere (every commit below `i` is under the
                // bound), so the parent is `b` itself.
                assert(reach_via(g, p, b, i));
                assert(p < i);
                assert(p == b);
                assert(has_parent(g, i, b));
                assert(reach_via(g, a, i, i + 1));
            } else {
                assert(a >= i + 1);
                lemma_reach_step(g, p, b, i);
                if reach_via(g, p, b, i + 1) {
                    assert(reach_via(g, a, b, i + 1));
                } else {
                    assert(reach_via(g, p, i, i + 1) && has_parent(g, i, b));
                    assert(reach_via(g, a, i, i + 1));
                }
            }
        }
    }
    // Right to left.
    if reach_via(g, a, b, i + 1) {
        lemma_reach_mono(g, a, b, i, i + 1);
    }
    if reach_via(g, a, i, i + 1) && has_parent(g, i, b) {
        if a == i {
            let k = choose|k: int| 0 <= k < g[i].parents.len() && (g[i].parents[k] as int) == b;
            assert(0 <= i < g.len());
            assert((g[i].parents[k] as int) < i);
            assert(reach_via(g, b, b, i));
            assert(reach_via(g, a, b, i));
        } else {
            let k = choose|k: int|
                0 <= k < g[a].parents.len() && (g[a].parents[k] as int) < a && reach_via(
                    g,
                    g[a].parents[k] as int,
                    i,
                    i + 1,
                );
            let p = g[a].parents[k] as int;
            assert(0 <= p < g.len());
            lemma_reach_step(g, p, b, i);
            assert(reach_via(g, p, b, i));
            assert(a >= i);
            assert(reach_via(g, a, b, i));
        }
    }
}

/// Marks, for every commit of the graph, whether it lies in the ancestor
/// closure of `tip`. One sweep from the newest commit down suffices because
/// parent edges only ever point backwards.
pub fn closure_from(g: &CommitGraph, tip: usize) -> (r: Vec<bool>)
    requires
        g.wf(),
        tip < g.commits.len(),
    ensures
        r.len() == g.commits.len(),
        forall|k: int|
            0 <= k < g.commits.len() ==> (r[k] <==> in_closure(g.commits@, tip as int, k)),
{
    let n = g.commits.len();
    let mut reach: Vec<bool> = Vec::new();
    let mut j: usize = 0;
    while j < n
        invariant
            j <= n,
            reach.len() == j,
            forall|x: int| 0 <= x < j ==> !reach[x],
        decreases n - j,
    {
        reach.push(false);
        j = j + 1;
    }
    reach[tip] = true;
    assert forall|x: int| 0 <= x < n implies (reach[x] <==> reach_via(
        g.commits@,
        tip as int,
        x,
        n as int,
    )) by {
        assert(reach_via(g.commits@, tip as int, x, n as int) <==> tip as int == x);
    }
    let mut i: usize = n;
    while i > 0
        invariant
            i <= n,
            n == g.commits.len(),
            tip < n,
            g.wf(),
            reach.len() == n,
            forall|x: int|
                0 <= x < n ==> (reach[x] <==> reach_via(g.commits@, tip as int, x, i as int)),
        decreases i,
    {
        i = i - 1;
        let ghost r0 = reach@;
        if reach[i] {
            let parents = &g.commits[i].parents;
            let mut k: usize = 0;
            while k < parents.len()
                invariant
                    k <= parents.len(),
                    parents == g.commits[i as int].parents,
                    i < n,
                    n == g.commits.len(),
                    g.wf(),
                    reach.len() == n,
                    forall|x: int|
                        0 <= x < n ==> (#[trigger] reach[x] <==> (r0[x] || has_parent_upto(
                            g.commits@,
                            i as int,
                            x,
                            k as int,
                        ))),
                decreases parents.len() - k,
            {
                let p = parents[k];
                assert((g.commits[i as int].parents[k as int] as int) < i);
                reach[p] = true;
                k = k + 1;
                assert forall|x: int|
                    0 <= x < n implies (#[trigger] reach[x] <==> (r0[x] || has_parent_upto(
                        g.commits@,
                        i as int,
                        x,
                        k as int,
                    ))) by {
                    if x == p as int {
                        assert(g.commits@[i as int].parents[k - 1] as int == x);
                        assert(has_parent_upto(g.commits@, i as int, x, k as int));
                    } else {
                        if has_parent_upto(g.commits@, i as int, x, k as int) {
                            let k2 = choose|k2: int|
                                0 <= k2 < k && (#[trigger] g.commits@[i as int].parents[k2])
                                    as int == x;
                            assert(k2 < k - 1);
                            assert(has_parent_upto(g.commits@, i as int, x, k as int - 1));
                        }
                    }
                }
            }
            assert forall|x: int| 0 <= x < n implies (#[trigger] reach[x] <==> (r0[x]
                || has_parent(g.commits@, i as int, x))) by {
                assert(has_parent_upto(g.commits@, i as int, x, parents.len() as int)
                    == has_parent(g.commits@, i as int, x));
            }
        }
        assert forall|x: int| 0 <= x < n implies (reach[x] <==> reach_via(
            g.commits@,
            tip as int,
            x,
            i as int,
        )) by {
            lemma_reach_step(g.commits@, tip as int, x, i as int);
            assert(r0[x] <==> reach_via(g.commits@, tip as int, x, i as int + 1));
            assert(r0[i as int] <==> reach_via(g.commits@, tip as int, i as int, i as int + 1));
        }
    }
    reach
}

/// Does the record carry commit `idx`'s payload?
pub open spec fn record_of(g: Seq<Commit>, idx: int, r: CommitRecord) -> bool {
    &&& r.id@ == g[idx].id@
    &&& g[idx].message matches Some(m) && r.message@ == m@
}

/// The delta indices within `[lo, hi)`, newest (largest index) first.
pub open spec fn delta_from(g: Seq<Commit>, s: int, t: int, lo: int, hi: int) -> Seq<int>
    decreases hi - lo,
{
    if lo >= hi {
        Seq::empty()
    } else {
        delta_from(g, s, t, lo + 1, hi) + (if in_delta(g, s, t, lo) {
            seq![lo]
        } else {
            Seq::empty()
        })
    }
}

/// The indices of the commits unique to source tip `s` relative to target
/// tip `t`, newest first: the shape every delta walk returns.
pub open spec fn delta_indices(g: Seq<Commit>, s: int, t: int) -> Seq<int> {
    delta_from(g, s, t, 0, g.len() as int)
}

/// The induction behind the delta's exactness, over an index range.
proof fn lemma_delta_from_exact(g: Seq<Commit>, s: int, t: int, lo: int, hi: int)
    ensures
        forall|j: int|
            0 <= j < delta_from(g, s, t, lo, hi).len() ==> lo <= #[trigger] delta_from(
                g,
                s,
                t,
                lo,
                hi,
            )[j] < hi && in_delta(g, s, t, delta_from(g, s, t, lo, hi)[j]),
        forall|x: int|
            lo <= x < hi && in_delta(g, s, t, x) ==> #[trigger] delta_from(
                g,
                s,
                t,
                lo,
                hi,
            ).contains(x),
        forall|j1: int, j2: int|
            0 <= j1 < j2 < delta_from(g, s, t, lo, hi).len() ==> #[trigger] delta_from(
                g,
                s,
                t,
                lo,
                hi,
            )[j1] > #[trigger] delta_from(g, s, t, lo, hi)[j2],
    decreases hi - lo,
{
    if lo < hi {
        lemma_delta_from_exact(g, s, t, lo + 1, hi);
        let d = delta_from(g, s, t, lo, hi);
        let dr = delta_from(g, s, t, lo + 1, hi);
        assert forall|x: int| lo <= x < hi && in_delta(g, s, t, x) implies #[trigger] d.contains(
            x,
        ) by {
            if x == lo {
                assert(d[d.len() - 1] == lo);
            } else {
                assert(dr.contains(x));
                let j = choose|j: int| 0 <= j < dr.len() && dr[j] == x;
                assert(d[j] == x);
            }
        }
    }
}

/// The delta holds exactly the commits unique to the source tip: every
/// member is reachable from the source and from outside the target's
/// ancestor closure, every such commit is a member, and they stand in
/// commit-graph order — strictly falling indices, each commit before any of
/// its ancestors.
pub proof fn lemma_delta_indices_exact(g: Seq<Commit>, s: int, t: int)
    ensures
        forall|j: int|
            0 <= j < delta_indices(g, s, t).len() ==> 0 <= #[trigger] delta_indices(g, s, t)[j]
                < g.len() && in_delta(g, s, t, delta_indices(g, s, t)[j]),
        forall|x: int|
            0 <= x < g.len() && in_delta(g, s, t, x) ==> #[trigger] delta_indices(
                g,
                s,
                t,
            ).contains(x),
        forall|j1: int, j2: int|
            0 <= j1 < j2 < delta_indices(g, s, t).len() ==> #[trigger] delta_indices(g, s, t)[j1]
                > #[trigger] delta_indices(g, s, t)[j2],
{
    lemma_delta_from_exact(g, s, t, 0, g.len() as int);
}

/// When both branches point at the same commit, nothing is unique to the
/// source: the delta is empty.
pub proof fn lemma_same_tip_empty_delta(g: Seq<Commit>, s: int)
    ensures
        delta_indices(g, s, s).len() == 0,
{
    lemma_delta_from_exact(g, s, s, 0, g.len() as int);
    let d = delta_indices(g, s, s);
    if d.len() > 0 {
        assert(in_delta(g, s, s, d[0]));
        assert(false);
    }
}

/// Walks the delta: every commit reachable from the source tip but not from
/// the target tip, newest first, as records of hash and message. Fails — and
/// fails only — when some delta commit carries no message.
pub fn delta_walk(g: &CommitGraph, source_tip: usize, target_tip: usize) -> (r: Result<
    Vec<CommitRecord>,
    ShipItError,
>)
    requires
        g.wf(),
        source_tip < g.commits.len(),
        target_tip < g.commits.len(),
    ensures
        r matches Ok(v) ==> {
            &&& v.len() == delta_indices(g.commits@, source_tip as int, target_tip as int).len()
            &&& forall|j: int|
                0 <= j < v.len() ==> record_of(
                    g.commits@,
                    delta_indices(g.commits@, source_tip as int, target_tip as int)[j],
                    #[trigger] v[j],
                )
        },
        r matches Err(e) ==> e == ShipItError::HistoryWalkFailed,
        r is Err <==> exists|x: int|
            0 <= x < g.commits.len() && #[trigger] in_delta(
                g.commits@,
                source_tip as int,
                target_tip as int,
                x,
            ) && g.commits@[x].message is None,
{
    let ghost s = source_tip as int;
    let ghost t = target_tip as int;
    let src_reach = closure_from(g, source_tip);
    let tgt_reach = closure_from(g, target_tip);
    let n = g.commits.len();
    let mut out: Vec<CommitRecord> = Vec::new();
    let mut i: usize = n;
    while i > 0
        invariant
            i <= n,
            n == g.commits.len(),
            g.wf(),
            source_tip < n,
            target_tip < n,
            s == source_tip as int,
            t == target_tip as int,
            src_reach.len() == n,
            tgt_reach.len() == n,
            forall|k: int| 0 <= k < n ==> (src_reach[k] <==> in_closure(g.commits@, s, k)),
            forall|k: int| 0 <= k < n ==> (tgt_reach[k] <==> in_closure(g.commits@, t, k)),
            out.len() == delta_from(g.commits@, s, t, i as int, n as int).len(),
            forall|j: int|
                0 <= j < out.len() ==> record_of(
                    g.commits@,
                    delta_from(g.commits@, s, t, i as int, n as int)[j],
                    #[trigger] out[j],
                ),
            forall|x: int|
                i <= x < n && #[trigger] in_delta(g.commits@, s, t, x) ==> g.commits@[x].message
                    is Some,
        decreases i,
    {
        i = i - 1;
        let ghost d_prev = delta_from(g.commits@, s, t, i as int + 1, n as int);
        let ghost d_cur = delta_from(g.commits@, s, t, i as int, n as int);
        if src_reach[i] && !tgt_reach[i] {
            assert(in_delta(g.commits@, s, t, i as int));
            assert(d_cur == d_prev + seq![i as int]);
            let c = &g.commits[i];
            match &c.message {
                Some(m) => {
                    out.push(CommitRecord { id: c.id.clone(), message: m.clone() });
                    assert forall|j: int| 0 <= j < out.len() implies record_of(
                        g.commits@,
                        d_cur[j],
                        #[trigger] out[j],
                    ) by {
                        if j < out.len() - 1 {
                            assert(d_cur[j] == d_prev[j]);
                        } else {
                            assert(d_cur[j] == i as int);
                        }
                    }
                },
                None => {
                    return Err(ShipItError::HistoryWalkFailed);
                },
            }
        } else {
            assert(!in_delta(g.commits@, s, t, i as int));
            assert(d_cur =~= d_prev);
        }
    }
    assert(!(exists|x: int|
        0 <= x < g.commits.len() && #[trigger] in_delta(g.commits@, s, t, x)
            && g.commits@[x].message is None));
    Ok(out)
}

} // verus!
