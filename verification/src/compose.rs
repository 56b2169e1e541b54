//! The description composer.
//!
//! A delta's records become one string: `"{message} {id}"` per commit, joined
//! by `,`, newest commit first. An empty delta composes to nothing at all —
//! the pipeline treats that as "nothing to do", not as an empty description.
//! The attribution trailer is appended exactly once, after any rewriting.

use vstd::prelude::*;
use crate::repo::{delta_indices, record_of, Commit, CommitRecord};

verus! {

/// The text one commit contributes: its message, a space, its hash.
pub open spec fn record_text(r: CommitRecord) -> Seq<char> {
    r.message@ + " "@ + r.id@
}

/// The raw description of a delta: the records' texts joined by `,`.
pub open spec fn compose_spec(rs: Seq<CommitRecord>) -> Seq<char>
    decreases rs.len(),
{
    if rs.len() == 0 {
        Seq::empty()
    } else if rs.len() == 1 {
        record_text(rs[0])
    } else {
        compose_spec(rs.drop_last()) + ","@ + record_text(rs.last())
    }
}

/// The fixed attribution line every shipped description ends with.
pub open spec fn trailer() -> Seq<char> {
    "\n\n\n*This request was opened by Shipit* 🚢"@
}

/// Composes the raw description of a delta, or reports an empty delta.
/// Returns a string exactly when the delta holds at least one commit.
pub fn compose(records: &Vec<CommitRecord>) -> (r: Option<String>)
    ensures
        r is Some <==> records.len() > 0,
        r matches Some(s) ==> s@ == compose_spec(records@),
{
    if records.len() == 0 {
        return None;
    }
    let mut s = String::new();
    let mut j: usize = 0;
    while j < records.len()
        invariant
            j <= records.len(),
            s@ == compose_spec(records@.take(j as int)),
        decreases records.len() - j,
    {
        proof {
            assert(records@.take(j as int + 1).drop_last() =~= records@.take(j as int));
            assert(records@.take(j as int + 1).last() == records@[j as int]);
        }
        if j > 0 {
            s.append(",");
        }
        let rec = &records[j];
        s.append(rec.message.as_str());
        s.append(" ");
        s.append(rec.id.as_str());
        assert(s@ =~= compose_spec(records@.take(j as int + 1)));
        j = j + 1;
    }
    proof {
        assert(records@.take(records.len() as int) =~= records@);
    }
    Some(s)
}

/// Appends the attribution trailer to a finished description body. This is
/// the only place the trailer enters, and it enters once.
pub fn finalize_description(body: String) -> (r: String)
    ensures
        r@ == body@ + trailer(),
{
    let mut s = body;
    s.append("\n\n\n*This request was opened by Shipit* 🚢");
    s
}

/// The text commit `idx` of the graph contributes to a description.
pub open spec fn commit_text(g: Seq<Commit>, idx: int) -> Seq<char> {
    g[idx].message->0@ + " "@ + g[idx].id@
}

/// The description the listed commits compose to, named by index.
pub open spec fn compose_indices(g: Seq<Commit>, idxs: Seq<int>) -> Seq<char>
    decreases idxs.len(),
{
    if idxs.len() == 0 {
        Seq::empty()
    } else if idxs.len() == 1 {
        commit_text(g, idxs[0])
    } else {
        compose_indices(g, idxs.drop_last()) + ","@ + commit_text(g, idxs.last())
    }
}

/// The raw description of the delta between two tips.
pub open spec fn raw_description_spec(g: Seq<Commit>, s: int, t: int) -> Seq<char> {
    compose_indices(g, delta_indices(g, s, t))
}

/// Records carrying the listed commits' payloads compose to the same text
/// as the commits themselves.
pub proof fn lemma_compose_records(g: Seq<Commit>, idxs: Seq<int>, rs: Seq<CommitRecord>)
    requires
        rs.len() == idxs.len(),
        forall|j: int| 0 <= j < rs.len() ==> record_of(g, idxs[j], #[trigger] rs[j]),
    ensures
        compose_spec(rs) == compose_indices(g, idxs),
    decreases rs.len(),
{
    if rs.len() > 0 {
        assert forall|j: int| 0 <= j < rs.drop_last().len() implies record_of(
            g,
            idxs.drop_last()[j],
            #[trigger] rs.drop_last()[j],
        ) by {
            assert(rs.drop_last()[j] == rs[j]);
            assert(idxs.drop_last()[j] == idxs[j]);
        }
        lemma_compose_records(g, idxs.drop_last(), rs.drop_last());
        assert(rs.last() == rs[rs.len() - 1]);
        assert(record_of(g, idxs.last(), rs.last()));
        assert(record_text(rs.last()) =~= commit_text(g, idxs.last()));
        if rs.len() == 1 {
            assert(compose_spec(rs) == record_text(rs[0]));
            assert(compose_indices(g, idxs) == commit_text(g, idxs[0]));
        }
    }
}

/// Composition is deterministic: two descriptions composed from one
/// unchanged delta are byte-identical. (Rewriting by the summarizer is
/// outside this guarantee; it is not a function of the delta.)
pub proof fn lemma_compose_deterministic(rs: Seq<CommitRecord>, r1: Seq<char>, r2: Seq<char>)
    requires
        r1 == compose_spec(rs),
        r2 == compose_spec(rs),
    ensures
        r1 == r2,
{
}

/// Does `pat` occur in `s` starting at position `i`?
pub open spec fn occurs_at(s: Seq<char>, pat: Seq<char>, i: int) -> bool {
    0 <= i && i + pat.len() <= s.len() && s.subrange(i, i + pat.len()) == pat
}

/// How many occurrences of `pat` start at position `from` or later in `s`.
pub open spec fn occ_count_from(s: Seq<char>, pat: Seq<char>, from: int) -> nat
    decreases s.len() + 1 - from,
{
    if from + pat.len() > s.len() || from > s.len() {
        0
    } else {
        (if occurs_at(s, pat, from) {
            1nat
        } else {
            0nat
        }) + occ_count_from(s, pat, from + 1)
    }
}

/// How many times `pat` occurs in `s`.
pub open spec fn occurrence_count(s: Seq<char>, pat: Seq<char>) -> nat {
    occ_count_from(s, pat, 0)
}

/// Past the last possible start, or with none left, the count is zero.
proof fn lemma_occ_rest_zero(s: Seq<char>, pat: Seq<char>, from: int)
    requires
        0 <= from,
        forall|i: int| from <= i ==> !occurs_at(s, pat, i),
    ensures
        occ_count_from(s, pat, from) == 0,
    decreases s.len() + 1 - from,
{
    if from + pat.len() <= s.len() && from <= s.len() {
        lemma_occ_rest_zero(s, pat, from + 1);
    }
}

/// With a single occurrence position `p` at or after `from`, the count from
/// `from` is exactly one.
proof fn lemma_occ_single(s: Seq<char>, pat: Seq<char>, from: int, p: int)
    requires
        0 <= from <= p,
        occurs_at(s, pat, p),
        forall|i: int| from <= i && i != p ==> !occurs_at(s, pat, i),
    ensures
        occ_count_from(s, pat, from) == 1,
    decreases s.len() + 1 - from,
{
    if from == p {
        assert forall|i: int| from + 1 <= i implies !occurs_at(s, pat, i) by {}
        lemma_occ_rest_zero(s, pat, from + 1);
    } else {
        lemma_occ_single(s, pat, from + 1, p);
    }
}

/// The trailer stands at the very end of every finalized description.
pub proof fn lemma_trailer_present(body: Seq<char>)
    ensures
        occurs_at(body + trailer(), trailer(), body.len() as int),
{
    assert((body + trailer()).subrange(
        body.len() as int,
        body.len() as int + trailer().len() as int,
    ) =~= trailer());
}

/// The trailer appears exactly once in a finalized description, whether or
/// not the body was rewritten first — provided the trailer's text does not
/// already show up earlier, as it could if a commit message embedded it.
pub proof fn lemma_trailer_exactly_once(body: Seq<char>)
    requires
        forall|i: int| 0 <= i < body.len() ==> !occurs_at(body + trailer(), trailer(), i),
    ensures
        occurrence_count(body + trailer(), trailer()) == 1,
{
    let s = body + trailer();
    lemma_trailer_present(body);
    assert forall|i: int| 0 <= i && i != body.len() as int implies !occurs_at(s, trailer(), i) by {
        if i > body.len() {
            assert(i + trailer().len() > s.len());
        }
    }
    lemma_occ_single(s, trailer(), 0, body.len() as int);
}

} // verus!
