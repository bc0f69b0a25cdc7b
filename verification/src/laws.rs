//! Properties of the deduplicator.
//!
//! These proofs hold for any output admitted by `dedup_post`, the contract
//! of `deduplicate_results`: determinism under reordering of the input,
//! preservation of records on distinct lines, and idempotence.

use vstd::prelude::*;

use crate::dedup::{dedup_post, has_key_in, rank_eq, rank_le, sorted_strictly_by_key};
use crate::order::{key_lt, lemma_key_lt_trichotomy, same_key};
use crate::results::MatchView;

verus! {

/// No two distinct records of `s` share both their key and their rank.
/// Records that tie in `(line, span length, start character, end character)`
/// but differ elsewhere (say, in where a multi-line span starts) leave the
/// selection to the input order, so determinism is stated for tie-free
/// inputs.
pub open spec fn tie_free(s: Seq<MatchView>) -> bool {
    forall|r1: MatchView, r2: MatchView|
        #![trigger s.contains(r1), s.contains(r2)]
        s.contains(r1) && s.contains(r2) && same_key(r1, r2) && rank_eq(r1, r2) ==> r1 == r2
}

/// Two sequences sorted strictly by key that contain the same records are
/// the same sequence.
pub proof fn lemma_strictly_sorted_unique(x: Seq<MatchView>, y: Seq<MatchView>)
    requires
        sorted_strictly_by_key(x),
        sorted_strictly_by_key(y),
        forall|r: MatchView| x.contains(r) <==> y.contains(r),
    ensures
        x =~= y,
    decreases x.len(),
{
    if x.len() == 0 {
        if y.len() > 0 {
            assert(y.contains(y[0]));
            assert(x.contains(y[0]));
        }
    } else {
        assert(x.contains(x[0]));
        assert(y.contains(x[0]));
        let j = choose|j: int| 0 <= j < y.len() && y[j] == x[0];
        assert(y.contains(y[0]));
        assert(x.contains(y[0]));
        let i = choose|i: int| 0 <= i < x.len() && x[i] == y[0];
        if i > 0 && j > 0 {
            assert(key_lt(x[0], x[i]));
            assert(key_lt(y[0], y[j]));
            lemma_key_lt_trichotomy(x[0], y[0]);
            assert(false);
        }
        assert(x[0] == y[0]);
        let x1 = x.drop_first();
        let y1 = y.drop_first();
        assert(forall|k: int| 0 <= k < x1.len() ==> #[trigger] x1[k] == x[k + 1]);
        assert(forall|k: int| 0 <= k < y1.len() ==> #[trigger] y1[k] == y[k + 1]);
        assert(sorted_strictly_by_key(x1));
        assert(sorted_strictly_by_key(y1));
        assert forall|r: MatchView| #[trigger] x1.contains(r) implies y1.contains(r) by {
            let k = choose|k: int| 0 <= k < x1.len() && x1[k] == r;
            assert(x.contains(x[k + 1]));
            assert(y.contains(r));
            let m = choose|m: int| 0 <= m < y.len() && y[m] == r;
            assert(key_lt(x[0], x[k + 1]));
            if m == 0 {
                lemma_key_lt_trichotomy(x[0], r);
                assert(false);
            }
            assert(y1[m - 1] == r);
        }
        assert forall|r: MatchView| #[trigger] y1.contains(r) implies x1.contains(r) by {
            let k = choose|k: int| 0 <= k < y1.len() && y1[k] == r;
            assert(y.contains(y[k + 1]));
            assert(x.contains(r));
            let m = choose|m: int| 0 <= m < x.len() && x[m] == r;
            assert(key_lt(y[0], y[k + 1]));
            if m == 0 {
                lemma_key_lt_trichotomy(y[0], r);
                assert(false);
            }
            assert(x1[m - 1] == r);
        }
        lemma_strictly_sorted_unique(x1, y1);
        assert forall|k: int| 0 <= k < x.len() implies x[k] == y[k] by {
            if k > 0 {
                assert(x1[k - 1] == y1[k - 1]);
            }
        }
    }
}

/// Determinism: deduplication depends only on the multiset of input
/// records. Two inputs that are permutations of one another — with no two
/// distinct records tying in both key and rank — admit exactly one
/// deduplicated output.
#[verifier::rlimit(60)]
pub proof fn lemma_deduplicate_deterministic(
    a: Seq<MatchView>,
    b: Seq<MatchView>,
    out_a: Seq<MatchView>,
    out_b: Seq<MatchView>,
)
    requires
        a.to_multiset() == b.to_multiset(),
        tie_free(a),
        dedup_post(a, out_a),
        dedup_post(b, out_b),
    ensures
        out_a =~= out_b,
{
    assert forall|r: MatchView| #[trigger] a.contains(r) implies b.contains(r) by {
        vstd::seq_lib::to_multiset_contains(a, r);
        vstd::seq_lib::to_multiset_contains(b, r);
    }
    assert forall|r: MatchView| #[trigger] b.contains(r) implies a.contains(r) by {
        vstd::seq_lib::to_multiset_contains(a, r);
        vstd::seq_lib::to_multiset_contains(b, r);
    }
    assert forall|r: MatchView| #[trigger] out_a.contains(r) implies out_b.contains(r) by {
        let i = choose|i: int| 0 <= i < out_a.len() && out_a[i] == r;
        assert(a.contains(out_a[i]));
        assert(b.contains(r));
        assert(has_key_in(out_b, r));
        let j = choose|j: int| 0 <= j < out_b.len() && same_key(out_b[j], r);
        assert(b.contains(out_b[j]));
        assert(a.contains(out_b[j]));
        assert(same_key(out_a[i], out_b[j]));
        assert(rank_le(out_a[i], out_b[j]));
        assert(same_key(out_b[j], r));
        assert(rank_le(out_b[j], r));
        assert(rank_eq(r, out_b[j]));
        assert(r == out_b[j]);
    }
    assert forall|r: MatchView| #[trigger] out_b.contains(r) implies out_a.contains(r) by {
        let i = choose|i: int| 0 <= i < out_b.len() && out_b[i] == r;
        assert(b.contains(out_b[i]));
        assert(a.contains(r));
        assert(has_key_in(out_a, r));
        let j = choose|j: int| 0 <= j < out_a.len() && same_key(out_a[j], r);
        assert(a.contains(out_a[j]));
        assert(same_key(out_b[i], out_a[j]));
        assert(rank_le(out_b[i], out_a[j]));
        assert(rank_le(out_a[j], r));
        assert(rank_eq(r, out_a[j]));
        assert(r == out_a[j]);
    }
    lemma_strictly_sorted_unique(out_a, out_b);
}

/// Grouping correctness: two input records on different lines are never
/// merged — each of their keys keeps a representative of its own in the
/// output, even when their spans touch or overlap.
pub proof fn lemma_lines_never_merged(
    input: Seq<MatchView>,
    out: Seq<MatchView>,
    r1: MatchView,
    r2: MatchView,
)
    requires
        dedup_post(input, out),
        input.contains(r1),
        input.contains(r2),
        r1.line != r2.line,
    ensures
        has_key_in(out, r1),
        has_key_in(out, r2),
        forall|i: int, j: int|
            #![trigger out[i], out[j]]
            0 <= i < out.len() && 0 <= j < out.len() && same_key(out[i], r1) && same_key(
                out[j],
                r2,
            ) ==> i != j,
{
}

/// Idempotence: deduplicating the output of a deduplication returns that
/// output unchanged.
pub proof fn lemma_deduplicate_idempotent(
    input: Seq<MatchView>,
    once: Seq<MatchView>,
    twice: Seq<MatchView>,
)
    requires
        dedup_post(input, once),
        dedup_post(once, twice),
    ensures
        twice =~= once,
{
    assert forall|r: MatchView| #[trigger] twice.contains(r) implies once.contains(r) by {
        let i = choose|i: int| 0 <= i < twice.len() && twice[i] == r;
        assert(once.contains(twice[i]));
    }
    assert forall|r: MatchView| #[trigger] once.contains(r) implies twice.contains(r) by {
        let i0 = choose|i0: int| 0 <= i0 < once.len() && once[i0] == r;
        assert(has_key_in(twice, r));
        let j = choose|j: int| 0 <= j < twice.len() && same_key(twice[j], r);
        assert(once.contains(twice[j]));
        let i1 = choose|i1: int| 0 <= i1 < once.len() && once[i1] == twice[j];
        if i1 != i0 {
            assert(key_lt(once[i0], once[i1]) || key_lt(once[i1], once[i0]));
            lemma_key_lt_trichotomy(once[i0], once[i1]);
            assert(false);
        }
        assert(twice[j] == r);
    }
    lemma_strictly_sorted_unique(twice, once);
}

} // verus!
