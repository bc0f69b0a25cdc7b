//! Deduplication of raw pattern matches.
//!
//! A single logical reference can be reported several times at slightly
//! different spans for the same `(file, line)` key. `deduplicate_results`
//! collapses each group of key-sharing records into the one canonical record
//! that minimizes `(line, span length in lines, start character, end
//! character)`, and returns the canonical records sorted by key, so the
//! output is independent of the order in which the query engine reported
//! the raw matches.

use vstd::prelude::*;

use crate::order::{key_lt, lemma_key_lt_trichotomy, lemma_key_lt_transitive, node_key_lt,
    node_same_key, same_key};
use crate::results::{MatchView, ResultNode, views_of};

verus! {

/// How many lines a match spans: the line-count width of its location,
/// not its character width.
pub open spec fn span_len(v: MatchView) -> int {
    v.loc.end_position.line - v.loc.start_position.line
}

/// Two records tie in rank when line, span length, start character and end
/// character all agree.
pub open spec fn rank_eq(a: MatchView, b: MatchView) -> bool {
    &&& a.line == b.line
    &&& span_len(a) == span_len(b)
    &&& a.loc.start_position.character == b.loc.start_position.character
    &&& a.loc.end_position.character == b.loc.end_position.character
}

/// The strict selection order within a deduplication group: prefer the
/// smaller line, then the tightest span (fewest lines), then the earliest
/// start character, then the earliest end character.
pub open spec fn rank_lt(a: MatchView, b: MatchView) -> bool {
    ||| a.line < b.line
    ||| (a.line == b.line && span_len(a) < span_len(b))
    ||| (a.line == b.line && span_len(a) == span_len(b)
        && a.loc.start_position.character < b.loc.start_position.character)
    ||| (a.line == b.line && span_len(a) == span_len(b)
        && a.loc.start_position.character == b.loc.start_position.character
        && a.loc.end_position.character < b.loc.end_position.character)
}

/// Non-strict selection order.
pub open spec fn rank_le(a: MatchView, b: MatchView) -> bool {
    rank_lt(a, b) || rank_eq(a, b)
}

/// Each record's key is strictly below the keys of all later records.
pub open spec fn sorted_strictly_by_key(s: Seq<MatchView>) -> bool {
    forall|i: int, j: int| 0 <= i < j < s.len() ==> key_lt(s[i], s[j])
}

/// No two records of `s` share a key.
pub open spec fn distinct_keys(s: Seq<MatchView>) -> bool {
    forall|i: int, j: int| 0 <= i < j < s.len() ==> !same_key(s[i], s[j])
}

/// Some record of `s` shares `r`'s key.
pub open spec fn has_key_in(s: Seq<MatchView>, r: MatchView) -> bool {
    exists|i: int| 0 <= i < s.len() && same_key(#[trigger] s[i], r)
}

/// What deduplication promises: the output is sorted strictly by key (so
/// keys are unique), every output record occurs in the input, every input
/// record's key is represented, and each output record has minimal rank
/// among the input records sharing its key.
pub open spec fn dedup_post(input: Seq<MatchView>, out: Seq<MatchView>) -> bool {
    &&& sorted_strictly_by_key(out)
    &&& forall|i: int| 0 <= i < out.len() ==> input.contains(#[trigger] out[i])
    &&& forall|r: MatchView| input.contains(r) ==> #[trigger] has_key_in(out, r)
    &&& forall|i: int, r: MatchView|
        #![trigger same_key(out[i], r)]
        0 <= i < out.len() && input.contains(r) && same_key(out[i], r) ==> rank_le(out[i], r)
}

/// Executable rank comparison.
fn node_rank_lt(a: &ResultNode, b: &ResultNode) -> (r: bool)
    requires
        a.wf(),
        b.wf(),
    ensures
        r == rank_lt(a@, b@),
{
    let a_span = a.code_location.end_position.line - a.code_location.start_position.line;
    let b_span = b.code_location.end_position.line - b.code_location.start_position.line;
    if a.line_number != b.line_number {
        a.line_number < b.line_number
    } else if a_span != b_span {
        a_span < b_span
    } else if a.code_location.start_position.character != b.code_location.start_position.character {
        a.code_location.start_position.character < b.code_location.start_position.character
    } else {
        a.code_location.end_position.character < b.code_location.end_position.character
    }
}

/// The index of a record of `best` sharing `r`'s key, if there is one.
fn find_key(best: &Vec<ResultNode>, r: &ResultNode) -> (o: Option<usize>)
    ensures
        match o {
            Some(i) => i < best@.len() && same_key(best@[i as int]@, r@),
            None => forall|i: int| 0 <= i < best@.len() ==> !same_key(best@[i]@, r@),
        },
{
    let mut i: usize = 0;
    while i < best.len()
        invariant
            i <= best@.len(),
            forall|j: int| 0 <= j < i ==> !same_key(best@[j]@, r@),
        decreases best@.len() - i,
    {
        if node_same_key(&best[i], r) {
            return Some(i);
        }
        i = i + 1;
    }
    None
}

/// First pass: one record per key, in first-appearance order of the keys,
/// each of minimal rank within its group.
#[verifier::rlimit(60)]
fn select_best(results: &Vec<ResultNode>) -> (best: Vec<ResultNode>)
    requires
        forall|i: int| 0 <= i < results@.len() ==> (#[trigger] results@[i]).wf(),
    ensures
        forall|i: int| 0 <= i < best@.len() ==> (#[trigger] best@[i]).wf(),
        forall|i: int, j: int|
            #![trigger best@[i], best@[j]]
            0 <= i < j < best@.len() ==> !same_key(best@[i]@, best@[j]@),
        forall|i: int|
            0 <= i < best@.len() ==> views_of(results@).contains((#[trigger] best@[i])@),
        forall|r: MatchView|
            views_of(results@).contains(r) ==> #[trigger] has_key_in(views_of(best@), r),
        forall|i: int, r: MatchView|
            #![trigger views_of(best@)[i], views_of(results@).contains(r)]
            0 <= i < best@.len() && views_of(results@).contains(r) && same_key(
                views_of(best@)[i],
                r,
            ) ==> rank_le(views_of(best@)[i], r),
{
    let mut best: Vec<ResultNode> = Vec::new();
    let mut n: usize = 0;
    // ghost bookkeeping: where each kept record came from (`src`) and which
    // kept record represents each processed input record (`rep`)
    let ghost mut src: Seq<int> = Seq::empty();
    let ghost mut rep: Seq<int> = Seq::empty();
    while n < results.len()
        invariant
            n <= results@.len(),
            forall|i: int| 0 <= i < results@.len() ==> (#[trigger] results@[i]).wf(),
            forall|i: int| 0 <= i < best@.len() ==> (#[trigger] best@[i]).wf(),
            forall|i: int, j: int|
                #![trigger best@[i], best@[j]]
                0 <= i < j < best@.len() ==> !same_key(best@[i]@, best@[j]@),
            src.len() == best@.len(),
            forall|i: int|
                0 <= i < best@.len() ==> 0 <= #[trigger] src[i] < n && best@[i]@ == results@[
                src[i]]@,
            rep.len() == n,
            forall|k: int|
                0 <= k < n ==> 0 <= #[trigger] rep[k] < best@.len() && same_key(best@[rep[k]]@,
                results@[k]@),
            forall|i: int, k: int|
                #![trigger best@[i], results@[k]]
                0 <= i < best@.len() && 0 <= k < n && same_key(best@[i]@, results@[k]@)
                    ==> rank_le(best@[i]@, results@[k]@),
        decreases results@.len() - n,
    {
        let r = &results[n];
        let ghost rv = results@[n as int]@;
        match find_key(&best, r) {
            Some(i) => {
                let ghost old_best = best@;
                let ghost li = i as int;
                if node_rank_lt(r, &best[i]) {
                    let dup = r.duplicate();
                    best.set(i, dup);
                    proof {
                        src = src.update(li, n as int);
                    }
                }
                proof {
                    rep = rep.push(li);
                    assert(best@.len() == old_best.len());
                    assert(forall|j: int|
                        0 <= j < best@.len() && j != li ==> #[trigger] best@[j] == old_best[j]);
                    assert(best@[li]@ == old_best[li]@ || best@[li]@ == rv);
                    assert(same_key(best@[li]@, rv));
                    assert(same_key(best@[li]@, old_best[li]@));
                    assert(rank_le(best@[li]@, old_best[li]@));
                    assert(rank_le(best@[li]@, rv));
                    assert(forall|j: int|
                        0 <= j < best@.len() ==> same_key((#[trigger] best@[j])@, old_best[j]@));
                    assert forall|i2: int, k: int|
                        #![trigger best@[i2], results@[k]]
                        0 <= i2 < best@.len() && 0 <= k < n + 1 && same_key(best@[i2]@, results@[
                    k]@) implies rank_le(best@[i2]@, results@[k]@) by {
                        if k == n {
                            if i2 != li {
                                assert(same_key(old_best[i2]@, rv));
                                assert(same_key(old_best[i2]@, old_best[li]@));
                                assert(false);
                            }
                        } else {
                            assert(same_key(old_best[i2]@, results@[k]@));
                            assert(rank_le(old_best[i2]@, results@[k]@));
                        }
                    }
                }
            },
            None => {
                let ghost old_best = best@;
                let dup = r.duplicate();
                best.push(dup);
                proof {
                    let last = old_best.len() as int;
                    src = src.push(n as int);
                    rep = rep.push(last);
                    assert(best@.len() == old_best.len() + 1);
                    assert(forall|j: int| 0 <= j < last ==> #[trigger] best@[j] == old_best[j]);
                    assert(best@[last]@ == rv);
                    // no earlier prefix record shares the new key: its
                    // representative would have been found by `find_key`
                    assert forall|k: int|
                        0 <= k < n && same_key(rv, (#[trigger] results@[k])@) implies false by {
                        let i = rep[k];
                        assert(same_key(old_best[i]@, results@[k]@));
                        assert(!same_key(old_best[i]@, rv));
                    }
                    assert forall|i2: int, k: int|
                        #![trigger best@[i2], results@[k]]
                        0 <= i2 < best@.len() && 0 <= k < n + 1 && same_key(best@[i2]@, results@[
                    k]@) implies rank_le(best@[i2]@, results@[k]@) by {
                        if i2 < last {
                            if k < n {
                                assert(same_key(old_best[i2]@, results@[k]@));
                                assert(rank_le(old_best[i2]@, results@[k]@));
                            } else {
                                assert(!same_key(old_best[i2]@, rv));
                                assert(false);
                            }
                        } else {
                            if k < n {
                                assert(same_key(rv, results@[k]@));
                                assert(false);
                            } else {
                                assert(rank_le(rv, rv));
                            }
                        }
                    }
                    assert forall|i2: int, j: int|
                        #![trigger best@[i2], best@[j]]
                        0 <= i2 < j < best@.len() implies !same_key(best@[i2]@, best@[j]@) by {
                        if j == last {
                            assert(!same_key(old_best[i2]@, rv));
                            assert(!same_key(old_best[i2]@, best@[j]@));
                        } else {
                            assert(!same_key(old_best[i2]@, old_best[j]@));
                        }
                    }
                }
            },
        }
        n = n + 1;
    }
    proof {
        let iv = views_of(results@);
        let bv = views_of(best@);
        assert(forall|k: int| 0 <= k < iv.len() ==> #[trigger] iv[k] == results@[k]@);
        assert(forall|i: int| 0 <= i < bv.len() ==> #[trigger] bv[i] == best@[i]@);
        assert forall|i: int| 0 <= i < best@.len() implies iv.contains(
            (#[trigger] best@[i])@,
        ) by {
            assert(iv[src[i]] == best@[i]@);
        }
        assert forall|r: MatchView| iv.contains(r) implies #[trigger] has_key_in(bv, r) by {
            let k = choose|k: int| 0 <= k < iv.len() && iv[k] == r;
            assert(same_key(best@[rep[k]]@, results@[k]@));
            assert(same_key(bv[rep[k]], r));
        }
        assert forall|i: int, r: MatchView|
            #![trigger bv[i], iv.contains(r)]
            0 <= i < best@.len() && iv.contains(r) && same_key(bv[i], r) implies rank_le(
            bv[i], r) by {
            let k = choose|k: int| 0 <= k < iv.len() && iv[k] == r;
            assert(same_key(best@[i]@, results@[k]@));
            assert(rank_le(best@[i]@, results@[k]@));
        }
    }
    best
}

/// Second pass: sort by key. Keys are distinct, so the order is strict.
#[verifier::rlimit(60)]
fn sort_by_key(v: Vec<ResultNode>) -> (out: Vec<ResultNode>)
    requires
        forall|i: int| 0 <= i < v@.len() ==> (#[trigger] v@[i]).wf(),
        distinct_keys(views_of(v@)),
    ensures
        forall|i: int| 0 <= i < out@.len() ==> (#[trigger] out@[i]).wf(),
        views_of(out@).to_multiset() == views_of(v@).to_multiset(),
        sorted_strictly_by_key(views_of(out@)),
{
    let mut out: Vec<ResultNode> = Vec::new();
    let mut n: usize = 0;
    proof {
        assert(views_of(out@) =~= views_of(v@.take(0)));
    }
    while n < v.len()
        invariant
            n <= v@.len(),
            forall|i: int| 0 <= i < v@.len() ==> (#[trigger] v@[i]).wf(),
            distinct_keys(views_of(v@)),
            forall|i: int| 0 <= i < out@.len() ==> (#[trigger] out@[i]).wf(),
            views_of(out@).to_multiset() == views_of(v@.take(n as int)).to_multiset(),
            sorted_strictly_by_key(views_of(out@)),
        decreases v@.len() - n,
    {
        let node = v[n].duplicate();
        let ghost prev = views_of(v@.take(n as int));
        let ghost ov = views_of(out@);
        proof {
            broadcast use vstd::seq_lib::group_to_multiset_ensures,
                vstd::multiset::group_multiset_axioms;

            assert(v@.take(n as int + 1) =~= v@.take(n as int).push(v@[n as int]));
            assert(views_of(v@.take(n as int + 1)) =~= prev.push(node@));
            // the incoming record's key is new to `out`
            assert forall|k: int| 0 <= k < ov.len() implies !same_key(ov[k], node@) by {
                assert(ov.contains(ov[k]));
                assert(ov.to_multiset().count(ov[k]) > 0);
                assert(prev.to_multiset().count(ov[k]) > 0);
                assert(prev.contains(ov[k]));
                let j = choose|j: int| 0 <= j < prev.len() && prev[j] == ov[k];
                assert(views_of(v@)[j] == ov[k]);
                assert(views_of(v@)[n as int] == node@);
            }
        }
        let mut j: usize = 0;
        while j < out.len() && node_key_lt(&out[j], &node)
            invariant
                j <= out@.len(),
                forall|k: int| 0 <= k < j ==> key_lt(views_of(out@)[k], node@),
            decreases out@.len() - j,
        {
            j = j + 1;
        }
        proof {
            assert forall|k: int| j <= k < ov.len() implies key_lt(node@, ov[k]) by {
                lemma_key_lt_trichotomy(ov[j as int], node@);
                assert(key_lt(node@, ov[j as int]));
                if k > j {
                    lemma_key_lt_transitive(node@, ov[j as int], ov[k]);
                }
            }
        }
        let ghost old_out = out@;
        out.insert(j, node);
        proof {
            broadcast use vstd::seq_lib::group_to_multiset_ensures,
                vstd::multiset::group_multiset_axioms;

            let nv = views_of(out@);
            assert(nv =~= ov.insert(j as int, node@));
            assert(nv.to_multiset() == ov.to_multiset().insert(node@));
            assert(prev.push(node@).to_multiset() == prev.to_multiset().insert(node@));
            assert(nv.to_multiset() == views_of(v@.take(n as int + 1)).to_multiset());
            assert(sorted_strictly_by_key(nv)) by {
                assert forall|p: int, q: int| 0 <= p < q < nv.len() implies key_lt(nv[p], nv[
                q]) by {
                    if q < j {
                        assert(nv[p] == ov[p] && nv[q] == ov[q]);
                    } else if p > j {
                        assert(nv[p] == ov[p - 1] && nv[q] == ov[q - 1]);
                    } else if p == j {
                        assert(nv[p] == node@ && nv[q] == ov[q - 1]);
                    } else if q == j {
                        assert(nv[p] == ov[p] && nv[q] == node@);
                    } else {
                        assert(p < j && q > j);
                        assert(nv[p] == ov[p] && nv[q] == ov[q - 1]);
                        assert(key_lt(nv[p], node@) && key_lt(node@, nv[q]));
                        lemma_key_lt_transitive(ov[p], node@, ov[q - 1]);
                    }
                }
            }
        }
        n = n + 1;
    }
    proof {
        assert(v@.take(v@.len() as int) =~= v@);
    }
    out
}

/// Collapse raw matches to one canonical record per `(file, line)` key.
///
/// The output contains exactly one record for each key occurring in
/// `results`, the record of minimal `(line, span length, start character,
/// end character)` rank in its group, and is sorted by key — so it depends
/// only on the multiset of well-formed input records, not on their order.
#[verifier::rlimit(60)]
pub fn deduplicate_results(results: &Vec<ResultNode>) -> (out: Vec<ResultNode>)
    requires
        forall|i: int| 0 <= i < results@.len() ==> (#[trigger] results@[i]).wf(),
    ensures
        forall|i: int| 0 <= i < out@.len() ==> (#[trigger] out@[i]).wf(),
        dedup_post(views_of(results@), views_of(out@)),
{
    let best = select_best(results);
    let out = sort_by_key(best);
    proof {
        broadcast use vstd::seq_lib::group_to_multiset_ensures,
            vstd::multiset::group_multiset_axioms;

        let iv = views_of(results@);
        let bv = views_of(best@);
        let ov = views_of(out@);
        assert(forall|k: int| 0 <= k < results@.len() ==> #[trigger] iv[k] == results@[k]@);
        assert(forall|j: int| 0 <= j < best@.len() ==> #[trigger] bv[j] == best@[j]@);
        assert(forall|i: int| 0 <= i < out@.len() ==> #[trigger] ov[i] == out@[i]@);
        // the sort is a permutation, so membership transfers both ways
        assert forall|x: MatchView| #[trigger] bv.contains(x) implies ov.contains(x) by {
            assert(bv.to_multiset().count(x) > 0);
            assert(ov.to_multiset().count(x) > 0);
        }
        assert forall|x: MatchView| #[trigger] ov.contains(x) implies bv.contains(x) by {
            assert(ov.to_multiset().count(x) > 0);
            assert(bv.to_multiset().count(x) > 0);
        }
        assert forall|i: int| 0 <= i < ov.len() implies iv.contains(#[trigger] ov[i]) by {
            assert(ov.contains(ov[i]));
            let j = choose|j: int| 0 <= j < bv.len() && bv[j] == ov[i];
            assert(iv.contains(best@[j]@));
        }
        assert forall|r: MatchView| iv.contains(r) implies #[trigger] has_key_in(ov, r) by {
            assert(has_key_in(bv, r));
            let j = choose|j: int| 0 <= j < bv.len() && same_key(bv[j], r);
            assert(bv.contains(bv[j]));
            assert(ov.contains(bv[j]));
            let i = choose|i: int| 0 <= i < ov.len() && ov[i] == bv[j];
            assert(same_key(ov[i], r));
        }
        assert forall|i: int, r: MatchView|
            #![trigger same_key(ov[i], r)]
            0 <= i < ov.len() && iv.contains(r) && same_key(ov[i], r) implies rank_le(ov[i], r) by {
            assert(ov.contains(ov[i]));
            let j = choose|j: int| 0 <= j < bv.len() && bv[j] == ov[i];
            assert(same_key(bv[j], r));
            assert(rank_le(bv[j], r));
        }
    }
    out
}

} // verus!
