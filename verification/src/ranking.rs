use vstd::prelude::*;
use crate::user_data::ChartInfoResponse;

verus! {

/// The one ordering the engine ranks by: an earlier place goes to the record
/// with the strictly greater rating contribution, and a tie between equal
/// contributions goes to the record that appeared first in the input. No
/// other field takes part.
pub open spec fn precedes(s: Seq<ChartInfoResponse>, i: int, j: int) -> bool {
    s[i].ra > s[j].ra || (s[i].ra == s[j].ra && i < j)
}

/// Places index `k` into an index sequence that is already ranked: after
/// every index whose record rates at least as high, before every index whose
/// record rates lower.
pub open spec fn insert_idx(ord: Seq<int>, k: int, s: Seq<ChartInfoResponse>) -> Seq<int>
    decreases ord.len(),
{
    if ord.len() == 0 {
        seq![k]
    } else if s[ord.last()].ra >= s[k].ra {
        ord.push(k)
    } else {
        insert_idx(ord.drop_last(), k, s).push(ord.last())
    }
}

/// The ranked order of the first `m` input positions.
pub open spec fn rank_upto(s: Seq<ChartInfoResponse>, m: int) -> Seq<int>
    decreases m,
{
    if m <= 0 {
        Seq::empty()
    } else {
        insert_idx(rank_upto(s, m - 1), m - 1, s)
    }
}

/// The ranked order of all input positions.
pub open spec fn ranked_indices(s: Seq<ChartInfoResponse>) -> Seq<int> {
    rank_upto(s, s.len() as int)
}

/// The input records, reordered into ranked order.
pub open spec fn ranked_records(s: Seq<ChartInfoResponse>) -> Seq<ChartInfoResponse> {
    Seq::new(s.len(), |t: int| s[ranked_indices(s)[t]])
}

/// What `select_top` returns: the ranked order, cut to the `n` best records.
pub open spec fn spec_select_top(s: Seq<ChartInfoResponse>, n: int) -> Seq<ChartInfoResponse> {
    if n >= s.len() {
        ranked_records(s)
    } else {
        ranked_records(s).take(n)
    }
}

proof fn lemma_insert_at(ord: Seq<int>, k: int, s: Seq<ChartInfoResponse>, p: int)
    requires
        0 <= p <= ord.len(),
        forall|t: int| p <= t < ord.len() ==> s[#[trigger] ord[t]].ra < s[k].ra,
        p > 0 ==> s[ord[p - 1]].ra >= s[k].ra,
    ensures
        insert_idx(ord, k, s) == ord.take(p) + seq![k] + ord.skip(p),
    decreases ord.len(),
{
    if ord.len() == 0 {
        assert(insert_idx(ord, k, s) =~= ord.take(p) + seq![k] + ord.skip(p));
    } else if p == ord.len() {
        assert(s[ord.last()].ra >= s[k].ra);
        assert(insert_idx(ord, k, s) =~= ord.take(p) + seq![k] + ord.skip(p));
    } else {
        assert(s[ord.last()].ra < s[k].ra);
        let head = ord.drop_last();
        assert forall|t: int| p <= t < head.len() implies s[#[trigger] head[t]].ra < s[k].ra by {
            assert(head[t] == ord[t]);
        }
        if p > 0 {
            assert(head[p - 1] == ord[p - 1]);
        }
        lemma_insert_at(head, k, s, p);
        assert(insert_idx(ord, k, s) == (head.take(p) + seq![k] + head.skip(p)).push(ord.last()));
        assert((head.take(p) + seq![k] + head.skip(p)).push(ord.last()) =~= ord.take(p) + seq![k]
            + ord.skip(p));
    }
}

proof fn lemma_insert_props(ord: Seq<int>, k: int, s: Seq<ChartInfoResponse>)
    requires
        0 <= k,
        forall|a: int, b: int|
            0 <= a < b < ord.len() ==> precedes(s, #[trigger] ord[a], #[trigger] ord[b]),
        forall|t: int| 0 <= t < ord.len() ==> 0 <= #[trigger] ord[t] < k,
    ensures
        insert_idx(ord, k, s).len() == ord.len() + 1,
        forall|t: int|
            0 <= t < ord.len() + 1 ==> 0 <= #[trigger] insert_idx(ord, k, s)[t] <= k,
        forall|x: int|
            #![trigger insert_idx(ord, k, s).contains(x)]
            #![trigger ord.contains(x)]
            insert_idx(ord, k, s).contains(x) <==> (ord.contains(x) || x == k),
        forall|a: int, b: int|
            0 <= a < b < ord.len() + 1 ==> precedes(
                s,
                #[trigger] insert_idx(ord, k, s)[a],
                #[trigger] insert_idx(ord, k, s)[b],
            ),
    decreases ord.len(),
{
    let r = insert_idx(ord, k, s);
    assert(r == insert_idx(ord, k, s));
    if ord.len() == 0 {
        assert forall|t: int| 0 <= t < r.len() implies 0 <= #[trigger] r[t] <= k by {
            assert(r[0] == k);
        }
        assert forall|x: int|
            #![trigger r.contains(x)]
            #![trigger ord.contains(x)]
            r.contains(x) <==> (ord.contains(x) || x == k) by {
            if x == k {
                assert(r[0] == k);
            }
            if ord.contains(x) {
                let t = choose|t: int| 0 <= t < ord.len() && ord[t] == x;
            }
        }
    } else if s[ord.last()].ra >= s[k].ra {
        assert(r == ord.push(k));
        assert forall|t: int| 0 <= t < r.len() implies 0 <= #[trigger] r[t] <= k by {
            if t < ord.len() {
                assert(r[t] == ord[t]);
            } else {
                assert(r[t] == k);
            }
        }
        assert forall|x: int|
            #![trigger r.contains(x)]
            #![trigger ord.contains(x)]
            r.contains(x) <==> (ord.contains(x) || x == k) by {
            if r.contains(x) {
                let t = choose|t: int| 0 <= t < r.len() && r[t] == x;
                if t < ord.len() {
                    assert(ord[t] == x);
                } else {
                    assert(x == k);
                }
            }
            if ord.contains(x) {
                let t = choose|t: int| 0 <= t < ord.len() && ord[t] == x;
                assert(r[t] == x);
            }
            if x == k {
                assert(r[ord.len() as int] == k);
            }
        }
        assert forall|a: int, b: int| 0 <= a < b < r.len() implies precedes(
            s,
            #[trigger] r[a],
            #[trigger] r[b],
        ) by {
            if b == ord.len() {
                if a < ord.len() - 1 {
                    assert(precedes(s, ord[a], ord[ord.len() - 1]));
                }
                assert(s[ord[a]].ra >= s[ord.last()].ra);
                assert(precedes(s, ord[a], k));
            }
        }
    } else {
        let head = ord.drop_last();
        let last = ord.last();
        assert forall|a: int, b: int| 0 <= a < b < head.len() implies precedes(
            s,
            #[trigger] head[a],
            #[trigger] head[b],
        ) by {
            assert(head[a] == ord[a] && head[b] == ord[b]);
        }
        assert forall|t: int| 0 <= t < head.len() implies 0 <= #[trigger] head[t] < k by {
            assert(head[t] == ord[t]);
        }
        lemma_insert_props(head, k, s);
        let hr = insert_idx(head, k, s);
        assert(r == hr.push(last));
        assert forall|t: int| 0 <= t < r.len() implies 0 <= #[trigger] r[t] <= k by {
            if t < hr.len() {
                assert(r[t] == hr[t]);
                assert(0 <= insert_idx(head, k, s)[t] <= k);
            } else {
                assert(r[t] == last);
                assert(0 <= ord[ord.len() - 1] < k);
            }
        }
        assert forall|x: int|
            #![trigger r.contains(x)]
            #![trigger ord.contains(x)]
            r.contains(x) <==> (ord.contains(x) || x == k) by {
            if r.contains(x) {
                let t = choose|t: int| 0 <= t < r.len() && r[t] == x;
                if t < hr.len() {
                    assert(hr[t] == x);
                    assert(hr.contains(x));
                    assert(hr.contains(x) <==> (head.contains(x) || x == k));
                    if head.contains(x) {
                        let u = choose|u: int| 0 <= u < head.len() && head[u] == x;
                        assert(ord[u] == x);
                    }
                } else {
                    assert(x == last);
                    assert(ord[ord.len() - 1] == last);
                }
            }
            if ord.contains(x) {
                let t = choose|t: int| 0 <= t < ord.len() && ord[t] == x;
                if t < ord.len() - 1 {
                    assert(head[t] == x);
                    assert(head.contains(x));
                    assert(hr.contains(x) <==> (head.contains(x) || x == k));
                    let u = choose|u: int| 0 <= u < hr.len() && hr[u] == x;
                    assert(r[u] == x);
                } else {
                    assert(r[r.len() - 1] == x);
                }
            }
            if x == k {
                assert(hr.contains(k) <==> (head.contains(k) || k == k));
                assert(hr.contains(k));
                let u = choose|u: int| 0 <= u < hr.len() && hr[u] == k;
                assert(r[u] == k);
            }
        }
        assert forall|a: int, b: int| 0 <= a < b < r.len() implies precedes(
            s,
            #[trigger] r[a],
            #[trigger] r[b],
        ) by {
            if b < hr.len() {
                assert(precedes(s, hr[a], hr[b]));
            } else {
                assert(r[b] == last);
                assert(hr.contains(hr[a]));
                assert(hr.contains(hr[a]) <==> (head.contains(hr[a]) || hr[a] == k));
                if head.contains(hr[a]) {
                    let u = choose|u: int| 0 <= u < head.len() && head[u] == hr[a];
                    assert(ord[u] == hr[a]);
                    assert(precedes(s, ord[u], ord[ord.len() - 1]));
                } else {
                    assert(hr[a] == k);
                    assert(s[k].ra > s[last].ra);
                }
            }
        }
    }
}

/// The ranked order of the first `m` positions is a ranking of exactly those
/// positions: it holds each of them once, and an earlier place in it always
/// precedes a later one under the ranking order.
pub proof fn lemma_rank_upto_props(s: Seq<ChartInfoResponse>, m: int)
    requires
        0 <= m,
    ensures
        rank_upto(s, m).len() == m,
        forall|t: int| 0 <= t < m ==> 0 <= #[trigger] rank_upto(s, m)[t] < m,
        forall|x: int| rank_upto(s, m).contains(x) <==> 0 <= x < m,
        forall|a: int, b: int|
            0 <= a < b < m ==> precedes(
                s,
                #[trigger] rank_upto(s, m)[a],
                #[trigger] rank_upto(s, m)[b],
            ),
    decreases m,
{
    if m == 0 {
        assert forall|x: int| !rank_upto(s, m).contains(x) by {
            if rank_upto(s, m).contains(x) {
                let t = choose|t: int| 0 <= t < rank_upto(s, m).len() && rank_upto(s, m)[t] == x;
            }
        }
    } else {
        lemma_rank_upto_props(s, m - 1);
        let ord = rank_upto(s, m - 1);
        lemma_insert_props(ord, m - 1, s);
        let r = insert_idx(ord, m - 1, s);
        assert(rank_upto(s, m) == r);
        assert forall|t: int| 0 <= t < m implies 0 <= #[trigger] rank_upto(s, m)[t] < m by {
            assert(0 <= r[t] <= m - 1);
        }
        assert forall|x: int| rank_upto(s, m).contains(x) <==> 0 <= x < m by {
            assert(r.contains(x) <==> (ord.contains(x) || x == m - 1));
            assert(ord.contains(x) <==> 0 <= x < m - 1);
        }
    }
}

/// Two places in the ranked output: the earlier one holds the record that
/// precedes under the ranking order, and only it. Stated over the index
/// sequence that `ranked_records` reads its records through.
pub proof fn lemma_ranking_order(s: Seq<ChartInfoResponse>, i: int, j: int)
    requires
        0 <= i < s.len(),
        0 <= j < s.len(),
        i != j,
    ensures
        (i < j) <==> precedes(s, ranked_indices(s)[i], ranked_indices(s)[j]),
        ranked_records(s)[i] == s[ranked_indices(s)[i]],
{
    lemma_rank_upto_props(s, s.len() as int);
    if i < j {
        assert(precedes(s, ranked_indices(s)[i], ranked_indices(s)[j]));
    } else {
        assert(precedes(s, ranked_indices(s)[j], ranked_indices(s)[i]));
    }
}

/// Selecting at least as many records as the input holds returns every
/// record, in ranked order: the output has the input's length and every
/// input position appears in the ranked index sequence.
pub proof fn lemma_select_top_complete(s: Seq<ChartInfoResponse>, n: int)
    requires
        n >= s.len(),
    ensures
        spec_select_top(s, n) == ranked_records(s),
        ranked_records(s).len() == s.len(),
{
    lemma_rank_upto_props(s, s.len() as int);
}

/// Every input position appears in the ranked order, so nothing the service
/// sent is dropped by ranking itself: the record at input position `idx`
/// stands somewhere in the ranked output.
pub proof fn lemma_ranked_surjective(s: Seq<ChartInfoResponse>, idx: int)
    requires
        0 <= idx < s.len(),
    ensures
        exists|t: int|
            0 <= t < s.len() && #[trigger] ranked_indices(s)[t] == idx && ranked_records(s)[t]
                == s[idx],
{
    lemma_rank_upto_props(s, s.len() as int);
    assert(ranked_indices(s).contains(idx));
    let t = choose|t: int| 0 <= t < ranked_indices(s).len() && ranked_indices(s)[t] == idx;
    assert(0 <= t < s.len());
    assert(ranked_indices(s)[t] == idx);
    assert(ranked_records(s)[t] == s[idx]);
}

/// Selecting zero records returns the empty sequence, not a failure.
pub proof fn lemma_select_top_zero(s: Seq<ChartInfoResponse>)
    ensures
        spec_select_top(s, 0) == Seq::<ChartInfoResponse>::empty(),
{
    lemma_rank_upto_props(s, s.len() as int);
    assert(spec_select_top(s, 0) =~= Seq::<ChartInfoResponse>::empty());
}

/// Orders a record collection by rating contribution, descending, ties kept
/// in input order, and returns at most the `n` best records.
pub fn select_top(records: Vec<ChartInfoResponse>, n: usize) -> (r: Vec<ChartInfoResponse>)
    ensures
        r@ == spec_select_top(records@, n as int),
        r@.len() == if n as int <= records@.len() {
            n as int
        } else {
            records@.len() as int
        },
{
    let ghost s = records@;
    let total = records.len();
    let mut rest = records;
    let mut out: Vec<ChartInfoResponse> = Vec::new();
    let ghost mut ord: Seq<int> = Seq::empty();
    let mut i: usize = 0;
    while i < total
        invariant
            i <= total,
            total == s.len(),
            rest@ == s.skip(i as int),
            ord == rank_upto(s, i as int),
            ord.len() == i,
            out@.len() == i,
            forall|t: int| 0 <= t < i ==> out@[t] == s[#[trigger] ord[t]],
        decreases total - i,
    {
        let x = rest.remove(0);
        proof {
            assert(x == s.skip(i as int)[0]);
            assert(x == s[i as int]);
            assert(rest@ =~= s.skip(i as int + 1));
        }
        let mut p: usize = out.len();
        while p > 0 && out[p - 1].ra < x.ra
            invariant
                p <= out@.len(),
                out@.len() == i,
                ord.len() == i,
                total == s.len(),
                i < total,
                x == s[i as int],
                forall|t: int| 0 <= t < i ==> out@[t] == s[#[trigger] ord[t]],
                forall|t: int| p <= t < i ==> s[#[trigger] ord[t]].ra < x.ra,
            decreases p,
        {
            p = p - 1;
        }
        out.insert(p, x);
        proof {
            assert(p > 0 ==> s[ord[p - 1]].ra >= s[i as int].ra);
            lemma_insert_at(ord, i as int, s, p as int);
            let prev = ord;
            ord = insert_idx(ord, i as int, s);
            assert(ord == rank_upto(s, i as int + 1));
            assert(ord =~= prev.take(p as int) + seq![i as int] + prev.skip(p as int));
            assert forall|t: int| 0 <= t < i + 1 implies out@[t] == s[#[trigger] ord[t]] by {
                if t < p {
                    assert(ord[t] == prev[t]);
                    assert(out@[t] == out@.subrange(0, p as int)[t]);
                } else if t == p {
                    assert(ord[t] == i as int);
                } else {
                    assert(ord[t] == prev[t - 1]);
                }
            }
        }
        i = i + 1;
    }
    proof {
        lemma_rank_upto_props(s, s.len() as int);
        assert(out@ =~= ranked_records(s));
    }
    if n < out.len() {
        out.truncate(n);
        proof {
            assert(out@ =~= ranked_records(s).take(n as int));
        }
    }
    out
}

} // verus!
