use vstd::prelude::*;
use crate::summary::CrateSummary;

verus! {

/// The predicate "has exactly `d` downloads".
pub open spec fn with_downloads(d: u64) -> spec_fn(CrateSummary) -> bool {
    |c: CrateSummary| c.downloads == d
}

/// No crate is followed by one with more downloads.
pub open spec fn downloads_non_increasing(s: Seq<CrateSummary>) -> bool {
    forall|i: int, j: int| 0 <= i < j < s.len() ==> s[i].downloads >= s[j].downloads
}

/// `r` holds, for every download count, the crates of `s` with that count in
/// the order in which `s` holds them: `r` is `s` rearranged, and crates with
/// equal download counts keep their relative order.
pub open spec fn same_runs_per_count(r: Seq<CrateSummary>, s: Seq<CrateSummary>) -> bool {
    forall|d: u64| #[trigger] r.filter(with_downloads(d)) == s.filter(with_downloads(d))
}

proof fn lemma_filter_none(s: Seq<CrateSummary>, q: spec_fn(CrateSummary) -> bool)
    requires
        forall|k: int| 0 <= k < s.len() ==> !q(#[trigger] s[k]),
    ensures
        s.filter(q) == Seq::<CrateSummary>::empty(),
{
    assert(s.all(|x: CrateSummary| !q(x)));
    s.lemma_all_neg_filter_empty(q);
    assert(s.filter(q) =~= Seq::<CrateSummary>::empty());
}

proof fn lemma_insert_keeps_runs(
    out: Seq<CrateSummary>,
    p: int,
    x: CrateSummary,
    d: u64,
)
    requires
        0 <= p <= out.len(),
        forall|k: int| p <= k < out.len() ==> #[trigger] out[k].downloads < x.downloads,
    ensures
        out.insert(p, x).filter(with_downloads(d)) == if x.downloads == d {
            out.filter(with_downloads(d)).push(x)
        } else {
            out.filter(with_downloads(d))
        },
{
    let q = with_downloads(d);
    let a = out.take(p);
    let b = out.skip(p);
    assert(out =~= a + b);
    assert(out.insert(p, x) =~= a + (seq![x] + b));
    Seq::filter_distributes_over_add(a, b, q);
    Seq::filter_distributes_over_add(a, seq![x] + b, q);
    Seq::filter_distributes_over_add(seq![x], b, q);
    assert(seq![x] =~= Seq::<CrateSummary>::empty().push(x));
    Seq::<CrateSummary>::empty().lemma_filter_push(x, q);
    assert(Seq::<CrateSummary>::empty().filter(q) =~= Seq::<CrateSummary>::empty()) by {
        reveal(Seq::filter);
    }
    if x.downloads == d {
        lemma_filter_none(b, q);
        assert(a.filter(q) + (seq![x] + b.filter(q)) =~= (a.filter(q) + b.filter(q)).push(x));
    } else {
        assert(a.filter(q) + (seq![x].filter(q) + b.filter(q)) =~= a.filter(q) + b.filter(q));
    }
}

/// Orders crates by download count, most downloaded first; crates with equal
/// counts keep their relative order (a stable sort).
pub fn sort_by_downloads_desc(v: Vec<CrateSummary>) -> (r: Vec<CrateSummary>)
    ensures
        r@.len() == v@.len(),
        downloads_non_increasing(r@),
        same_runs_per_count(r@, v@),
{
    let mut out: Vec<CrateSummary> = Vec::new();
    let mut i: usize = 0;
    while i < v.len()
        invariant
            i <= v.len(),
            out@.len() == i,
            downloads_non_increasing(out@),
            forall|d: u64| #[trigger]
                out@.filter(with_downloads(d)) == v@.take(i as int).filter(with_downloads(d)),
        decreases v.len() - i,
    {
        let x = v[i].duplicate();
        let mut p: usize = 0;
        while p < out.len() && out[p].downloads >= x.downloads
            invariant
                p <= out.len(),
                forall|k: int| 0 <= k < p ==> #[trigger] out@[k].downloads >= x.downloads,
            decreases out.len() - p,
        {
            p = p + 1;
        }
        let ghost old_out = out@;
        proof {
            assert forall|k: int| p <= k < old_out.len() implies #[trigger] old_out[k].downloads
                < x.downloads by {
                if p < old_out.len() {
                    assert(old_out[p as int].downloads < x.downloads);
                    if k > p {
                        assert(old_out[p as int].downloads >= old_out[k].downloads);
                    }
                }
            }
            assert forall|d: u64| #[trigger]
                old_out.insert(p as int, x).filter(with_downloads(d)) == v@.take(i + 1).filter(
                    with_downloads(d),
                ) by {
                lemma_insert_keeps_runs(old_out, p as int, x, d);
                assert(v@.take(i + 1) =~= v@.take(i as int).push(x));
                v@.take(i as int).lemma_filter_push(x, with_downloads(d));
            }
        }
        out.insert(p, x);
        proof {
            assert forall|a: int, b: int| 0 <= a < b < out@.len() implies out@[a].downloads
                >= out@[b].downloads by {
                if a < p && b < p {
                    assert(out@[a] == old_out[a] && out@[b] == old_out[b]);
                } else if a < p && b == p {
                } else if a < p {
                    assert(out@[a] == old_out[a] && out@[b] == old_out[b - 1]);
                } else if a == p {
                    assert(out@[b] == old_out[b - 1]);
                } else {
                    assert(out@[a] == old_out[a - 1] && out@[b] == old_out[b - 1]);
                }
            }
        }
        i = i + 1;
    }
    proof {
        assert(v@.take(v.len() as int) =~= v@);
    }
    out
}

} // verus!
