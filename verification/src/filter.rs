use vstd::prelude::*;
use crate::summary::CrateSummary;
use crate::text::{lowercase, occurs, occurs_in, split_words, to_lowercase, words};

verus! {

/// A crate matches a list of filter words when every word occurs in the
/// lower-cased name or in the lower-cased description (the empty text where
/// there is none). The words themselves are not lower-cased.
pub open spec fn crate_matches(c: CrateSummary, ws: Seq<Seq<char>>) -> bool {
    forall|k: int|
        0 <= k < ws.len() ==> occurs_in(#[trigger] ws[k], lowercase(c.name@)) || occurs_in(
            ws[k],
            lowercase(c.description_text()),
        )
}

/// The crates, in their order, that match every word of `filter`.
pub open spec fn filtered(crates: Seq<CrateSummary>, filter: Seq<char>) -> Seq<CrateSummary> {
    crates.filter(|c: CrateSummary| crate_matches(c, words(filter)))
}

/// Decides whether every word of `ws` occurs in `name_lower` or in
/// `desc_lower`, the lower-cased name and description of a crate.
pub fn matches_lowered(name_lower: &str, desc_lower: &str, ws: &Vec<String>) -> (r: bool)
    ensures
        r == (forall|k: int|
            0 <= k < ws@.len() ==> occurs_in(#[trigger] ws@[k]@, name_lower@) || occurs_in(
                ws@[k]@,
                desc_lower@,
            )),
{
    let mut k: usize = 0;
    while k < ws.len()
        invariant
            k <= ws.len(),
            forall|m: int|
                0 <= m < k ==> occurs_in(#[trigger] ws@[m]@, name_lower@) || occurs_in(
                    ws@[m]@,
                    desc_lower@,
                ),
        decreases ws.len() - k,
    {
        let w = &ws[k];
        if !(occurs(w.as_str(), name_lower) || occurs(w.as_str(), desc_lower)) {
            return false;
        }
        k = k + 1;
    }
    true
}

/// Decides whether `c` matches every word of `ws`.
pub fn matches_words(c: &CrateSummary, ws: &Vec<String>) -> (r: bool)
    ensures
        r == crate_matches(*c, ws@.map_values(|w: String| w@)),
{
    let name = to_lowercase(c.name.as_str());
    let desc = to_lowercase(c.description_or_empty().as_str());
    let r = matches_lowered(name.as_str(), desc.as_str(), ws);
    proof {
        let wv = ws@.map_values(|w: String| w@);
        if r {
            assert forall|k: int| 0 <= k < wv.len() implies occurs_in(#[trigger] wv[k], lowercase(c.name@)) || occurs_in(
                wv[k],
                lowercase(c.description_text()),
            ) by {
                assert(wv[k] == ws@[k]@);
            }
        } else {
            let k = choose|k: int| 0 <= k < ws@.len() && !(occurs_in(#[trigger] ws@[k]@, name@) || occurs_in(ws@[k]@, desc@));
            assert(wv[k] == ws@[k]@);
        }
    }
    r
}

/// Keeps the crates that match every word of `filter`, in their order.
pub fn filter_crates(crates: &Vec<CrateSummary>, filter: &str) -> (r: Vec<CrateSummary>)
    ensures
        r@ == filtered(crates@, filter@),
{
    let ws = split_words(filter);
    let ghost pred = |c: CrateSummary| crate_matches(c, words(filter@));
    let mut out: Vec<CrateSummary> = Vec::new();
    let mut i: usize = 0;
    while i < crates.len()
        invariant
            i <= crates.len(),
            ws@.map_values(|w: String| w@) == words(filter@),
            pred == (|c: CrateSummary| crate_matches(c, words(filter@))),
            out@ == crates@.take(i as int).filter(pred),
        decreases crates.len() - i,
    {
        let c = &crates[i];
        proof {
            assert(crates@.take(i + 1) =~= crates@.take(i as int).push(*c));
            crates@.take(i as int).lemma_filter_push(*c, pred);
        }
        if matches_words(c, &ws) {
            out.push(c.duplicate());
        }
        i = i + 1;
    }
    proof {
        assert(crates@.take(crates.len() as int) =~= crates@);
    }
    out
}

} // verus!
