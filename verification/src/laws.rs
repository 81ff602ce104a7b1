//! Laws of the whole pipeline, stated over the same spec functions the
//! executable functions' contracts use: mapping, enrichment and assembly
//! composed on one primary reply and one advisory outcome per item.

use vstd::prelude::*;

use crate::enrich::AdvisoryOutcome;
use crate::enrich::collapsed_count;
use crate::enrich::with_advisories;
use crate::sbom::HitModel;
use crate::sbom::SummaryModel;
use crate::normalize::self_link;
use crate::sbom::spec_map_hit;

verus! {

/// The page of summaries the pipeline owes once each hit's advisory
/// outcome is known: the hits mapped in order, each with its own
/// outcome's collapsed count written in.
pub open spec fn spec_enriched_page(hits: Seq<HitModel>, outcomes: Seq<AdvisoryOutcome>) -> Seq<
    SummaryModel,
> {
    Seq::new(hits.len(), |i: int| with_advisories(spec_map_hit(hits[i]), collapsed_count(outcomes[i])))
}

/// How many summaries a page for `(total, offset, limit)` holds: all the
/// matches remaining past the offset, capped by the limit.
pub open spec fn page_len(total: int, offset: int, limit: int) -> int {
    if total <= offset {
        0
    } else if total - offset <= limit {
        total - offset
    } else {
        limit
    }
}

/// When the primary backend returns its owed page — min(remaining, limit)
/// hits — the enriched page has exactly that many summaries, whatever
/// each advisory outcome was. Together with `search::assemble`, whose
/// callers pass the primary total through unchanged, this pins the
/// response envelope independently of enrichment.
pub proof fn lemma_page_count_preserved(
    total: u64,
    offset: usize,
    limit: usize,
    hits: Seq<HitModel>,
    outcomes: Seq<AdvisoryOutcome>,
)
    requires
        hits.len() == page_len(total as int, offset as int, limit as int),
        outcomes.len() == hits.len(),
    ensures
        spec_enriched_page(hits, outcomes).len() == page_len(
            total as int,
            offset as int,
            limit as int,
        ),
{
}

/// When every advisory lookup failed or could not be derived, every
/// summary is exactly the mapped primary hit — advisory count absent —
/// and the page itself is untouched: enrichment failure never reshapes
/// the primary result.
pub proof fn lemma_enrichment_failure_isolated(
    hits: Seq<HitModel>,
    outcomes: Seq<AdvisoryOutcome>,
)
    requires
        outcomes.len() == hits.len(),
        forall|i: int| 0 <= i < outcomes.len() ==> collapsed_count(#[trigger] outcomes[i]) is None,
    ensures
        spec_enriched_page(hits, outcomes).len() == hits.len(),
        forall|i: int| 0 <= i < hits.len() ==> spec_enriched_page(hits, outcomes)[i]
            == spec_map_hit(#[trigger] hits[i]),
{
    assert forall|i: int| 0 <= i < hits.len() implies spec_enriched_page(hits, outcomes)[i]
        == spec_map_hit(#[trigger] hits[i]) by {
        assert(collapsed_count(outcomes[i]) is None);
        assert(with_advisories(spec_map_hit(hits[i]), None) =~= spec_map_hit(hits[i]));
    }
}

/// Each item's advisory count is its own lookup's collapsed result and
/// nothing else: item `i` of the enriched page is the mapped hit `i` with
/// outcome `i` written in, untouched by any other item's success or
/// failure.
pub proof fn lemma_per_item_independence(
    hits: Seq<HitModel>,
    outcomes: Seq<AdvisoryOutcome>,
    i: int,
)
    requires
        outcomes.len() == hits.len(),
        0 <= i < hits.len(),
    ensures
        spec_enriched_page(hits, outcomes)[i] == with_advisories(
            spec_map_hit(hits[i]),
            collapsed_count(outcomes[i]),
        ),
        spec_enriched_page(hits, outcomes)[i].advisories == collapsed_count(outcomes[i]),
        spec_enriched_page(hits, outcomes)[i].href == self_link(hits[i].document.id),
{
}

/// Every mapped summary's self link is exactly the SBOM retrieval path
/// for its own document id, whatever the rest of the document holds.
pub proof fn lemma_self_link_exact(h: HitModel)
    ensures
        spec_map_hit(h).href == self_link(h.document.id),
{
}

/// The response is a function of the backend replies alone: two requests
/// answered with the same primary page and the same advisory outcomes
/// yield the same summaries, in the same order.
pub proof fn lemma_idempotent(
    hits1: Seq<HitModel>,
    outcomes1: Seq<AdvisoryOutcome>,
    hits2: Seq<HitModel>,
    outcomes2: Seq<AdvisoryOutcome>,
)
    requires
        hits1 == hits2,
        outcomes1 == outcomes2,
    ensures
        spec_enriched_page(hits1, outcomes1) == spec_enriched_page(hits2, outcomes2),
{
}

} // verus!
