//! The enrichment step: writing each summary's advisory-lookup outcome
//! into its advisory count, item by item, with failures absorbed locally.

use vstd::prelude::*;

use crate::sbom::SbomSummary;
use crate::sbom::SummaryModel;
use crate::search::BackendError;

verus! {

/// What one advisory lookup produced for one summary: no lookup could be
/// derived, the lookup failed (the error kept explicit until this step
/// collapses it), or the secondary index reported a total.
pub type AdvisoryOutcome = Option<Result<u64, BackendError>>;

/// The advisory count a summary ends up with: the reported total on
/// success, nothing when no lookup was made or the lookup failed.
pub open spec fn collapsed_count(o: AdvisoryOutcome) -> Option<u64> {
    match o {
        Some(Ok(n)) => Some(n),
        _ => None,
    }
}

/// `m` after enrichment with count `a`: only the advisory count changes.
pub open spec fn with_advisories(m: SummaryModel, a: Option<u64>) -> SummaryModel {
    SummaryModel { advisories: a, ..m }
}

/// Collapses one lookup outcome to the count that will be recorded.
pub fn outcome_count(o: &AdvisoryOutcome) -> (r: Option<u64>)
    ensures
        r == collapsed_count(*o),
{
    match o {
        Some(Ok(n)) => Some(*n),
        _ => None,
    }
}

/// Writes each lookup outcome into its summary, index by index: a
/// successful lookup sets the advisory count to the reported total,
/// anything else leaves the count absent. Nothing else of a summary
/// changes, and no failed outcome can fail the step as a whole.
pub fn apply_advisory_outcomes(summaries: &mut Vec<SbomSummary>, outcomes: &Vec<AdvisoryOutcome>)
    requires
        outcomes@.len() == old(summaries)@.len(),
    ensures
        final(summaries)@.len() == old(summaries)@.len(),
        forall|i: int| 0 <= i < final(summaries)@.len() ==> #[trigger] final(summaries)@[i]@
            == with_advisories(old(summaries)@[i]@, collapsed_count(outcomes@[i])),
{
    let n = summaries.len();
    let mut i: usize = 0;
    while i < n
        invariant
            i <= n,
            n == outcomes@.len(),
            summaries@.len() == n,
            forall|j: int| 0 <= j < i ==> #[trigger] summaries@[j]@
                == with_advisories(old(summaries)@[j]@, collapsed_count(outcomes@[j])),
            forall|j: int| i <= j < n ==> #[trigger] summaries@[j] == old(summaries)@[j],
        decreases n - i,
    {
        let c = outcome_count(&outcomes[i]);
        let mut s = summaries.remove(i);
        s.advisories = c;
        proof {
            assert(s@ =~~= with_advisories(old(summaries)@[i as int]@, collapsed_count(
                outcomes@[i as int],
            )));
        }
        summaries.insert(i, s);
        i += 1;
    }
}

} // verus!
