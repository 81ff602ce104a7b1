//! SBOM documents as the primary backend returns them, the public summary
//! shape built from them, and the advisory lookup derived from a summary.

use vstd::prelude::*;

use crate::normalize::build_self_link;
use crate::normalize::normalize_supplier;
use crate::normalize::self_link;
use crate::normalize::stripped_supplier;
use crate::search::SearchOptions;

verus! {

/// One SBOM document as the primary search index returns it. Read-only to
/// this crate: every field is taken as reported.
#[derive(Clone, Debug, PartialEq, Eq)]
pub struct SbomDocument {
    /// The document's identifier in the index.
    pub id: String,
    /// Package URL of the described artifact; empty when the index has none.
    pub purl: String,
    /// Artifact name.
    pub name: String,
    /// CPE identifier; empty when the index has none.
    pub cpe: String,
    /// Artifact version.
    pub version: String,
    /// Content hash of the SBOM.
    pub sha256: String,
    /// License expression.
    pub license: String,
    /// Textual snippet around the match.
    pub snippet: String,
    /// Document classifier.
    pub classifier: String,
    /// Supplier label, possibly carrying the organization prefix.
    pub supplier: String,
    /// Free-text description.
    pub description: String,
    /// Names of the artifact's dependencies.
    pub dependencies: Vec<String>,
    /// Creation time, in seconds since the epoch.
    pub created: i64,
}

/// One hit of the primary search: a document together with the optional
/// per-item metadata blob the backend may attach.
#[derive(Clone, Debug, PartialEq, Eq)]
pub struct SbomHit {
    /// The matched document.
    pub document: SbomDocument,
    /// The metadata blob, when the backend sent one.
    pub metadata: Option<String>,
}

/// The public summary built from one hit. Constructed once per document,
/// mutated exactly once when the advisory count is written in, and
/// immutable afterwards.
#[derive(Clone, Debug, PartialEq, Eq)]
pub struct SbomSummary {
    /// The document's identifier.
    pub id: String,
    /// Package URL; empty when the document carries none.
    pub purl: String,
    /// Artifact name.
    pub name: String,
    /// CPE identifier; empty when the document carries none.
    pub cpe: String,
    /// Artifact version.
    pub version: String,
    /// Content hash of the SBOM.
    pub sha256: String,
    /// License expression.
    pub license: String,
    /// Textual snippet around the match.
    pub snippet: String,
    /// Document classifier.
    pub classifier: String,
    /// Supplier label with the organization prefix stripped.
    pub supplier: String,
    /// Path under which this document is retrievable.
    pub href: String,
    /// Free-text description.
    pub description: String,
    /// Names of the artifact's dependencies.
    pub dependencies: Vec<String>,
    /// Vulnerability references; always empty here, populated elsewhere.
    pub vulnerabilities: Vec<String>,
    /// How many advisories affect the artifact; absent until enrichment,
    /// and absent for good when no lookup could be made or it failed.
    pub advisories: Option<u64>,
    /// Creation time, in seconds since the epoch.
    pub created: i64,
    /// Metadata blob; empty when the backend sent none.
    pub metadata: String,
}

/// Mathematical model of a backend document.
#[verifier::ext_equal]
pub struct DocumentModel {
    pub id: Seq<char>,
    pub purl: Seq<char>,
    pub name: Seq<char>,
    pub cpe: Seq<char>,
    pub version: Seq<char>,
    pub sha256: Seq<char>,
    pub license: Seq<char>,
    pub snippet: Seq<char>,
    pub classifier: Seq<char>,
    pub supplier: Seq<char>,
    pub description: Seq<char>,
    pub dependencies: Seq<Seq<char>>,
    pub created: i64,
}

/// Mathematical model of a primary search hit.
#[verifier::ext_equal]
pub struct HitModel {
    pub document: DocumentModel,
    pub metadata: Option<Seq<char>>,
}

/// Mathematical model of a public summary.
#[verifier::ext_equal]
pub struct SummaryModel {
    pub id: Seq<char>,
    pub purl: Seq<char>,
    pub name: Seq<char>,
    pub cpe: Seq<char>,
    pub version: Seq<char>,
    pub sha256: Seq<char>,
    pub license: Seq<char>,
    pub snippet: Seq<char>,
    pub classifier: Seq<char>,
    pub supplier: Seq<char>,
    pub href: Seq<char>,
    pub description: Seq<char>,
    pub dependencies: Seq<Seq<char>>,
    pub vulnerabilities: Seq<Seq<char>>,
    pub advisories: Option<u64>,
    pub created: i64,
    pub metadata: Seq<char>,
}

impl View for SbomDocument {
    type V = DocumentModel;

    open spec fn view(&self) -> DocumentModel {
        DocumentModel {
            id: self.id@,
            purl: self.purl@,
            name: self.name@,
            cpe: self.cpe@,
            version: self.version@,
            sha256: self.sha256@,
            license: self.license@,
            snippet: self.snippet@,
            classifier: self.classifier@,
            supplier: self.supplier@,
            description: self.description@,
            dependencies: self.dependencies.deep_view(),
            created: self.created,
        }
    }
}

impl View for SbomHit {
    type V = HitModel;

    open spec fn view(&self) -> HitModel {
        HitModel {
            document: self.document@,
            metadata: match self.metadata {
                Some(m) => Some(m@),
                None => None,
            },
        }
    }
}

impl View for SbomSummary {
    type V = SummaryModel;

    open spec fn view(&self) -> SummaryModel {
        SummaryModel {
            id: self.id@,
            purl: self.purl@,
            name: self.name@,
            cpe: self.cpe@,
            version: self.version@,
            sha256: self.sha256@,
            license: self.license@,
            snippet: self.snippet@,
            classifier: self.classifier@,
            supplier: self.supplier@,
            href: self.href@,
            description: self.description@,
            dependencies: self.dependencies.deep_view(),
            vulnerabilities: self.vulnerabilities.deep_view(),
            advisories: self.advisories,
            created: self.created,
            metadata: self.metadata@,
        }
    }
}

/// The summary owed for one hit: every document field carried over, the
/// supplier normalized, the self link derived from the id, metadata
/// defaulted to empty, no vulnerabilities and no advisory count yet.
pub open spec fn spec_map_hit(h: HitModel) -> SummaryModel {
    SummaryModel {
        id: h.document.id,
        purl: h.document.purl,
        name: h.document.name,
        cpe: h.document.cpe,
        version: h.document.version,
        sha256: h.document.sha256,
        license: h.document.license,
        snippet: h.document.snippet,
        classifier: h.document.classifier,
        supplier: stripped_supplier(h.document.supplier),
        href: self_link(h.document.id),
        description: h.document.description,
        dependencies: h.document.dependencies,
        vulnerabilities: Seq::empty(),
        advisories: None,
        created: h.document.created,
        metadata: match h.metadata {
            Some(m) => m,
            None => Seq::empty(),
        },
    }
}

/// Maps one primary hit to its public summary.
pub fn map_hit(hit: SbomHit) -> (s: SbomSummary)
    ensures
        s@ == spec_map_hit(hit@),
{
    let SbomHit { document, metadata } = hit;
    let supplier = normalize_supplier(document.supplier.as_str());
    let href = build_self_link(document.id.as_str());
    let metadata = match metadata {
        Some(m) => m,
        None => String::new(),
    };
    let s = SbomSummary {
        id: document.id,
        purl: document.purl,
        name: document.name,
        cpe: document.cpe,
        version: document.version,
        sha256: document.sha256,
        license: document.license,
        snippet: document.snippet,
        classifier: document.classifier,
        supplier,
        href,
        description: document.description,
        dependencies: document.dependencies,
        vulnerabilities: Vec::new(),
        advisories: None,
        created: document.created,
        metadata,
    };
    proof {
        assert(s@ =~~= spec_map_hit(hit@));
    }
    s
}

/// Maps a whole page of primary hits, in backend order.
pub fn map_hits(hits: Vec<SbomHit>) -> (r: Vec<SbomSummary>)
    ensures
        r@.len() == hits@.len(),
        forall|i: int| 0 <= i < hits@.len() ==> #[trigger] r@[i]@ == spec_map_hit(hits@[i]@),
{
    let ghost orig = hits@;
    let mut hits = hits;
    let mut out: Vec<SbomSummary> = Vec::new();
    while hits.len() > 0
        invariant
            out@.len() + hits@.len() == orig.len(),
            hits@ == orig.skip(out@.len() as int),
            forall|i: int| 0 <= i < out@.len() ==> #[trigger] out@[i]@ == spec_map_hit(orig[i]@),
        decreases hits@.len(),
    {
        let ghost k = out@.len() as int;
        let h = hits.remove(0);
        proof {
            assert(h == orig[k]);
            assert(hits@ =~= orig.skip(k + 1));
        }
        let s = map_hit(h);
        out.push(s);
    }
    out
}

/// How an advisory lookup is issued: from the first match, with a page
/// bound large enough to make the reported total exhaustive (only the
/// total is consumed, never the items), and no extras requested.
#[derive(Clone, Debug, PartialEq, Eq)]
pub struct AdvisoryLookup {
    /// The derived advisory query.
    pub query: String,
    /// Always the first page.
    pub offset: usize,
    /// The exhaustive-count bound.
    pub limit: usize,
    /// All flags off.
    pub options: SearchOptions,
}

/// Page bound of an advisory lookup, chosen so the reported total counts
/// every matching advisory.
pub const ADVISORY_PAGE_BOUND: usize = 100000;

/// The advisory query text for a package URL.
pub open spec fn advisory_query_text(purl: Seq<char>) -> Seq<char> {
    "affected:\""@ + purl + "\""@
}

impl SbomSummary {
    /// Derives the advisory search for this summary: a package-URL match
    /// when the summary carries one. Without a package URL there is no
    /// identifying datum to ask about, and that is not an error: the
    /// advisory count simply stays absent.
    pub fn advisories_query(&self) -> (r: Option<String>)
        ensures
            r is Some <==> self.purl@.len() > 0,
            r matches Some(q) ==> q@ == advisory_query_text(self.purl@),
    {
        if self.purl.as_str().is_empty() {
            None
        } else {
            let q = String::from_str("affected:\"").concat(self.purl.as_str()).concat("\"");
            Some(q)
        }
    }
}

/// Plans the advisory fan-out for a whole page: one entry per summary, in
/// order — the fully parameterized lookup where a query is derivable,
/// nothing where it is not. Issuing the lookups is the caller's part;
/// planning them is not.
pub fn advisory_plan(summaries: &Vec<SbomSummary>) -> (r: Vec<Option<AdvisoryLookup>>)
    ensures
        r@.len() == summaries@.len(),
        forall|i: int| 0 <= i < r@.len() ==> ((#[trigger] r@[i]) is Some <==> summaries@[i].purl@.len() > 0),
        forall|i: int| 0 <= i < r@.len() ==> ((#[trigger] r@[i]) matches Some(l) ==> {
            &&& l.query@ == advisory_query_text(summaries@[i].purl@)
            &&& l.offset == 0
            &&& l.limit == ADVISORY_PAGE_BOUND
            &&& !l.options.explain
            &&& !l.options.metadata
            &&& !l.options.summaries
        }),
{
    let n = summaries.len();
    let mut r: Vec<Option<AdvisoryLookup>> = Vec::new();
    let mut i: usize = 0;
    while i < n
        invariant
            i <= n,
            n == summaries@.len(),
            r@.len() == i,
            forall|j: int| 0 <= j < i ==> ((#[trigger] r@[j]) is Some <==> summaries@[j].purl@.len()
                > 0),
            forall|j: int| 0 <= j < i ==> ((#[trigger] r@[j]) matches Some(l) ==> {
                &&& l.query@ == advisory_query_text(summaries@[j].purl@)
                &&& l.offset == 0
                &&& l.limit == ADVISORY_PAGE_BOUND
                &&& !l.options.explain
                &&& !l.options.metadata
                &&& !l.options.summaries
            }),
        decreases n - i,
    {
        let next = match summaries[i].advisories_query() {
            Some(q) => Some(advisory_lookup(q)),
            None => None,
        };
        r.push(next);
        i += 1;
    }
    r
}

/// Fixes every parameter of an advisory lookup but the query itself: the
/// first page, the exhaustive-count bound, and no optional extras.
pub fn advisory_lookup(query: String) -> (r: AdvisoryLookup)
    ensures
        r.query == query,
        r.offset == 0,
        r.limit == ADVISORY_PAGE_BOUND,
        !r.options.explain,
        !r.options.metadata,
        !r.options.summaries,
{
    AdvisoryLookup {
        query,
        offset: 0,
        limit: ADVISORY_PAGE_BOUND,
        options: SearchOptions::disabled(),
    }
}

} // verus!
