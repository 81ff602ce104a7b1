use sbom_search::enrich::AdvisoryOutcome;
use sbom_search::enrich::apply_advisory_outcomes;
use sbom_search::enrich::outcome_count;
use sbom_search::normalize::build_self_link;
use sbom_search::normalize::normalize_supplier;
use sbom_search::sbom::ADVISORY_PAGE_BOUND;
use sbom_search::sbom::SbomDocument;
use sbom_search::sbom::SbomHit;
use sbom_search::sbom::SbomSummary;
use sbom_search::sbom::advisory_lookup;
use sbom_search::sbom::advisory_plan;
use sbom_search::sbom::map_hit;
use sbom_search::sbom::map_hits;
use sbom_search::search::BackendError;
use sbom_search::search::QueryParams;
use sbom_search::search::SearchOptions;
use sbom_search::search::SearchResult;
use sbom_search::search::ValidationError;
use sbom_search::search::assemble;

fn doc(id: &str, purl: &str, supplier: &str) -> SbomDocument {
    SbomDocument {
        id: id.to_string(),
        purl: purl.to_string(),
        name: "log4j-core".to_string(),
        cpe: "cpe:2.3:a:apache:log4j".to_string(),
        version: "2.0.1".to_string(),
        sha256: "c0ffee".to_string(),
        license: "Apache-2.0".to_string(),
        snippet: "a logging library".to_string(),
        classifier: "SBOM".to_string(),
        supplier: supplier.to_string(),
        description: "logging for the JVM".to_string(),
        dependencies: vec!["slf4j".to_string(), "jansi".to_string()],
        created: 1_700_000_000,
    }
}

fn hit(id: &str, purl: &str, supplier: &str) -> SbomHit {
    SbomHit { document: doc(id, purl, supplier), metadata: None }
}

fn backend_failure() -> BackendError {
    BackendError { reason: "secondary index unreachable".to_string() }
}

#[test]
fn supplier_prefix_stripped() {
    assert_eq!(normalize_supplier("Organization: Acme Corp"), "Acme Corp");
}

#[test]
fn supplier_without_prefix_unchanged() {
    assert_eq!(normalize_supplier("Acme Corp"), "Acme Corp");
    assert_eq!(normalize_supplier(""), "");
    assert_eq!(normalize_supplier("Organization"), "Organization");
}

#[test]
fn supplier_repeated_prefix_fully_stripped() {
    assert_eq!(
        normalize_supplier("Organization: Organization: Acme Corp"),
        "Acme Corp"
    );
}

#[test]
fn supplier_prefix_inside_text_kept() {
    assert_eq!(
        normalize_supplier("Acme Organization: Corp"),
        "Acme Organization: Corp"
    );
}

#[test]
fn self_link_exact() {
    assert_eq!(build_self_link("abc-123"), "/api/v1/sbom?id=abc-123");
    assert_eq!(build_self_link(""), "/api/v1/sbom?id=");
}

#[test]
fn map_hit_carries_fields_and_defaults() {
    let s = map_hit(hit("id-1", "pkg:maven/org.apache/log4j@2.0.1", "Organization: Apache"));
    assert_eq!(s.id, "id-1");
    assert_eq!(s.purl, "pkg:maven/org.apache/log4j@2.0.1");
    assert_eq!(s.name, "log4j-core");
    assert_eq!(s.cpe, "cpe:2.3:a:apache:log4j");
    assert_eq!(s.version, "2.0.1");
    assert_eq!(s.sha256, "c0ffee");
    assert_eq!(s.license, "Apache-2.0");
    assert_eq!(s.snippet, "a logging library");
    assert_eq!(s.classifier, "SBOM");
    assert_eq!(s.supplier, "Apache");
    assert_eq!(s.href, "/api/v1/sbom?id=id-1");
    assert_eq!(s.description, "logging for the JVM");
    assert_eq!(s.dependencies, vec!["slf4j".to_string(), "jansi".to_string()]);
    assert!(s.vulnerabilities.is_empty());
    assert_eq!(s.advisories, None);
    assert_eq!(s.created, 1_700_000_000);
    assert_eq!(s.metadata, "");
}

#[test]
fn map_hit_keeps_metadata_blob() {
    let mut h = hit("id-2", "", "Acme");
    h.metadata = Some("{\"scanner\":\"x\"}".to_string());
    let s = map_hit(h);
    assert_eq!(s.metadata, "{\"scanner\":\"x\"}");
}

#[test]
fn map_hits_preserves_order_and_length() {
    let hits = vec![hit("a", "", ""), hit("b", "", ""), hit("c", "", "")];
    let summaries = map_hits(hits);
    assert_eq!(summaries.len(), 3);
    assert_eq!(summaries[0].id, "a");
    assert_eq!(summaries[1].id, "b");
    assert_eq!(summaries[2].id, "c");
}

#[test]
fn advisories_query_from_purl() {
    let s = map_hit(hit("id-1", "pkg:maven/org.apache/log4j@2.0.1", ""));
    assert_eq!(
        s.advisories_query(),
        Some("affected:\"pkg:maven/org.apache/log4j@2.0.1\"".to_string())
    );
}

#[test]
fn advisories_query_absent_without_purl() {
    let s = map_hit(hit("id-1", "", ""));
    assert_eq!(s.advisories_query(), None);
}

#[test]
fn advisory_lookup_parameters() {
    let l = advisory_lookup("affected:\"x\"".to_string());
    assert_eq!(l.query, "affected:\"x\"");
    assert_eq!(l.offset, 0);
    assert_eq!(l.limit, 100000);
    assert_eq!(l.limit, ADVISORY_PAGE_BOUND);
    assert!(!l.options.explain);
    assert!(!l.options.metadata);
    assert!(!l.options.summaries);
}

#[test]
fn advisory_plan_one_entry_per_summary() {
    let summaries = map_hits(vec![hit("a", "pkg:a", ""), hit("b", "", ""), hit("c", "pkg:c", "")]);
    let plan = advisory_plan(&summaries);
    assert_eq!(plan.len(), 3);
    let first = plan[0].as_ref().expect("purl present");
    assert_eq!(first.query, "affected:\"pkg:a\"");
    assert_eq!(first.offset, 0);
    assert_eq!(first.limit, ADVISORY_PAGE_BOUND);
    assert!(plan[1].is_none());
    assert_eq!(plan[2].as_ref().expect("purl present").query, "affected:\"pkg:c\"");
}

#[test]
fn validate_rejects_empty_query() {
    let p = QueryParams { q: "".to_string(), offset: 0, limit: 10 };
    assert_eq!(p.validate(), Err(ValidationError::EmptyQuery));
}

#[test]
fn validate_accepts_nonempty_query() {
    let p = QueryParams { q: "log4j".to_string(), offset: 0, limit: 10 };
    assert_eq!(p.validate(), Ok(()));
}

#[test]
fn assemble_keeps_total_and_items() {
    let items = vec![map_hit(hit("a", "", ""))];
    let r = assemble(5, items);
    assert_eq!(r.total, Some(5));
    assert_eq!(r.result.len(), 1);
    assert_eq!(r.result[0].id, "a");
}

#[test]
fn outcome_count_collapses() {
    assert_eq!(outcome_count(&Some(Ok(5))), Some(5));
    assert_eq!(outcome_count(&Some(Err(backend_failure()))), None);
    assert_eq!(outcome_count(&None), None);
}

#[test]
fn mixed_outcomes_are_isolated_per_item() {
    let mut summaries = map_hits(vec![hit("a", "pkg:a", ""), hit("b", "pkg:b", "")]);
    let outcomes: Vec<AdvisoryOutcome> = vec![Some(Ok(7)), Some(Err(backend_failure()))];
    apply_advisory_outcomes(&mut summaries, &outcomes);
    assert_eq!(summaries[0].advisories, Some(7));
    assert_eq!(summaries[1].advisories, None);
    assert_eq!(summaries[0].id, "a");
    assert_eq!(summaries[1].id, "b");
}

#[test]
fn all_failures_leave_primary_page_intact() {
    let mut summaries = map_hits(vec![hit("a", "pkg:a", ""), hit("b", "pkg:b", "")]);
    let untouched = summaries.clone();
    let outcomes: Vec<AdvisoryOutcome> =
        vec![Some(Err(backend_failure())), Some(Err(backend_failure()))];
    apply_advisory_outcomes(&mut summaries, &outcomes);
    assert_eq!(summaries, untouched);
    assert!(summaries.iter().all(|s| s.advisories.is_none()));
}

fn run_pipeline(hits: Vec<SbomHit>, total: u64, outcomes: Vec<AdvisoryOutcome>) -> SearchResult<SbomSummary> {
    let mut summaries = map_hits(hits);
    apply_advisory_outcomes(&mut summaries, &outcomes);
    assemble(total, summaries)
}

#[test]
fn log4j_scenario() {
    // query "log4j", offset 0, limit 2: the primary backend returns two
    // documents out of five matches; the advisory index reports three
    // advisories for the first document and errors for the second.
    let hits = vec![
        hit("sbom-1", "pkg:maven/org.apache/log4j@2.0.1", "Organization: Apache"),
        hit("sbom-2", "pkg:maven/org.apache/log4j@2.14.0", "Organization: Apache"),
    ];
    let outcomes: Vec<AdvisoryOutcome> = vec![Some(Ok(3)), Some(Err(backend_failure()))];
    let r = run_pipeline(hits, 5, outcomes);
    assert_eq!(r.total, Some(5));
    assert_eq!(r.result.len(), 2);
    assert_eq!(r.result[0].advisories, Some(3));
    assert_eq!(r.result[1].advisories, None);
    assert_eq!(r.result[0].href, "/api/v1/sbom?id=sbom-1");
    assert_eq!(r.result[1].href, "/api/v1/sbom?id=sbom-2");
    assert_eq!(r.result[0].supplier, "Apache");
}

#[test]
fn identical_requests_yield_identical_responses() {
    let build = || {
        run_pipeline(
            vec![hit("a", "pkg:a", "Organization: A"), hit("b", "", "B")],
            9,
            vec![Some(Ok(2)), None],
        )
    };
    assert_eq!(build(), build());
}

#[test]
fn page_length_matches_backend_page() {
    // A full page of three hits stays three summaries long, whatever the
    // outcomes were.
    let hits = vec![hit("a", "", ""), hit("b", "", ""), hit("c", "", "")];
    let outcomes: Vec<AdvisoryOutcome> = vec![None, Some(Ok(1)), Some(Err(backend_failure()))];
    let r = run_pipeline(hits, 3, outcomes);
    assert_eq!(r.result.len(), 3);
}
