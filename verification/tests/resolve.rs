//! Tests for the resolution state machine: pointer chasing, the cycle
//! check, relative resolution against the header's own location, and the
//! index flow.
use bms_table::errors::TableError;
use bms_table::resolve::{ResolveState, ResolveStep, parse_table_list, resolve_begin, resolve_step};

const ENTRY_HTML: &str = r#"
<html><head><meta name="bmstable" content="tables/header.json"></head><body></body></html>
"#;

const HEADER_JSON: &str = r#"{
    "name": "Test Table",
    "symbol": "tt",
    "data_url": "score.json",
    "course": [],
    "level_order": []
}"#;

const DATA_JSON: &str = r#"[ {"level": "1", "md5": "abc"} ]"#;

#[test]
fn test_resolve_follows_pointer_and_header_location() {
    let st = resolve_begin("https://site.example/table.html").unwrap();
    let step1 = resolve_step(st, ENTRY_HTML).unwrap();
    let (st, url) = match step1 {
        ResolveStep::Fetch(st, url) => (st, url),
        other => panic!("expected a header fetch, got {:?}", other),
    };
    assert_eq!(url, "https://site.example/tables/header.json");

    let step2 = resolve_step(st, HEADER_JSON).unwrap();
    let (st, url) = match step2 {
        ResolveStep::Fetch(st, url) => (st, url),
        other => panic!("expected a data fetch, got {:?}", other),
    };
    // the chart document resolves against the header's own location,
    // not the entry page's
    assert_eq!(url, "https://site.example/tables/score.json");

    let step3 = resolve_step(st, DATA_JSON).unwrap();
    let fetched = match step3 {
        ResolveStep::Done(fetched) => fetched,
        other => panic!("expected a finished table, got {:?}", other),
    };
    assert_eq!(fetched.table.header.name, "Test Table");
    assert_eq!(fetched.table.data.charts.len(), 1);
    assert_eq!(
        fetched.raw.header_json_url,
        "https://site.example/tables/header.json"
    );
    assert_eq!(
        fetched.raw.data_json_url,
        "https://site.example/tables/score.json"
    );
    assert_eq!(fetched.raw.data_raw, DATA_JSON);
}

#[test]
fn test_resolve_direct_header_entry() {
    let st = resolve_begin("https://site.example/header.json").unwrap();
    let step1 = resolve_step(st, HEADER_JSON).unwrap();
    let (_, url) = match step1 {
        ResolveStep::Fetch(st, url) => (st, url),
        other => panic!("expected a data fetch, got {:?}", other),
    };
    assert_eq!(url, "https://site.example/score.json");
}

#[test]
fn test_resolve_cyclic_header_reference() {
    let st = resolve_begin("https://site.example/table.html").unwrap();
    let step1 = resolve_step(st, ENTRY_HTML).unwrap();
    let st = match step1 {
        ResolveStep::Fetch(st, _) => st,
        other => panic!("expected a header fetch, got {:?}", other),
    };
    // the second hop answers with another HTML pointer page
    let err = resolve_step(st, ENTRY_HTML).unwrap_err();
    match err {
        TableError::CyclicHeaderReference {
            web_url,
            header_url,
        } => {
            assert_eq!(web_url, "https://site.example/table.html");
            assert_eq!(header_url, "tables/header.json");
        }
        other => panic!("expected a cycle, got {:?}", other),
    }
}

#[test]
fn test_resolve_begin_rejects_invalid_url() {
    let err = resolve_begin("not a url at all").unwrap_err();
    assert!(matches!(err, TableError::UrlResolutionFailure { .. }));
}

#[test]
fn test_resolve_unresolvable_entry() {
    let st = resolve_begin("https://site.example/table.html").unwrap();
    let err = resolve_step(st, "<html><body>nothing here</body></html>").unwrap_err();
    assert!(matches!(err, TableError::HeaderNotResolvable { .. }));
}

#[test]
fn test_parse_table_list() {
    let text = r#"[
        {"name": "A", "symbol": "a", "url": "https://example.com/a/", "comment": "first"},
        {"name": "B", "symbol": "b", "url": "https://example.com/b/table.html"}
    ]"#;
    let (entries, used) = parse_table_list(text).unwrap();
    assert_eq!(entries.len(), 2);
    assert_eq!(entries[0].name, "A");
    assert_eq!(entries[0].url, "https://example.com/a/");
    assert_eq!(
        entries[0].extra.get("comment"),
        Some(&bms_table::json::Json::Str("first".to_string()))
    );
    assert_eq!(entries[1].url, "https://example.com/b/table.html");
    assert_eq!(used, text);
}

#[test]
fn test_parse_table_list_malformed() {
    let err = parse_table_list("z{{").unwrap_err();
    assert!(matches!(err, TableError::MalformedDocument { .. }));
}

#[test]
fn test_resolve_state_holds_entry_url() {
    let st = resolve_begin("https://site.example/table.html").unwrap();
    match st {
        ResolveState::FetchingEntry { ref web_url } => {
            assert_eq!(web_url, "https://site.example/table.html");
        }
        other => panic!("expected the entry state, got {:?}", other),
    }
}

#[test]
fn test_lenient_fetcher_builds() {
    let fetcher = bms_table::client::Fetcher::lenient();
    assert!(fetcher.is_ok());
    let _client = fetcher.unwrap().client().clone();
}
