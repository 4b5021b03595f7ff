//! Tests for HTML pointer extraction, URL joining and the header query.
use bms_table::fetch::{
    HeaderQueryContent, get_web_header_json_value, try_extract_bmstable_from_html,
};
use url::Url;

#[test]
fn parse_html_test_parser_creation() {
    let html_content = r#"
    <!DOCTYPE html>
    <html>
    <head>
        <meta name="bmstable" content="header.json">
    </head>
    <body>
        <h1>BMS Table</h1>
    </body>
    </html>
    "#;

    let result = try_extract_bmstable_from_html(html_content);
    assert!(result.is_ok());
    assert_eq!(result.unwrap(), "header.json");
}

#[test]
fn parse_html_test_parser_no_bmstable() {
    let html_content = r#"
    <!DOCTYPE html>
    <html>
    <head>
        <title>BMS Table</title>
    </head>
    <body>
        <h1>BMS Table</h1>
    </body>
    </html>
    "#;

    let result = try_extract_bmstable_from_html(html_content);
    assert!(result.is_err());
}

#[test]
fn test_url_parsing() {
    let base_url = "https://example.com/table.html";
    let bmstable_url = "header.json";

    let base_url_obj = Url::parse(base_url).unwrap();
    let header_url = base_url_obj.join(bmstable_url).unwrap();

    assert_eq!(header_url.as_str(), "https://example.com/header.json");
}

#[test]
fn test_get_web_header_json_value_parses_json_with_control_chars() {
    let input = "\u{0000}{\"data_url\":\"charts.json\"}\u{000C}";
    match get_web_header_json_value(input).unwrap() {
        HeaderQueryContent::Value(v) => {
            assert_eq!(
                v.get("data_url").and_then(|x| x.as_str()).map(|s| s.as_str()),
                Some("charts.json")
            );
        }
        _ => panic!("should parse as JSON"),
    }
}

#[test]
fn test_meta_bmstable_wins_over_anchor() {
    let html_content = r#"
    <html>
    <head>
        <meta name="bmstable" content="header.json">
    </head>
    <body>
        <a href="other-header.json">other</a>
    </body>
    </html>
    "#;

    let result = try_extract_bmstable_from_html(html_content).unwrap();
    assert_eq!(result, "header.json");
}

#[test]
fn test_anchor_header_json_fallback() {
    let html_content = r#"
    <html>
    <body>
        <a href="tables/MyHeader.json">the table</a>
    </body>
    </html>
    "#;

    let result = try_extract_bmstable_from_html(html_content).unwrap();
    assert_eq!(result, "tables/MyHeader.json");
}

#[test]
fn test_raw_text_heuristic_last_resort() {
    let text = "window.load('tables/header.json')";
    let result = try_extract_bmstable_from_html(text).unwrap();
    assert_eq!(result, "tables/header.json");
}

#[test]
fn test_replace_control_chars_keeps_meaningful_whitespace() {
    let cleaned = bms_table::fetch::replace_control_chars("a\u{0}b\u{c}c\nd\te\r");
    assert_eq!(cleaned, "abc\nd\te\r");
}

#[test]
fn test_parse_json_str_with_fallback_reports_both_causes() {
    let err = bms_table::fetch::parse_json_str_with_fallback("{]").unwrap_err();
    assert!(matches!(
        err,
        bms_table::errors::TableError::MalformedDocument { .. }
    ));
}

#[test]
fn test_pointer_not_found_variant() {
    let err = try_extract_bmstable_from_html("<html><body>plain page</body></html>").unwrap_err();
    assert_eq!(err, bms_table::errors::TableError::PointerNotFound);
}

#[test]
fn test_link_rel_bmstable_stage() {
    let html_content = r#"<html><head><link rel="bmstable" href="meta.json"></head></html>"#;
    let result = try_extract_bmstable_from_html(html_content).unwrap();
    assert_eq!(result, "meta.json");
}

#[test]
fn test_script_src_stage() {
    let html_content = r#"<html><body><script src="js/header.json"></script></body></html>"#;
    let result = try_extract_bmstable_from_html(html_content).unwrap();
    assert_eq!(result, "js/header.json");
}
