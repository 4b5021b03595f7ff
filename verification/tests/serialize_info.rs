//! Tests for encoding and decoding table-index entries and lists.
use bms_table::json::{Json, JsonObject};
use bms_table::{BmsTableInfo, BmsTableList};

#[test]
fn test_bms_table_list_serialize_array() {
    let item1 = BmsTableInfo {
        name: ".WAS難易度表".to_string(),
        symbol: "．".to_string(),
        url: "https://darksabun.club/table/archive/was/".to_string(),
        extra: JsonObject {
            entries: vec![
                ("tag1".to_string(), Json::Str("SP".to_string())),
                (
                    "tag2".to_string(),
                    Json::Str("Self-made Chart Only".to_string()),
                ),
                (
                    "comment".to_string(),
                    Json::Str("Converted by Ribbit".to_string()),
                ),
                ("date".to_string(), Json::Str("".to_string())),
                ("state".to_string(), Json::Str("".to_string())),
                ("tag_order".to_string(), Json::Str("1".to_string())),
            ],
        },
    };
    let item2 = BmsTableInfo {
        name: "[F]".to_string(),
        symbol: "[F]".to_string(),
        url: "https://bms.hexlataia.xyz/tables/convert/%5BF%5D/table.html".to_string(),
        extra: JsonObject {
            entries: vec![
                ("tag1".to_string(), Json::Str("SP".to_string())),
                (
                    "tag2".to_string(),
                    Json::Str("Self-made Chart Only".to_string()),
                ),
                (
                    "comment".to_string(),
                    Json::Str("Converted by Hex".to_string()),
                ),
                ("date".to_string(), Json::Str("".to_string())),
                ("state".to_string(), Json::Str("".to_string())),
                ("tag_order".to_string(), Json::Str("1".to_string())),
            ],
        },
    };
    let list = BmsTableList {
        listes: vec![item1, item2],
    };

    let value = list.to_json();
    assert!(value.is_array());

    let parsed: BmsTableList = BmsTableList::from_json(&value).unwrap();
    assert_eq!(parsed.listes.len(), 2);
    let [i0, i1] = parsed.listes.as_slice() else {
        panic!(
            "expected two items, got {}: {:?}",
            parsed.listes.len(),
            parsed.listes
        );
    };
    assert_eq!(i0.name.as_str(), ".WAS難易度表");
    assert_eq!(i1.symbol.as_str(), "[F]");
}

#[test]
fn test_table_list_entry_error_names_index() {
    let text = r#"[
        {"name": "ok", "symbol": "o", "url": "https://example.com/a/"},
        {"name": "bad", "symbol": "b"}
    ]"#;
    let err = BmsTableList::from_json_str(text).unwrap_err();
    match err {
        bms_table::errors::TableError::SchemaViolation { path, index, fault } => {
            assert_eq!(path, "url");
            assert_eq!(index, Some(1));
            assert_eq!(fault, bms_table::errors::SchemaFault::MissingField);
        }
        other => panic!("expected a schema violation, got {:?}", other),
    }
}

#[test]
fn test_table_list_rejects_invalid_url() {
    let text = r#"[ {"name": "x", "symbol": "s", "url": "not a url"} ]"#;
    let err = BmsTableList::from_json_str(text).unwrap_err();
    match err {
        bms_table::errors::TableError::SchemaViolation { path, index, fault } => {
            assert_eq!(path, "url");
            assert_eq!(index, Some(0));
            assert_eq!(fault, bms_table::errors::SchemaFault::WrongType);
        }
        other => panic!("expected a schema violation, got {:?}", other),
    }
}
