//! Tests for pointer extraction and the shape-tolerant decoders reached from
//! the fetch path.
use bms_table::fetch::try_extract_bmstable_from_html;
use bms_table::{BmsTableHeader, CourseInfo};

#[test]
fn fetch_tests_test_parser_creation() {
    let html_content = r#"
    <!DOCTYPE html>
    <html>
    <head>
        <meta name="bmstable" content="header.json">
    </head>
    <body>
        <h1>BMS Table</h1>
    </body>
    </html>
    "#;

    let result = try_extract_bmstable_from_html(html_content);
    assert!(result.is_ok());
    assert_eq!(result.unwrap(), "header.json");
}

#[test]
fn fetch_tests_test_parser_no_bmstable() {
    let html_content = r#"
    <!DOCTYPE html>
    <html>
    <head>
        <title>BMS Table</title>
    </head>
    <body>
        <h1>BMS Table</h1>
    </body>
    </html>
    "#;

    let result = try_extract_bmstable_from_html(html_content);
    assert!(result.is_err());
}

#[test]
fn fetch_tests_test_bms_table_header_deserialize_vec_course_info() {
    let json_data = r#"{
        "name": "Test Table",
        "symbol": "test",
        "data_url": "score.json",
        "course": [
            {
                "name": "Course 1",
                "constraint": ["grade_mirror"],
                "trophy": [
                    {
                        "name": "goldmedal",
                        "missrate": 5.0,
                        "scorerate": 70.0
                    }
                ],
                "md5": ["abc123", "def456"]
            }
        ]
    }"#;

    let result = BmsTableHeader::from_json_str(json_data);
    assert!(result.is_ok());

    let header = result.unwrap();
    assert_eq!(header.name, "Test Table");
    assert_eq!(header.symbol, "test");
    assert_eq!(header.data_url, "score.json");
    assert_eq!(header.course.len(), 1);
    assert_eq!(header.course[0].len(), 1);
    assert_eq!(header.course[0][0].name, "Course 1");

    let course = &header.course[0][0];
    assert_eq!(course.charts.len(), 2);
    assert_eq!(course.charts[0].md5, Some("abc123".to_string()));
    assert_eq!(course.charts[1].md5, Some("def456".to_string()));
}

#[test]
fn fetch_tests_test_bms_table_header_deserialize_vec_vec_course_info() {
    let json_data = r#"{
        "name": "Test Table",
        "symbol": "test",
        "data_url": "score.json",
        "course": [
            [
                {
                    "name": "Course 1",
                    "constraint": ["grade_mirror"],
                    "trophy": [
                        {
                            "name": "goldmedal",
                            "missrate": 5.0,
                            "scorerate": 70.0
                        }
                    ],
                    "md5": ["abc123", "def456"]
                }
            ],
            [
                {
                    "name": "Course 2",
                    "constraint": ["ln"],
                    "trophy": [
                        {
                            "name": "silvermedal",
                            "missrate": 10.0,
                            "scorerate": 60.0
                        }
                    ],
                    "md5": ["ghi789"]
                }
            ]
        ]
    }"#;

    let result = BmsTableHeader::from_json_str(json_data);
    assert!(result.is_ok());

    let header = result.unwrap();
    assert_eq!(header.name, "Test Table");
    assert_eq!(header.symbol, "test");
    assert_eq!(header.data_url, "score.json");
    assert_eq!(header.course.len(), 2);
    assert_eq!(header.course[0].len(), 1);
    assert_eq!(header.course[1].len(), 1);
    assert_eq!(header.course[0][0].name, "Course 1");
    assert_eq!(header.course[1][0].name, "Course 2");

    let course1 = &header.course[0][0];
    assert_eq!(course1.charts.len(), 2);
    assert_eq!(course1.charts[0].md5, Some("abc123".to_string()));
    assert_eq!(course1.charts[1].md5, Some("def456".to_string()));

    let course2 = &header.course[1][0];
    assert_eq!(course2.charts.len(), 1);
    assert_eq!(course2.charts[0].md5, Some("ghi789".to_string()));
}

#[test]
fn fetch_tests_test_course_info_deserialize_charts_with_default_level() {
    let json_data = r#"{
        "name": "Test Course",
        "constraint": ["grade_mirror"],
        "trophy": [
            {
                "name": "goldmedal",
                "missrate": 5.0,
                "scorerate": 70.0
            }
        ],
        "charts": [
            {
                "title": "Test Song",
                "artist": "Test Artist",
                "url": "https://example.com/test.bms"
            },
            {
                "level": "1",
                "title": "Test Song 2",
                "artist": "Test Artist 2",
                "url": "https://example.com/test2.bms"
            }
        ]
    }"#;

    let result = CourseInfo::from_json_str(json_data);
    assert!(result.is_ok());

    let course_info = result.unwrap();
    assert_eq!(course_info.name, "Test Course");
    assert_eq!(course_info.constraint, vec!["grade_mirror"]);
    assert_eq!(course_info.trophy.len(), 1);
    assert_eq!(course_info.charts.len(), 2);

    let first_chart = &course_info.charts[0];
    assert_eq!(first_chart.level, "0");
    assert_eq!(first_chart.title, Some("Test Song".to_string()));
    assert_eq!(first_chart.artist, Some("Test Artist".to_string()));

    let second_chart = &course_info.charts[1];
    assert_eq!(second_chart.level, "1");
    assert_eq!(second_chart.title, Some("Test Song 2".to_string()));
    assert_eq!(second_chart.artist, Some("Test Artist 2".to_string()));
}

#[test]
fn fetch_tests_test_course_info_deserialize_sha256list_to_charts() {
    let json_data = r#"{
        "name": "Test Course",
        "constraint": ["grade_mirror"],
        "trophy": [
            {
                "name": "goldmedal",
                "missrate": 5.0,
                "scorerate": 70.0
            }
        ],
        "sha256": ["sha256_hash_1", "sha256_hash_2"]
    }"#;

    let result = CourseInfo::from_json_str(json_data);
    assert!(result.is_ok());

    let course_info = result.unwrap();
    assert_eq!(course_info.name, "Test Course");
    assert_eq!(course_info.constraint, vec!["grade_mirror"]);
    assert_eq!(course_info.trophy.len(), 1);
    assert_eq!(course_info.charts.len(), 2);

    assert_eq!(
        course_info.charts[0].sha256,
        Some("sha256_hash_1".to_string())
    );
    assert_eq!(
        course_info.charts[1].sha256,
        Some("sha256_hash_2".to_string())
    );
    assert_eq!(course_info.charts[0].md5, None);
    assert_eq!(course_info.charts[1].md5, None);
}

#[test]
fn fetch_tests_test_course_info_deserialize_md5_and_sha256_to_charts() {
    let json_data = r#"{
        "name": "Test Course",
        "constraint": ["grade_mirror"],
        "trophy": [
            {
                "name": "goldmedal",
                "missrate": 5.0,
                "scorerate": 70.0
            }
        ],
        "md5": ["md5_hash_1"],
        "sha256": ["sha256_hash_1"],
        "charts": [
            {
                "level": "2",
                "title": "Existing Chart",
                "artist": "Test Artist"
            }
        ]
    }"#;

    let result = CourseInfo::from_json_str(json_data);
    assert!(result.is_ok());

    let course_info = result.unwrap();
    assert_eq!(course_info.name, "Test Course");
    assert_eq!(course_info.constraint, vec!["grade_mirror"]);
    assert_eq!(course_info.trophy.len(), 1);
    assert_eq!(course_info.charts.len(), 3);

    assert_eq!(course_info.charts[0].level, "2");
    assert_eq!(
        course_info.charts[0].title,
        Some("Existing Chart".to_string())
    );
    assert_eq!(
        course_info.charts[0].artist,
        Some("Test Artist".to_string())
    );

    assert_eq!(course_info.charts[1].md5, Some("md5_hash_1".to_string()));
    assert_eq!(course_info.charts[1].level, "0");

    assert_eq!(
        course_info.charts[2].sha256,
        Some("sha256_hash_1".to_string())
    );
    assert_eq!(course_info.charts[2].level, "0");
}
