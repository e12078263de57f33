use flashbrain::{
    DataFileKind, FileRead, JsonNumber, JsonValue, LessonError, LessonOutcome, LessonScan,
    SchemaFault, SchemaMismatch, classify, diagnose, list_lessons, load_lesson, parse_record,
    resolve_root, root_candidates, select_data_file,
};

fn from_serde(v: &serde_json::Value) -> JsonValue {
    match v {
        serde_json::Value::Null => JsonValue::Null,
        serde_json::Value::Bool(b) => JsonValue::Bool(*b),
        serde_json::Value::Number(n) => JsonValue::Number(if let Some(u) = n.as_u64() {
            JsonNumber::PosInt(u)
        } else if let Some(i) = n.as_i64() {
            JsonNumber::NegInt(i)
        } else {
            JsonNumber::Float(n.as_f64().unwrap().to_bits())
        }),
        serde_json::Value::String(s) => JsonValue::Str(s.clone()),
        serde_json::Value::Array(a) => JsonValue::Array(a.iter().map(from_serde).collect()),
        serde_json::Value::Object(m) => {
            JsonValue::Object(m.iter().map(|(k, x)| (k.clone(), from_serde(x))).collect())
        }
    }
}

fn doc(text: &str) -> JsonValue {
    from_serde(&serde_json::from_str::<serde_json::Value>(text).unwrap())
}

fn lesson_text(title: &str) -> String {
    format!(
        r#"{{"meta": {{"lesson_id": "x", "title": "{}", "date": "2025-06-29",
             "description": "d", "seconds_per_word": 0.5}},
            "items": [{{"title": "t", "acronym": "a", "item_id": "1", "text": "body",
                        "image": "/img.png",
                        "actions": [{{"type": "flash", "payload": {{"speed": 11}}}}]}}]}}"#,
        title
    )
}

fn scan(name: &str, has_training: bool, has_lesson: bool, contents: FileRead) -> LessonScan {
    LessonScan { name: name.to_string(), has_training, has_lesson, contents }
}

fn valid(name: &str, title: &str, training: bool) -> LessonScan {
    scan(name, training, !training, FileRead::Json(doc(&lesson_text(title))))
}

fn empty_dir(name: &str) -> LessonScan {
    scan(name, false, false, FileRead::Unreadable("no file".to_string()))
}

const BAD_PACE: &str = r#"{"meta": {"lesson_id": "d", "title": "Delta", "date": "x",
    "description": "y", "seconds_per_word": "fast"}, "items": []}"#;

#[test]
fn parses_a_valid_record() {
    let d = parse_record(&doc(&lesson_text("Alpha"))).unwrap();
    assert_eq!(d.meta.title, "Alpha");
    assert_eq!(d.meta.lesson_id, "x");
    assert_eq!(d.meta.seconds_per_word, JsonNumber::Float(0.5f64.to_bits()));
    assert_eq!(d.items.len(), 1);
    assert_eq!(d.items[0].acronym, "a");
    assert_eq!(d.items[0].actions[0].action_type, "flash");
    assert_eq!(d.items[0].actions[0].payload.speed, 11);
}

#[test]
fn integer_pace_is_accepted() {
    let text = lesson_text("A").replace("0.5", "2");
    let d = parse_record(&doc(&text)).unwrap();
    assert_eq!(d.meta.seconds_per_word, JsonNumber::PosInt(2));
}

#[test]
fn unknown_fields_are_ignored() {
    let text = lesson_text("A").replace("\"speed\": 11", "\"duration\": 85, \"speed\": 11");
    let d = parse_record(&doc(&text)).unwrap();
    assert_eq!(d.items[0].actions[0].payload.speed, 11);
}

#[test]
fn missing_title_is_a_meta_mismatch() {
    let text = lesson_text("A").replace("\"title\": \"A\",", "");
    assert!(matches!(parse_record(&doc(&text)), Err(SchemaMismatch::Meta)));
}

#[test]
fn string_pace_is_a_meta_mismatch() {
    assert!(matches!(parse_record(&doc(BAD_PACE)), Err(SchemaMismatch::Meta)));
}

#[test]
fn missing_items_is_an_items_mismatch() {
    let text = r#"{"meta": {"lesson_id": "x", "title": "A", "date": "d",
        "description": "e", "seconds_per_word": 1}}"#;
    assert!(matches!(parse_record(&doc(text)), Err(SchemaMismatch::Items)));
}

#[test]
fn item_without_acronym_is_an_items_mismatch() {
    let text = lesson_text("A").replace("\"acronym\": \"a\",", "");
    assert!(matches!(parse_record(&doc(&text)), Err(SchemaMismatch::Items)));
}

#[test]
fn speed_must_fit_in_u32() {
    let big = lesson_text("A").replace("\"speed\": 11", "\"speed\": 4294967296");
    assert!(matches!(parse_record(&doc(&big)), Err(SchemaMismatch::Items)));
    let max = lesson_text("A").replace("\"speed\": 11", "\"speed\": 4294967295");
    assert_eq!(parse_record(&doc(&max)).unwrap().items[0].actions[0].payload.speed, u32::MAX);
    let neg = lesson_text("A").replace("\"speed\": 11", "\"speed\": -1");
    assert!(matches!(parse_record(&doc(&neg)), Err(SchemaMismatch::Items)));
    let frac = lesson_text("A").replace("\"speed\": 11", "\"speed\": 1.5");
    assert!(matches!(parse_record(&doc(&frac)), Err(SchemaMismatch::Items)));
}

#[test]
fn a_document_that_is_no_object_is_rejected() {
    assert!(matches!(parse_record(&doc("[1, 2]")), Err(SchemaMismatch::Meta)));
}

#[test]
fn empty_items_are_valid() {
    let text = r#"{"meta": {"lesson_id": "x", "title": "A", "date": "d",
        "description": "e", "seconds_per_word": 1}, "items": []}"#;
    assert_eq!(parse_record(&doc(text)).unwrap().items.len(), 0);
}

#[test]
fn round_trip_gives_the_same_record() {
    let first = parse_record(&doc(&lesson_text("Alpha"))).unwrap();
    let second = parse_record(&first.to_json()).unwrap();
    assert_eq!(second.meta.title, first.meta.title);
    assert_eq!(second.meta.lesson_id, first.meta.lesson_id);
    assert_eq!(second.meta.date, first.meta.date);
    assert_eq!(second.meta.description, first.meta.description);
    assert_eq!(second.meta.seconds_per_word, first.meta.seconds_per_word);
    assert_eq!(second.items.len(), first.items.len());
    assert_eq!(second.items[0].title, first.items[0].title);
    assert_eq!(second.items[0].image, first.items[0].image);
    assert_eq!(second.items[0].actions[0].action_type, "flash");
    assert_eq!(second.items[0].actions[0].payload, first.items[0].actions[0].payload);
}

#[test]
fn root_candidates_in_order() {
    let c = root_candidates();
    assert_eq!(c, vec!["static/classes", "../static/classes", "../../static/classes", "./static/classes"]);
}

#[test]
fn root_is_the_first_present_candidate() {
    assert_eq!(resolve_root(&vec![false, true, true, false]).unwrap(), 1);
    assert_eq!(resolve_root(&vec![true, true, true, true]).unwrap(), 0);
    assert!(matches!(resolve_root(&vec![false, false, false, false]), Err(LessonError::RootNotFound)));
    assert!(matches!(resolve_root(&vec![]), Err(LessonError::RootNotFound)));
}

#[test]
fn file_selection_precedence() {
    assert_eq!(select_data_file(true, true, DataFileKind::Lesson), Some(DataFileKind::Lesson));
    assert_eq!(select_data_file(true, true, DataFileKind::Training), Some(DataFileKind::Training));
    assert_eq!(select_data_file(true, false, DataFileKind::Lesson), Some(DataFileKind::Training));
    assert_eq!(select_data_file(false, true, DataFileKind::Training), Some(DataFileKind::Lesson));
    assert_eq!(select_data_file(false, false, DataFileKind::Lesson), None);
    assert_eq!(DataFileKind::Training.file_name(), "training.json");
    assert_eq!(DataFileKind::Lesson.file_name(), "lesson.json");
}

#[test]
fn scenario_two_valid_lessons_and_an_empty_directory() {
    let scans = vec![valid("a", "Alpha", false), valid("b", "Beta", true), empty_dir("c")];
    let list = list_lessons(&scans);
    assert_eq!(list.len(), 2);
    let mut pairs: Vec<(String, String)> = list.iter().map(|p| (p.id.clone(), p.title.clone())).collect();
    pairs.sort();
    assert_eq!(pairs, vec![("a".to_string(), "Alpha".to_string()), ("b".to_string(), "Beta".to_string())]);
    assert_eq!(list[0].date, "2025-06-29");
    assert_eq!(list[0].description, "d");
    let r = diagnose(&scans);
    assert_eq!(r.total_directories, 3);
    assert_eq!(r.with_data_file, 2);
    assert_eq!(r.with_training, 1);
    assert_eq!(r.with_lesson, 1);
    assert_eq!(r.without_data_file, 1);
    assert_eq!(r.successful_parses, 2);
    assert_eq!(r.failed_parses, 0);
    assert_eq!(r.discrepancy, 0);
}

#[test]
fn scenario_string_pace_fails_everywhere() {
    let d = scan("d", false, true, FileRead::Json(doc(BAD_PACE)));
    let loaded = load_lesson(&"d".to_string(), true, false, true, &d.contents);
    match loaded {
        Err(LessonError::SchemaError { file, fault: SchemaFault::Mismatch(SchemaMismatch::Meta) }) => {
            assert_eq!(file, "d/lesson.json")
        }
        other => panic!("unexpected {:?}", other),
    }
    let scans = vec![valid("a", "Alpha", false), d];
    let list = list_lessons(&scans);
    assert_eq!(list.len(), 1);
    assert_eq!(list[0].id, "a");
    let r = diagnose(&scans);
    assert_eq!(r.failed_parses, 1);
    assert!(r.discrepancy >= 1);
    assert_eq!(r.discrepancy, 1);
}

#[test]
fn load_of_a_missing_lesson_is_lesson_not_found() {
    let none = FileRead::Unreadable(String::new());
    let r = load_lesson(&"nonexistent".to_string(), false, false, false, &none);
    assert!(matches!(r, Err(LessonError::LessonNotFound(ref id)) if id == "nonexistent"));
}

#[test]
fn load_of_a_malformed_file_is_a_schema_error() {
    let bad = FileRead::Malformed("expected value at line 1 column 1".to_string());
    match load_lesson(&"m".to_string(), true, true, false, &bad) {
        Err(LessonError::SchemaError { file, fault: SchemaFault::Syntax(d) }) => {
            assert_eq!(file, "m/training.json");
            assert_eq!(d, "expected value at line 1 column 1");
        }
        other => panic!("unexpected {:?}", other),
    }
}

#[test]
fn load_without_data_file_is_data_file_not_found() {
    let none = FileRead::Unreadable(String::new());
    let r = load_lesson(&"e".to_string(), true, false, false, &none);
    assert!(matches!(r, Err(LessonError::DataFileNotFound(ref id)) if id == "e"));
}

#[test]
fn load_prefers_training_and_reports_read_errors() {
    let unreadable = FileRead::Unreadable("permission denied".to_string());
    match load_lesson(&"both".to_string(), true, true, true, &unreadable) {
        Err(LessonError::ReadError { file, detail }) => {
            assert_eq!(file, "both/training.json");
            assert_eq!(detail, "permission denied");
        }
        other => panic!("unexpected {:?}", other),
    }
}

#[test]
fn load_of_a_valid_lesson() {
    let contents = FileRead::Json(doc(&lesson_text("Gamma")));
    let d = load_lesson(&"g".to_string(), true, false, true, &contents).unwrap();
    assert_eq!(d.meta.title, "Gamma");
    let missing_items = FileRead::Json(doc(r#"{"meta": {"lesson_id": "x", "title": "A",
        "date": "d", "description": "e", "seconds_per_word": 1}}"#));
    let r = load_lesson(&"g".to_string(), true, false, true, &missing_items);
    assert!(matches!(
        r,
        Err(LessonError::SchemaError { fault: SchemaFault::Mismatch(SchemaMismatch::Items), .. })
    ));
}

#[test]
fn directory_without_data_file_is_unlisted_and_counted_without() {
    let scans = vec![empty_dir("c"), valid("a", "Alpha", false)];
    let list = list_lessons(&scans);
    assert!(list.iter().all(|p| p.id != "c"));
    let r = diagnose(&scans);
    assert_eq!(r.without_data_file, 1);
    assert_eq!(r.failed_parses, 0);
    assert_eq!(classify(&scans[0]), LessonOutcome::NoDataFile);
}

#[test]
fn malformed_file_is_unlisted_and_counted_failed() {
    let missing_title = lesson_text("A").replace("\"title\": \"A\",", "");
    let scans = vec![
        scan("m", false, true, FileRead::Json(doc(&missing_title))),
        scan("s", true, false, FileRead::Malformed("bad json".to_string())),
        valid("a", "Alpha", false),
    ];
    let list = list_lessons(&scans);
    assert_eq!(list.len(), 1);
    assert_eq!(list[0].id, "a");
    let r = diagnose(&scans);
    assert_eq!(r.with_data_file, 3);
    assert_eq!(r.failed_parses, 2);
    assert_eq!(r.successful_parses, 1);
    assert_eq!(r.discrepancy, 2);
}

#[test]
fn unreadable_file_counts_in_neither_parse_count() {
    let scans = vec![scan("u", true, true, FileRead::Unreadable("gone".to_string()))];
    let r = diagnose(&scans);
    assert_eq!(r.with_data_file, 1);
    assert_eq!(r.with_lesson, 1);
    assert_eq!(r.with_training, 0);
    assert_eq!(r.successful_parses, 0);
    assert_eq!(r.failed_parses, 0);
    assert_eq!(r.discrepancy, 1);
    assert_eq!(classify(&scans[0]), LessonOutcome::Unreadable);
    assert!(list_lessons(&scans).is_empty());
}

#[test]
fn listing_never_exceeds_directory_count() {
    let scans = vec![valid("a", "A", true), valid("b", "B", false), empty_dir("c")];
    assert!(list_lessons(&scans).len() <= scans.len());
    assert!(list_lessons(&vec![]).is_empty());
    let r = diagnose(&vec![]);
    assert_eq!(r.total_directories, 0);
    assert_eq!(r.discrepancy, 0);
}
