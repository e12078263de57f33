use flashbrain::{FileDialogResult, JsonNumber, JsonValue, dialog_result};

fn to_serde(v: &JsonValue) -> serde_json::Value {
    match v {
        JsonValue::Null => serde_json::Value::Null,
        JsonValue::Bool(b) => serde_json::Value::Bool(*b),
        JsonValue::Number(JsonNumber::PosInt(n)) => serde_json::Value::from(*n),
        JsonValue::Number(JsonNumber::NegInt(n)) => serde_json::Value::from(*n),
        JsonValue::Number(JsonNumber::Float(bits)) => serde_json::Value::from(f64::from_bits(*bits)),
        JsonValue::Str(s) => serde_json::Value::String(s.clone()),
        JsonValue::Array(a) => serde_json::Value::Array(a.iter().map(to_serde).collect()),
        JsonValue::Object(m) => {
            let mut out = serde_json::Map::new();
            for (k, x) in m {
                out.insert(k.clone(), to_serde(x));
            }
            serde_json::Value::Object(out)
        }
    }
}

#[test]
fn test_file_dialog_result_serialization() {
    let result = FileDialogResult {
        success: true,
        file_path: Some("/path/to/file.json".to_string()),
        error: None,
    };

    let json = serde_json::to_string(&to_serde(&result.to_json())).unwrap();
    assert!(json.contains("success"));
    assert!(json.contains("file_path"));
    assert!(json.contains("/path/to/file.json"));
}

#[test]
fn test_file_dialog_result_cancelled() {
    let result = FileDialogResult {
        success: false,
        file_path: None,
        error: Some("Dialog was cancelled".to_string()),
    };

    let json = serde_json::to_string(&to_serde(&result.to_json())).unwrap();
    assert!(json.contains("success"));
    assert!(json.contains("Dialog was cancelled"));
}

#[test]
fn dialog_result_for_a_picked_path() {
    let r = dialog_result(Some("/tmp/a.json".to_string()));
    assert!(r.success);
    assert_eq!(r.file_path.as_deref(), Some("/tmp/a.json"));
    assert!(r.error.is_none());
}

#[test]
fn dialog_result_for_a_cancelled_dialog() {
    let r = dialog_result(None);
    assert!(!r.success);
    assert!(r.file_path.is_none());
    assert_eq!(r.error.as_deref(), Some("Dialog was cancelled"));
}

#[test]
fn dialog_result_json_has_null_for_missing_values() {
    let r = dialog_result(None);
    let v = to_serde(&r.to_json());
    assert_eq!(v["success"], serde_json::Value::Bool(false));
    assert!(v["file_path"].is_null());
    assert_eq!(v["error"], serde_json::Value::String("Dialog was cancelled".to_string()));
}
