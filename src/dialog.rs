//! The result of a native file dialog, as handed back to the host.
use vstd::prelude::*;
use crate::json::JsonValue;

verus! {

/// What a file dialog gave: the chosen path, or why there is none.
#[derive(Debug)]
pub struct FileDialogResult {
    pub success: bool,
    pub file_path: Option<String>,
    pub error: Option<String>,
}

/// The result for a dialog that returned `picked`: a path, or `None` where
/// the user cancelled it.
pub fn dialog_result(picked: Option<String>) -> (r: FileDialogResult)
    ensures
        match picked {
            Some(p) => r.success && (r.file_path matches Some(x) && x@ == p@) && r.error is None,
            None => !r.success && r.file_path is None && (r.error matches Some(e) && e@
                == "Dialog was cancelled"@),
        },
{
    match picked {
        Some(p) => FileDialogResult { success: true, file_path: Some(p), error: None },
        None => FileDialogResult {
            success: false,
            file_path: None,
            error: Some("Dialog was cancelled".to_owned()),
        },
    }
}

fn optional_str(s: &Option<String>) -> (j: JsonValue)
    ensures
        match *s {
            Some(x) => j matches JsonValue::Str(y) && y@ == x@,
            None => j is Null,
        },
{
    match s {
        Some(x) => JsonValue::Str(x.clone()),
        None => JsonValue::Null,
    }
}

impl FileDialogResult {
    /// The JSON form of this result: an object with the members `success`,
    /// `file_path` and `error`, in that order; a missing value is `null`.
    pub fn to_json(&self) -> (j: JsonValue)
        ensures
            j matches JsonValue::Object(m) && m@.len() == 3
                && m@[0].0@ == "success"@ && m@[0].1 == JsonValue::Bool(self.success)
                && m@[1].0@ == "file_path"@ && m@[2].0@ == "error"@
                && match self.file_path {
                    Some(x) => m@[1].1 matches JsonValue::Str(y) && y@ == x@,
                    None => m@[1].1 is Null,
                }
                && match self.error {
                    Some(x) => m@[2].1 matches JsonValue::Str(y) && y@ == x@,
                    None => m@[2].1 is Null,
                },
    {
        let mut m: Vec<(String, JsonValue)> = Vec::new();
        m.push(("success".to_owned(), JsonValue::Bool(self.success)));
        m.push(("file_path".to_owned(), optional_str(&self.file_path)));
        m.push(("error".to_owned(), optional_str(&self.error)));
        JsonValue::Object(m)
    }
}

} // verus!
