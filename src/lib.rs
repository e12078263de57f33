//! Discovery, validation and aggregation of lesson data files kept under a
//! content root: one subdirectory per lesson, each holding `lesson.json` or
//! `training.json`.
pub mod json;
pub mod schema;
pub mod catalog;
pub mod dialog;

pub use json::{JsonNumber, JsonValue};
pub use schema::{Action, ActionPayload, Meta, SchemaMismatch, TrainingData, TrainingItem, parse_record};
pub use catalog::{
    DataFileKind, DiscrepancyReport, FileRead, LearningPath, LessonError, LessonOutcome, LessonScan,
    SchemaFault, classify, diagnose, list_lessons, load_lesson, resolve_root, root_candidates,
    select_data_file,
};
pub use dialog::{FileDialogResult, dialog_result};
