//! The content root and its lessons: which data file each lesson uses, the
//! listing of valid lessons, the count of outcomes, and loading one lesson.
use vstd::prelude::*;
use vstd::string::*;
use crate::json::JsonValue;
use crate::schema::{TrainingData, SchemaMismatch, record_of, doc_meta, parse_record};

verus! {

// ---- Content root ----

/// The places, relative to the working directory, where the content root may
/// stand, in the order they are tried.
pub fn root_candidates() -> (r: Vec<String>)
    ensures
        r@.len() == 4,
        r@[0]@ == "static/classes"@,
        r@[1]@ == "../static/classes"@,
        r@[2]@ == "../../static/classes"@,
        r@[3]@ == "./static/classes"@,
{
    let mut r: Vec<String> = Vec::new();
    r.push("static/classes".to_owned());
    r.push("../static/classes".to_owned());
    r.push("../../static/classes".to_owned());
    r.push("./static/classes".to_owned());
    r
}

/// Why a call fails.
#[derive(Debug)]
pub enum LessonError {
    /// No candidate content root exists.
    RootNotFound,
    /// The content root exists but cannot be listed; the reason.
    DirectoryReadError(String),
    /// No lesson directory has this identifier.
    LessonNotFound(String),
    /// The lesson directory holds neither data file; the identifier.
    DataFileNotFound(String),
    /// The data file could not be read.
    ReadError { file: String, detail: String },
    /// The data file is no valid record.
    SchemaError { file: String, fault: SchemaFault },
}

/// What is wrong with a data file's content.
#[derive(Debug)]
pub enum SchemaFault {
    /// The text is no JSON; the reader's diagnostic.
    Syntax(String),
    /// The JSON does not have the shape of a record.
    Mismatch(SchemaMismatch),
}

/// The root is the first candidate that exists: `present[i]` tells whether
/// candidate `i` is an existing directory.
pub fn resolve_root(present: &Vec<bool>) -> (r: Result<usize, LessonError>)
    ensures
        match r {
            Ok(i) => i < present@.len() && present@[i as int] && forall|j: int|
                0 <= j < i ==> !#[trigger] present@[j],
            Err(e) => e is RootNotFound && forall|j: int|
                0 <= j < present@.len() ==> !#[trigger] present@[j],
        },
{
    let mut i: usize = 0;
    while i < present.len()
        invariant
            0 <= i <= present@.len(),
            forall|j: int| 0 <= j < i ==> !#[trigger] present@[j],
        decreases present@.len() - i,
    {
        if present[i] {
            return Ok(i);
        }
        i = i + 1;
    }
    Err(LessonError::RootNotFound)
}

// ---- Data file selection ----

/// The two data file variants a lesson directory may hold.
#[derive(Debug, Clone, Copy, PartialEq, Eq, Structural)]
pub enum DataFileKind {
    /// `training.json`, the older schema file.
    Training,
    /// `lesson.json`, the newer schema file.
    Lesson,
}

impl DataFileKind {
    pub open spec fn spec_file_name(self) -> Seq<char> {
        match self {
            DataFileKind::Training => "training.json"@,
            DataFileKind::Lesson => "lesson.json"@,
        }
    }

    /// The file name of this variant.
    pub fn file_name(&self) -> (r: String)
        ensures
            r@ == self.spec_file_name(),
    {
        match self {
            DataFileKind::Training => "training.json".to_owned(),
            DataFileKind::Lesson => "lesson.json".to_owned(),
        }
    }
}

/// The file to use: the preferred variant where both exist, the one that
/// exists where only one does, none where neither does.
pub open spec fn selected(has_training: bool, has_lesson: bool, prefer: DataFileKind) -> Option<DataFileKind> {
    if !has_training && !has_lesson {
        None
    } else if has_training && has_lesson {
        Some(prefer)
    } else if has_training {
        Some(DataFileKind::Training)
    } else {
        Some(DataFileKind::Lesson)
    }
}

/// Chooses the data file of a lesson directory. Listing and diagnostics
/// prefer `Lesson`; loading a single lesson prefers `Training`.
pub fn select_data_file(has_training: bool, has_lesson: bool, prefer: DataFileKind) -> (r: Option<DataFileKind>)
    ensures
        r == selected(has_training, has_lesson, prefer),
{
    if has_training && has_lesson {
        Some(prefer)
    } else if has_training {
        Some(DataFileKind::Training)
    } else if has_lesson {
        Some(DataFileKind::Lesson)
    } else {
        None
    }
}

/// The path of a lesson's data file relative to the content root.
pub open spec fn data_file_path(id: Seq<char>, kind: DataFileKind) -> Seq<char> {
    id + "/"@ + kind.spec_file_name()
}

fn file_path(id: &String, kind: DataFileKind) -> (r: String)
    ensures
        r@ == data_file_path(id@, kind),
{
    let mut r = id.clone();
    r.append("/");
    let name = kind.file_name();
    r.append(name.as_str());
    r
}

// ---- Loading one lesson ----

/// What reading a selected data file gave.
#[derive(Debug)]
pub enum FileRead {
    /// The file could not be read; the reason.
    Unreadable(String),
    /// The file was read but is no JSON; the reader's diagnostic.
    Malformed(String),
    /// The file holds this JSON document.
    Json(JsonValue),
}

/// The fault in a document that is no record, as `parse_record` reports it.
pub open spec fn mismatch_of(j: JsonValue) -> SchemaMismatch {
    if doc_meta(j) is None {
        SchemaMismatch::Meta
    } else {
        SchemaMismatch::Items
    }
}

/// Loads the record of lesson `id`. `dir_exists` tells whether the lesson
/// directory exists, `has_training` and `has_lesson` which data files it
/// holds, and `contents` what reading the file that
/// `select_data_file(has_training, has_lesson, DataFileKind::Training)` picks gave.
pub fn load_lesson(
    id: &String,
    dir_exists: bool,
    has_training: bool,
    has_lesson: bool,
    contents: &FileRead,
) -> (r: Result<TrainingData, LessonError>)
    ensures
        !dir_exists ==> (r matches Err(LessonError::LessonNotFound(x)) && x@ == id@),
        dir_exists && !has_training && !has_lesson ==> (r matches Err(
            LessonError::DataFileNotFound(x),
        ) && x@ == id@),
        dir_exists && (has_training || has_lesson) ==> ({
            let path = data_file_path(
                id@,
                selected(has_training, has_lesson, DataFileKind::Training).unwrap(),
            );
            match *contents {
                FileRead::Unreadable(msg) => r matches Err(LessonError::ReadError { file, detail })
                    && file@ == path && detail@ == msg@,
                FileRead::Malformed(msg) => r matches Err(
                    LessonError::SchemaError { file, fault: SchemaFault::Syntax(d) },
                ) && file@ == path && d@ == msg@,
                FileRead::Json(j) => match record_of(j) {
                    Some(rv) => r matches Ok(d) && d@ == rv,
                    None => r matches Err(
                        LessonError::SchemaError { file, fault: SchemaFault::Mismatch(m) },
                    ) && file@ == path && m == mismatch_of(j),
                },
            }
        }),
{
    if !dir_exists {
        return Err(LessonError::LessonNotFound(id.clone()));
    }
    let kind = match select_data_file(has_training, has_lesson, DataFileKind::Training) {
        Some(k) => k,
        None => return Err(LessonError::DataFileNotFound(id.clone())),
    };
    let file = file_path(id, kind);
    match contents {
        FileRead::Unreadable(msg) => Err(LessonError::ReadError { file, detail: msg.clone() }),
        FileRead::Malformed(msg) => Err(
            LessonError::SchemaError { file, fault: SchemaFault::Syntax(msg.clone()) },
        ),
        FileRead::Json(j) => match parse_record(j) {
            Ok(d) => Ok(d),
            Err(m) => Err(LessonError::SchemaError { file, fault: SchemaFault::Mismatch(m) }),
        },
    }
}

// ---- Scanning all lessons ----

/// One lesson directory as a scan of the content root found it.
#[derive(Debug)]
pub struct LessonScan {
    /// The directory's name, which is the lesson's identifier.
    pub name: String,
    /// Whether `training.json` exists in it.
    pub has_training: bool,
    /// Whether `lesson.json` exists in it.
    pub has_lesson: bool,
    /// What reading the file that
    /// `select_data_file(has_training, has_lesson, DataFileKind::Lesson)` picks
    /// gave; not looked at where neither file exists.
    pub contents: FileRead,
}

/// How one lesson directory fares.
#[derive(Debug, Clone, Copy, PartialEq, Eq, Structural)]
pub enum LessonOutcome {
    /// Neither data file exists.
    NoDataFile,
    /// The selected data file could not be read.
    Unreadable,
    /// The selected data file is no valid record.
    Invalid,
    /// The selected data file holds a valid record.
    Valid,
}

pub open spec fn has_data_file(s: LessonScan) -> bool {
    s.has_training || s.has_lesson
}

pub open spec fn outcome_of(s: LessonScan) -> LessonOutcome {
    if !has_data_file(s) {
        LessonOutcome::NoDataFile
    } else {
        match s.contents {
            FileRead::Unreadable(_) => LessonOutcome::Unreadable,
            FileRead::Malformed(_) => LessonOutcome::Invalid,
            FileRead::Json(j) => if record_of(j) is Some {
                LessonOutcome::Valid
            } else {
                LessonOutcome::Invalid
            },
        }
    }
}

/// Directory names in a scan are distinct, as in any one directory.
pub open spec fn names_distinct(s: Seq<LessonScan>) -> bool {
    forall|i: int, j: int| 0 <= i < s.len() && 0 <= j < s.len() && i != j ==> s[i].name@ != s[j].name@
}

/// Classifies one scanned lesson.
pub fn classify(s: &LessonScan) -> (r: LessonOutcome)
    ensures
        r == outcome_of(*s),
{
    if !(s.has_training || s.has_lesson) {
        return LessonOutcome::NoDataFile;
    }
    match &s.contents {
        FileRead::Unreadable(_) => LessonOutcome::Unreadable,
        FileRead::Malformed(_) => LessonOutcome::Invalid,
        FileRead::Json(j) => match parse_record(j) {
            Ok(_) => LessonOutcome::Valid,
            Err(_) => LessonOutcome::Invalid,
        },
    }
}

// ---- Listing ----

/// The summary of a lesson shown in a listing.
#[derive(Debug)]
pub struct LearningPath {
    /// The lesson directory's name.
    pub id: String,
    pub title: String,
    pub date: String,
    pub description: String,
}

pub ghost struct SummaryView {
    pub id: Seq<char>,
    pub title: Seq<char>,
    pub date: Seq<char>,
    pub description: Seq<char>,
}

impl View for LearningPath {
    type V = SummaryView;

    open spec fn view(&self) -> SummaryView {
        SummaryView { id: self.id@, title: self.title@, date: self.date@, description: self.description@ }
    }
}

pub open spec fn paths_view(s: Seq<LearningPath>) -> Seq<SummaryView> {
    s.map_values(|p: LearningPath| p@)
}

/// The summary of a scanned lesson whose data file holds a valid record.
pub open spec fn summary_of(s: LessonScan) -> Option<SummaryView> {
    if outcome_of(s) == LessonOutcome::Valid {
        let rv = record_of(s.contents->Json_0).unwrap();
        Some(
            SummaryView {
                id: s.name@,
                title: rv.meta.title,
                date: rv.meta.date,
                description: rv.meta.description,
            },
        )
    } else {
        None
    }
}

/// The summaries of the valid lessons of a scan, in scan order.
pub open spec fn summaries(s: Seq<LessonScan>) -> Seq<SummaryView>
    decreases s.len(),
{
    if s.len() == 0 {
        Seq::empty()
    } else {
        match summary_of(s.last()) {
            Some(x) => summaries(s.drop_last()).push(x),
            None => summaries(s.drop_last()),
        }
    }
}

fn summarize(s: &LessonScan) -> (r: Option<LearningPath>)
    ensures
        match r {
            Some(p) => summary_of(*s) == Some(p@),
            None => summary_of(*s) is None,
        },
{
    if !(s.has_training || s.has_lesson) {
        return None;
    }
    match &s.contents {
        FileRead::Json(j) => match parse_record(j) {
            Ok(d) => Some(
                LearningPath {
                    id: s.name.clone(),
                    title: d.meta.title,
                    date: d.meta.date,
                    description: d.meta.description,
                },
            ),
            Err(_) => None,
        },
        _ => None,
    }
}

/// A listing never has more entries than the scan has directories.
pub proof fn lemma_summaries_len(s: Seq<LessonScan>)
    ensures
        summaries(s).len() <= s.len(),
    decreases s.len(),
{
    if s.len() > 0 {
        lemma_summaries_len(s.drop_last());
    }
}

/// Every entry of a listing is the summary of one scanned lesson.
pub proof fn lemma_summaries_from(s: Seq<LessonScan>)
    ensures
        forall|k: int|
            0 <= k < summaries(s).len() ==> exists|i: int|
                0 <= i < s.len() && #[trigger] summary_of(s[i]) == Some(#[trigger] summaries(s)[k]),
    decreases s.len(),
{
    if s.len() > 0 {
        let p = s.drop_last();
        lemma_summaries_from(p);
        assert forall|k: int| 0 <= k < summaries(s).len() implies exists|i: int|
            0 <= i < s.len() && #[trigger] summary_of(s[i]) == Some(#[trigger] summaries(s)[k]) by {
            if k < summaries(p).len() {
                let i = choose|i: int| 0 <= i < p.len() && #[trigger] summary_of(p[i]) == Some(summaries(p)[k]);
                assert(s[i] == p[i]);
            } else {
                assert(summary_of(s[s.len() - 1]) == Some(summaries(s)[k]));
            }
        }
    }
}

/// Lists the lessons of a scan whose selected data file holds a valid
/// record; a lesson without one is left out, and the rest still listed.
pub fn list_lessons(scans: &Vec<LessonScan>) -> (r: Vec<LearningPath>)
    ensures
        paths_view(r@) == summaries(scans@),
        r@.len() <= scans@.len(),
{
    let mut out: Vec<LearningPath> = Vec::new();
    let mut i: usize = 0;
    while i < scans.len()
        invariant
            0 <= i <= scans@.len(),
            paths_view(out@) == summaries(scans@.take(i as int)),
        decreases scans@.len() - i,
    {
        assert(scans@.take(i + 1).drop_last() =~= scans@.take(i as int));
        assert(scans@.take(i + 1).last() == scans@[i as int]);
        match summarize(&scans[i]) {
            Some(p) => {
                out.push(p);
                assert(paths_view(out@) =~= summaries(scans@.take(i as int)).push(p@));
            },
            None => {},
        }
        i = i + 1;
    }
    assert(scans@.take(scans@.len() as int) =~= scans@);
    proof {
        lemma_summaries_len(scans@);
    }
    out
}

// ---- Diagnostics ----

/// How many scanned lessons satisfy `f`.
pub open spec fn count_where(s: Seq<LessonScan>, f: spec_fn(LessonScan) -> bool) -> nat
    decreases s.len(),
{
    if s.len() == 0 {
        0
    } else {
        count_where(s.drop_last(), f) + if f(s.last()) {
            1nat
        } else {
            0nat
        }
    }
}

pub open spec fn with_file_count(s: Seq<LessonScan>) -> nat {
    count_where(s, |x: LessonScan| has_data_file(x))
}

pub open spec fn training_count(s: Seq<LessonScan>) -> nat {
    count_where(
        s,
        |x: LessonScan| selected(x.has_training, x.has_lesson, DataFileKind::Lesson) == Some(DataFileKind::Training),
    )
}

pub open spec fn lesson_count(s: Seq<LessonScan>) -> nat {
    count_where(
        s,
        |x: LessonScan| selected(x.has_training, x.has_lesson, DataFileKind::Lesson) == Some(DataFileKind::Lesson),
    )
}

pub open spec fn without_file_count(s: Seq<LessonScan>) -> nat {
    count_where(s, |x: LessonScan| outcome_of(x) == LessonOutcome::NoDataFile)
}

pub open spec fn parsed_count(s: Seq<LessonScan>) -> nat {
    count_where(s, |x: LessonScan| outcome_of(x) == LessonOutcome::Valid)
}

pub open spec fn failed_count(s: Seq<LessonScan>) -> nat {
    count_where(s, |x: LessonScan| outcome_of(x) == LessonOutcome::Invalid)
}

/// The counts of a scan. `discrepancy` is the number of lessons with a data
/// file less the number whose file parsed: zero when every file present is valid.
#[derive(Debug, Clone, Copy, PartialEq, Eq, Structural)]
pub struct DiscrepancyReport {
    pub total_directories: usize,
    pub with_data_file: usize,
    /// Lessons whose selected file is `training.json`.
    pub with_training: usize,
    /// Lessons whose selected file is `lesson.json`.
    pub with_lesson: usize,
    pub without_data_file: usize,
    pub successful_parses: usize,
    /// Lessons whose selected file is no JSON or no valid record; a file that
    /// could not be read counts in neither this nor `successful_parses`.
    pub failed_parses: usize,
    pub discrepancy: usize,
}

pub proof fn lemma_count_le(s: Seq<LessonScan>, f: spec_fn(LessonScan) -> bool)
    ensures
        count_where(s, f) <= s.len(),
    decreases s.len(),
{
    if s.len() > 0 {
        lemma_count_le(s.drop_last(), f);
    }
}

/// Removing one lesson from a scan takes its own contribution off a count.
pub proof fn lemma_count_remove(s: Seq<LessonScan>, f: spec_fn(LessonScan) -> bool, i: int)
    requires
        0 <= i < s.len(),
    ensures
        count_where(s, f) == count_where(s.remove(i), f) + if f(s[i]) {
            1nat
        } else {
            0nat
        },
    decreases s.len(),
{
    if i == s.len() - 1 {
        assert(s.remove(i) =~= s.drop_last());
    } else {
        lemma_count_remove(s.drop_last(), f, i);
        assert(s.drop_last().remove(i) =~= s.remove(i).drop_last());
        assert(s.remove(i).last() == s.last());
    }
}

/// Counts the outcomes of a scan, selecting files as the listing does.
pub fn diagnose(scans: &Vec<LessonScan>) -> (r: DiscrepancyReport)
    ensures
        r.total_directories == scans@.len(),
        r.with_data_file == with_file_count(scans@),
        r.with_training == training_count(scans@),
        r.with_lesson == lesson_count(scans@),
        r.without_data_file == without_file_count(scans@),
        r.successful_parses == parsed_count(scans@),
        r.failed_parses == failed_count(scans@),
        r.discrepancy == with_file_count(scans@) - parsed_count(scans@),
{
    let mut with_file: usize = 0;
    let mut training: usize = 0;
    let mut lesson: usize = 0;
    let mut without: usize = 0;
    let mut parsed: usize = 0;
    let mut failed: usize = 0;
    let mut i: usize = 0;
    while i < scans.len()
        invariant
            0 <= i <= scans@.len(),
            with_file == with_file_count(scans@.take(i as int)),
            training == training_count(scans@.take(i as int)),
            lesson == lesson_count(scans@.take(i as int)),
            without == without_file_count(scans@.take(i as int)),
            parsed == parsed_count(scans@.take(i as int)),
            failed == failed_count(scans@.take(i as int)),
            parsed <= with_file,
        decreases scans@.len() - i,
    {
        let ghost prev = scans@.take(i as int);
        let ghost next = scans@.take(i + 1);
        proof {
            assert(next.drop_last() =~= prev);
            assert(next.last() == scans@[i as int]);
            lemma_count_le(prev, |x: LessonScan| has_data_file(x));
            lemma_count_le(prev, |x: LessonScan| selected(x.has_training, x.has_lesson, DataFileKind::Lesson) == Some(DataFileKind::Training));
            lemma_count_le(prev, |x: LessonScan| selected(x.has_training, x.has_lesson, DataFileKind::Lesson) == Some(DataFileKind::Lesson));
            lemma_count_le(prev, |x: LessonScan| outcome_of(x) == LessonOutcome::NoDataFile);
            lemma_count_le(prev, |x: LessonScan| outcome_of(x) == LessonOutcome::Invalid);
        }
        let s = &scans[i];
        match select_data_file(s.has_training, s.has_lesson, DataFileKind::Lesson) {
            Some(DataFileKind::Training) => {
                with_file = with_file + 1;
                training = training + 1;
            },
            Some(DataFileKind::Lesson) => {
                with_file = with_file + 1;
                lesson = lesson + 1;
            },
            None => {
                without = without + 1;
            },
        }
        match classify(s) {
            LessonOutcome::Valid => {
                parsed = parsed + 1;
            },
            LessonOutcome::Invalid => {
                failed = failed + 1;
            },
            _ => {},
        }
        i = i + 1;
    }
    assert(scans@.take(scans@.len() as int) =~= scans@);
    DiscrepancyReport {
        total_directories: scans.len(),
        with_data_file: with_file,
        with_training: training,
        with_lesson: lesson,
        without_data_file: without,
        successful_parses: parsed,
        failed_parses: failed,
        discrepancy: with_file - parsed,
    }
}

// ---- Laws of listing and diagnostics ----

proof fn lemma_not_listed(s: Seq<LessonScan>, i: int)
    requires
        0 <= i < s.len(),
        names_distinct(s),
        summary_of(s[i]) is None,
    ensures
        forall|k: int| 0 <= k < summaries(s).len() ==> (#[trigger] summaries(s)[k]).id != s[i].name@,
{
    lemma_summaries_from(s);
    assert forall|k: int| 0 <= k < summaries(s).len() implies (#[trigger] summaries(s)[k]).id != s[i].name@ by {
        let j = choose|j: int| 0 <= j < s.len() && #[trigger] summary_of(s[j]) == Some(summaries(s)[k]);
        assert(summaries(s)[k].id == s[j].name@);
    }
}

/// A lesson directory with neither data file is not listed, counts once
/// among those without a data file, and never among failed parses.
pub proof fn lemma_no_data_file(s: Seq<LessonScan>, i: int)
    requires
        0 <= i < s.len(),
        names_distinct(s),
        !has_data_file(s[i]),
    ensures
        forall|k: int| 0 <= k < summaries(s).len() ==> (#[trigger] summaries(s)[k]).id != s[i].name@,
        without_file_count(s) == without_file_count(s.remove(i)) + 1,
        with_file_count(s) == with_file_count(s.remove(i)),
        failed_count(s) == failed_count(s.remove(i)),
{
    lemma_not_listed(s, i);
    lemma_count_remove(s, |x: LessonScan| outcome_of(x) == LessonOutcome::NoDataFile, i);
    lemma_count_remove(s, |x: LessonScan| has_data_file(x), i);
    lemma_count_remove(s, |x: LessonScan| outcome_of(x) == LessonOutcome::Invalid, i);
}

/// A lesson directory whose data file is no JSON or no valid record is not
/// listed, and counts once among those with a data file and once among
/// failed parses.
pub proof fn lemma_malformed_data_file(s: Seq<LessonScan>, i: int)
    requires
        0 <= i < s.len(),
        names_distinct(s),
        outcome_of(s[i]) == LessonOutcome::Invalid,
    ensures
        forall|k: int| 0 <= k < summaries(s).len() ==> (#[trigger] summaries(s)[k]).id != s[i].name@,
        with_file_count(s) == with_file_count(s.remove(i)) + 1,
        failed_count(s) == failed_count(s.remove(i)) + 1,
        parsed_count(s) == parsed_count(s.remove(i)),
{
    lemma_not_listed(s, i);
    lemma_count_remove(s, |x: LessonScan| has_data_file(x), i);
    lemma_count_remove(s, |x: LessonScan| outcome_of(x) == LessonOutcome::Invalid, i);
    lemma_count_remove(s, |x: LessonScan| outcome_of(x) == LessonOutcome::Valid, i);
}

} // verus!
