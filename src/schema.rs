//! The lesson record schema: its types, what a valid record is as a JSON
//! tree, the parser that checks a tree against it, and the encoder back.
use vstd::prelude::*;
use crate::json::{JsonNumber, JsonValue, member, member_from, str_member, get_member, get_str};

verus! {

/// The header of a lesson.
#[derive(Debug)]
pub struct Meta {
    pub lesson_id: String,
    pub title: String,
    pub date: String,
    pub description: String,
    /// Pacing, in seconds per word, as the number stood in the file.
    pub seconds_per_word: JsonNumber,
}

/// A full lesson record: its header and its items in order.
#[derive(Debug)]
pub struct TrainingData {
    pub meta: Meta,
    pub items: Vec<TrainingItem>,
}

/// One item of a lesson.
#[derive(Debug)]
pub struct TrainingItem {
    pub title: String,
    pub acronym: String,
    pub item_id: String,
    pub text: String,
    /// A path to an image; not checked to exist.
    pub image: String,
    pub actions: Vec<Action>,
}

/// What to do with an item; the discriminator is stored under the key `type`.
#[derive(Debug)]
pub struct Action {
    pub action_type: String,
    pub payload: ActionPayload,
}

/// The parameters of an action.
#[derive(Debug, Clone, Copy, PartialEq, Eq, Structural)]
pub struct ActionPayload {
    pub speed: u32,
}

pub ghost struct MetaView {
    pub lesson_id: Seq<char>,
    pub title: Seq<char>,
    pub date: Seq<char>,
    pub description: Seq<char>,
    pub seconds_per_word: JsonNumber,
}

pub ghost struct ActionView {
    pub action_type: Seq<char>,
    pub speed: u32,
}

pub ghost struct ItemView {
    pub title: Seq<char>,
    pub acronym: Seq<char>,
    pub item_id: Seq<char>,
    pub text: Seq<char>,
    pub image: Seq<char>,
    pub actions: Seq<ActionView>,
}

pub ghost struct RecordView {
    pub meta: MetaView,
    pub items: Seq<ItemView>,
}

impl View for Meta {
    type V = MetaView;

    open spec fn view(&self) -> MetaView {
        MetaView {
            lesson_id: self.lesson_id@,
            title: self.title@,
            date: self.date@,
            description: self.description@,
            seconds_per_word: self.seconds_per_word,
        }
    }
}

impl View for Action {
    type V = ActionView;

    open spec fn view(&self) -> ActionView {
        ActionView { action_type: self.action_type@, speed: self.payload.speed }
    }
}

impl View for TrainingItem {
    type V = ItemView;

    open spec fn view(&self) -> ItemView {
        ItemView {
            title: self.title@,
            acronym: self.acronym@,
            item_id: self.item_id@,
            text: self.text@,
            image: self.image@,
            actions: actions_view(self.actions@),
        }
    }
}

impl View for TrainingData {
    type V = RecordView;

    open spec fn view(&self) -> RecordView {
        RecordView { meta: self.meta@, items: items_view(self.items@) }
    }
}

pub open spec fn actions_view(s: Seq<Action>) -> Seq<ActionView> {
    s.map_values(|a: Action| a@)
}

pub open spec fn items_view(s: Seq<TrainingItem>) -> Seq<ItemView> {
    s.map_values(|t: TrainingItem| t@)
}

// ---- What a valid record is ----

pub open spec fn number_member(v: JsonValue, key: Seq<char>) -> Option<JsonNumber> {
    match member(v, key) {
        Some(JsonValue::Number(n)) => Some(n),
        _ => None,
    }
}

pub open spec fn array_member(v: JsonValue, key: Seq<char>) -> Option<Seq<JsonValue>> {
    match member(v, key) {
        Some(JsonValue::Array(a)) => Some(a@),
        _ => None,
    }
}

/// The speed of a payload: a non-negative integer that fits in 32 bits.
pub open spec fn speed_of(v: JsonValue) -> Option<u32> {
    match member(v, "speed"@) {
        Some(JsonValue::Number(JsonNumber::PosInt(n))) => if n <= u32::MAX {
            Some(n as u32)
        } else {
            None
        },
        _ => None,
    }
}

pub open spec fn action_of(v: JsonValue) -> Option<ActionView> {
    if str_member(v, "type"@) is Some && member(v, "payload"@) is Some && speed_of(
        member(v, "payload"@).unwrap(),
    ) is Some {
        Some(
            ActionView {
                action_type: str_member(v, "type"@).unwrap(),
                speed: speed_of(member(v, "payload"@).unwrap()).unwrap(),
            },
        )
    } else {
        None
    }
}

/// Every element is a valid action; all or nothing.
pub open spec fn actions_of(s: Seq<JsonValue>) -> Option<Seq<ActionView>> {
    if forall|i: int| 0 <= i < s.len() ==> (#[trigger] action_of(s[i])) is Some {
        Some(s.map_values(|x: JsonValue| action_of(x).unwrap()))
    } else {
        None
    }
}

pub open spec fn item_of(v: JsonValue) -> Option<ItemView> {
    if str_member(v, "title"@) is Some && str_member(v, "acronym"@) is Some && str_member(
        v,
        "item_id"@,
    ) is Some && str_member(v, "text"@) is Some && str_member(v, "image"@) is Some
        && array_member(v, "actions"@) is Some && actions_of(array_member(v, "actions"@).unwrap()) is Some {
        Some(
            ItemView {
                title: str_member(v, "title"@).unwrap(),
                acronym: str_member(v, "acronym"@).unwrap(),
                item_id: str_member(v, "item_id"@).unwrap(),
                text: str_member(v, "text"@).unwrap(),
                image: str_member(v, "image"@).unwrap(),
                actions: actions_of(array_member(v, "actions"@).unwrap()).unwrap(),
            },
        )
    } else {
        None
    }
}

/// Every element is a valid item; all or nothing.
pub open spec fn items_of(s: Seq<JsonValue>) -> Option<Seq<ItemView>> {
    if forall|i: int| 0 <= i < s.len() ==> (#[trigger] item_of(s[i])) is Some {
        Some(s.map_values(|x: JsonValue| item_of(x).unwrap()))
    } else {
        None
    }
}

pub open spec fn meta_of(v: JsonValue) -> Option<MetaView> {
    if str_member(v, "lesson_id"@) is Some && str_member(v, "title"@) is Some && str_member(
        v,
        "date"@,
    ) is Some && str_member(v, "description"@) is Some && number_member(
        v,
        "seconds_per_word"@,
    ) is Some {
        Some(
            MetaView {
                lesson_id: str_member(v, "lesson_id"@).unwrap(),
                title: str_member(v, "title"@).unwrap(),
                date: str_member(v, "date"@).unwrap(),
                description: str_member(v, "description"@).unwrap(),
                seconds_per_word: number_member(v, "seconds_per_word"@).unwrap(),
            },
        )
    } else {
        None
    }
}

/// The header of a document, if `meta` is present and valid.
pub open spec fn doc_meta(v: JsonValue) -> Option<MetaView> {
    match member(v, "meta"@) {
        Some(m) => meta_of(m),
        None => None,
    }
}

/// The items of a document, if `items` is present and every item is valid.
pub open spec fn doc_items(v: JsonValue) -> Option<Seq<ItemView>> {
    match array_member(v, "items"@) {
        Some(a) => items_of(a),
        None => None,
    }
}

/// The record a document holds: `None` unless every required field is there
/// with its type. Members the schema does not name are ignored.
pub open spec fn record_of(v: JsonValue) -> Option<RecordView> {
    if doc_meta(v) is Some && doc_items(v) is Some {
        Some(RecordView { meta: doc_meta(v).unwrap(), items: doc_items(v).unwrap() })
    } else {
        None
    }
}

// ---- The parser ----

/// Which top-level part of a document fails the schema.
#[derive(Debug, Clone, Copy, PartialEq, Eq, Structural)]
pub enum SchemaMismatch {
    /// `meta` is missing, or one of its fields is missing or of the wrong type.
    Meta,
    /// `meta` is valid; `items` is missing or one of its items is invalid.
    Items,
}

fn parse_payload(v: &JsonValue) -> (r: Option<ActionPayload>)
    ensures
        match r {
            Some(p) => speed_of(*v) == Some(p.speed),
            None => speed_of(*v) is None,
        },
{
    match get_member(v, "speed") {
        Some(JsonValue::Number(JsonNumber::PosInt(n))) => {
            if *n <= u32::MAX as u64 {
                Some(ActionPayload { speed: *n as u32 })
            } else {
                None
            }
        },
        _ => None,
    }
}

fn parse_action(v: &JsonValue) -> (r: Option<Action>)
    ensures
        match r {
            Some(a) => action_of(*v) == Some(a@),
            None => action_of(*v) is None,
        },
{
    let action_type = get_str(v, "type")?;
    let payload = parse_payload(get_member(v, "payload")?)?;
    Some(Action { action_type, payload })
}

fn parse_actions(a: &Vec<JsonValue>) -> (r: Option<Vec<Action>>)
    ensures
        match r {
            Some(x) => actions_of(a@) == Some(actions_view(x@)),
            None => actions_of(a@) is None,
        },
{
    let mut out: Vec<Action> = Vec::new();
    let mut i: usize = 0;
    while i < a.len()
        invariant
            0 <= i <= a@.len(),
            out@.len() == i,
            forall|j: int| 0 <= j < i ==> (#[trigger] action_of(a@[j])) == Some(out@[j]@),
        decreases a@.len() - i,
    {
        let x = parse_action(&a[i])?;
        out.push(x);
        i = i + 1;
    }
    assert(actions_view(out@) =~= a@.map_values(|x: JsonValue| action_of(x).unwrap()));
    Some(out)
}

fn parse_item(v: &JsonValue) -> (r: Option<TrainingItem>)
    ensures
        match r {
            Some(t) => item_of(*v) == Some(t@),
            None => item_of(*v) is None,
        },
{
    let title = get_str(v, "title")?;
    let acronym = get_str(v, "acronym")?;
    let item_id = get_str(v, "item_id")?;
    let text = get_str(v, "text")?;
    let image = get_str(v, "image")?;
    let actions = match get_member(v, "actions") {
        Some(JsonValue::Array(a)) => parse_actions(a)?,
        _ => return None,
    };
    Some(TrainingItem { title, acronym, item_id, text, image, actions })
}

fn parse_items(a: &Vec<JsonValue>) -> (r: Option<Vec<TrainingItem>>)
    ensures
        match r {
            Some(x) => items_of(a@) == Some(items_view(x@)),
            None => items_of(a@) is None,
        },
{
    let mut out: Vec<TrainingItem> = Vec::new();
    let mut i: usize = 0;
    while i < a.len()
        invariant
            0 <= i <= a@.len(),
            out@.len() == i,
            forall|j: int| 0 <= j < i ==> (#[trigger] item_of(a@[j])) == Some(out@[j]@),
        decreases a@.len() - i,
    {
        let x = parse_item(&a[i])?;
        out.push(x);
        i = i + 1;
    }
    assert(items_view(out@) =~= a@.map_values(|x: JsonValue| item_of(x).unwrap()));
    Some(out)
}

fn parse_meta(v: &JsonValue) -> (r: Option<Meta>)
    ensures
        match r {
            Some(m) => meta_of(*v) == Some(m@),
            None => meta_of(*v) is None,
        },
{
    let lesson_id = get_str(v, "lesson_id")?;
    let title = get_str(v, "title")?;
    let date = get_str(v, "date")?;
    let description = get_str(v, "description")?;
    let seconds_per_word = match get_member(v, "seconds_per_word") {
        Some(JsonValue::Number(n)) => *n,
        _ => return None,
    };
    Some(Meta { lesson_id, title, date, description, seconds_per_word })
}

/// Checks a document against the schema and builds the record it holds.
/// Nothing partial comes back: either the whole record or the first part that fails.
pub fn parse_record(v: &JsonValue) -> (r: Result<TrainingData, SchemaMismatch>)
    ensures
        match r {
            Ok(d) => record_of(*v) == Some(d@),
            Err(SchemaMismatch::Meta) => doc_meta(*v) is None,
            Err(SchemaMismatch::Items) => doc_meta(*v) is Some && doc_items(*v) is None,
        },
        r is Ok <==> record_of(*v) is Some,
{
    let meta = match get_member(v, "meta") {
        Some(m) => match parse_meta(m) {
            Some(x) => x,
            None => return Err(SchemaMismatch::Meta),
        },
        None => return Err(SchemaMismatch::Meta),
    };
    let items = match get_member(v, "items") {
        Some(JsonValue::Array(a)) => match parse_items(a) {
            Some(x) => x,
            None => return Err(SchemaMismatch::Items),
        },
        _ => return Err(SchemaMismatch::Items),
    };
    Ok(TrainingData { meta, items })
}

// ---- The encoder ----

/// Member `i` of `m` is `key` with the string `val`.
pub open spec fn str_entry(m: Seq<(String, JsonValue)>, i: int, key: Seq<char>, val: Seq<char>) -> bool {
    &&& m[i].0@ == key
    &&& m[i].1 matches JsonValue::Str(s) && s@ == val
}

/// `j` is the object `{"speed": n}`.
pub open spec fn encodes_payload(j: JsonValue, speed: u32) -> bool {
    &&& j matches JsonValue::Object(m)
    &&& j->Object_0@.len() == 1
    &&& j->Object_0@[0].0@ == "speed"@
    &&& j->Object_0@[0].1 == JsonValue::Number(JsonNumber::PosInt(speed as u64))
}

/// `j` is the object `{"type": .., "payload": ..}` written for `a`.
pub open spec fn encodes_action(j: JsonValue, a: ActionView) -> bool {
    &&& j matches JsonValue::Object(m)
    &&& j->Object_0@.len() == 2
    &&& str_entry(j->Object_0@, 0, "type"@, a.action_type)
    &&& j->Object_0@[1].0@ == "payload"@
    &&& encodes_payload(j->Object_0@[1].1, a.speed)
}

/// `j` is the object written for the item `t`, its fields in declaration order.
pub open spec fn encodes_item(j: JsonValue, t: ItemView) -> bool {
    &&& j matches JsonValue::Object(m)
    &&& j->Object_0@.len() == 6
    &&& str_entry(j->Object_0@, 0, "title"@, t.title)
    &&& str_entry(j->Object_0@, 1, "acronym"@, t.acronym)
    &&& str_entry(j->Object_0@, 2, "item_id"@, t.item_id)
    &&& str_entry(j->Object_0@, 3, "text"@, t.text)
    &&& str_entry(j->Object_0@, 4, "image"@, t.image)
    &&& j->Object_0@[5].0@ == "actions"@
    &&& j->Object_0@[5].1 matches JsonValue::Array(a)
    &&& j->Object_0@[5].1->Array_0@.len() == t.actions.len()
    &&& forall|k: int|
        0 <= k < t.actions.len() ==> #[trigger] encodes_action(
            j->Object_0@[5].1->Array_0@[k],
            t.actions[k],
        )
}

/// `j` is the object written for the header `mv`.
pub open spec fn encodes_meta(j: JsonValue, mv: MetaView) -> bool {
    &&& j matches JsonValue::Object(m)
    &&& j->Object_0@.len() == 5
    &&& str_entry(j->Object_0@, 0, "lesson_id"@, mv.lesson_id)
    &&& str_entry(j->Object_0@, 1, "title"@, mv.title)
    &&& str_entry(j->Object_0@, 2, "date"@, mv.date)
    &&& str_entry(j->Object_0@, 3, "description"@, mv.description)
    &&& j->Object_0@[4].0@ == "seconds_per_word"@
    &&& j->Object_0@[4].1 == JsonValue::Number(mv.seconds_per_word)
}

/// `j` is the document `{"meta": .., "items": [..]}` written for `rv`.
pub open spec fn encodes_record(j: JsonValue, rv: RecordView) -> bool {
    &&& j matches JsonValue::Object(m)
    &&& j->Object_0@.len() == 2
    &&& j->Object_0@[0].0@ == "meta"@
    &&& encodes_meta(j->Object_0@[0].1, rv.meta)
    &&& j->Object_0@[1].0@ == "items"@
    &&& j->Object_0@[1].1 matches JsonValue::Array(a)
    &&& j->Object_0@[1].1->Array_0@.len() == rv.items.len()
    &&& forall|k: int|
        0 <= k < rv.items.len() ==> #[trigger] encodes_item(
            j->Object_0@[1].1->Array_0@[k],
            rv.items[k],
        )
}

fn str_value(s: &String) -> (j: JsonValue)
    ensures
        j matches JsonValue::Str(x) && x@ == s@,
{
    JsonValue::Str(s.clone())
}

impl Action {
    /// The JSON form of this action.
    pub fn to_json(&self) -> (j: JsonValue)
        ensures
            encodes_action(j, self@),
    {
        let mut p: Vec<(String, JsonValue)> = Vec::new();
        p.push(("speed".to_owned(), JsonValue::Number(JsonNumber::PosInt(self.payload.speed as u64))));
        let mut m: Vec<(String, JsonValue)> = Vec::new();
        m.push(("type".to_owned(), str_value(&self.action_type)));
        m.push(("payload".to_owned(), JsonValue::Object(p)));
        JsonValue::Object(m)
    }
}

impl TrainingItem {
    /// The JSON form of this item.
    pub fn to_json(&self) -> (j: JsonValue)
        ensures
            encodes_item(j, self@),
    {
        let mut acts: Vec<JsonValue> = Vec::new();
        let mut i: usize = 0;
        while i < self.actions.len()
            invariant
                0 <= i <= self.actions@.len(),
                acts@.len() == i,
                forall|k: int| 0 <= k < i ==> #[trigger] encodes_action(acts@[k], self.actions@[k]@),
            decreases self.actions@.len() - i,
        {
            acts.push(self.actions[i].to_json());
            i = i + 1;
        }
        let mut m: Vec<(String, JsonValue)> = Vec::new();
        m.push(("title".to_owned(), str_value(&self.title)));
        m.push(("acronym".to_owned(), str_value(&self.acronym)));
        m.push(("item_id".to_owned(), str_value(&self.item_id)));
        m.push(("text".to_owned(), str_value(&self.text)));
        m.push(("image".to_owned(), str_value(&self.image)));
        m.push(("actions".to_owned(), JsonValue::Array(acts)));
        JsonValue::Object(m)
    }
}

impl Meta {
    /// The JSON form of this header.
    pub fn to_json(&self) -> (j: JsonValue)
        ensures
            encodes_meta(j, self@),
    {
        let mut m: Vec<(String, JsonValue)> = Vec::new();
        m.push(("lesson_id".to_owned(), str_value(&self.lesson_id)));
        m.push(("title".to_owned(), str_value(&self.title)));
        m.push(("date".to_owned(), str_value(&self.date)));
        m.push(("description".to_owned(), str_value(&self.description)));
        m.push(("seconds_per_word".to_owned(), JsonValue::Number(self.seconds_per_word)));
        JsonValue::Object(m)
    }
}

impl TrainingData {
    /// The JSON form of this record: the document that `parse_record` reads back.
    pub fn to_json(&self) -> (j: JsonValue)
        ensures
            encodes_record(j, self@),
    {
        let mut items: Vec<JsonValue> = Vec::new();
        let mut i: usize = 0;
        while i < self.items.len()
            invariant
                0 <= i <= self.items@.len(),
                items@.len() == i,
                forall|k: int| 0 <= k < i ==> #[trigger] encodes_item(items@[k], self.items@[k]@),
            decreases self.items@.len() - i,
        {
            items.push(self.items[i].to_json());
            i = i + 1;
        }
        let mut m: Vec<(String, JsonValue)> = Vec::new();
        m.push(("meta".to_owned(), self.meta.to_json()));
        m.push(("items".to_owned(), JsonValue::Array(items)));
        JsonValue::Object(m)
    }
}

// ---- Round trip ----

/// The keys of one object differ from each other.
proof fn lemma_keys_distinct()
    ensures
        "type"@ != "payload"@,
        "title"@ != "acronym"@ && "title"@ != "item_id"@ && "title"@ != "text"@,
        "title"@ != "image"@ && "title"@ != "actions"@,
        "acronym"@ != "item_id"@ && "acronym"@ != "text"@ && "acronym"@ != "image"@,
        "acronym"@ != "actions"@,
        "item_id"@ != "text"@ && "item_id"@ != "image"@ && "item_id"@ != "actions"@,
        "text"@ != "image"@ && "text"@ != "actions"@ && "image"@ != "actions"@,
        "lesson_id"@ != "title"@ && "lesson_id"@ != "date"@ && "lesson_id"@ != "description"@,
        "lesson_id"@ != "seconds_per_word"@,
        "title"@ != "date"@ && "title"@ != "description"@ && "title"@ != "seconds_per_word"@,
        "date"@ != "description"@ && "date"@ != "seconds_per_word"@,
        "description"@ != "seconds_per_word"@,
        "meta"@ != "items"@,
{
    reveal_strlit("type");
    reveal_strlit("payload");
    reveal_strlit("title");
    reveal_strlit("acronym");
    reveal_strlit("item_id");
    reveal_strlit("text");
    reveal_strlit("image");
    reveal_strlit("actions");
    reveal_strlit("lesson_id");
    reveal_strlit("date");
    reveal_strlit("description");
    reveal_strlit("seconds_per_word");
    reveal_strlit("meta");
    reveal_strlit("items");
    assert("type"@.len() == 4 && "payload"@.len() == 7);
    assert("title"@.len() == 5 && "acronym"@.len() == 7 && "item_id"@.len() == 7);
    assert("text"@.len() == 4 && "image"@.len() == 5 && "actions"@.len() == 7);
    assert("lesson_id"@.len() == 9 && "date"@.len() == 4 && "description"@.len() == 11);
    assert("seconds_per_word"@.len() == 16 && "meta"@.len() == 4 && "items"@.len() == 5);
    assert("title"@[0] != "image"@[0]);
    assert("acronym"@[0] != "item_id"@[0]);
    assert("acronym"@[2] != "actions"@[2]);
    assert("item_id"@[0] != "actions"@[0]);
}

proof fn lemma_action_round_trip(j: JsonValue, a: ActionView)
    requires
        encodes_action(j, a),
    ensures
        action_of(j) == Some(a),
{
    reveal_with_fuel(member_from, 3);
    lemma_keys_distinct();
    assert(member(j, "payload"@) == Some(j->Object_0@[1].1));
}

proof fn lemma_item_round_trip(j: JsonValue, t: ItemView)
    requires
        encodes_item(j, t),
    ensures
        item_of(j) == Some(t),
{
    reveal_with_fuel(member_from, 7);
    lemma_keys_distinct();
    let a = j->Object_0@[5].1->Array_0@;
    assert(array_member(j, "actions"@) == Some(a));
    assert forall|k: int| 0 <= k < a.len() implies #[trigger] action_of(a[k]) == Some(t.actions[k]) by {
        lemma_action_round_trip(a[k], t.actions[k]);
    }
    assert(a.map_values(|x: JsonValue| action_of(x).unwrap()) =~= t.actions);
}

proof fn lemma_meta_round_trip(j: JsonValue, mv: MetaView)
    requires
        encodes_meta(j, mv),
    ensures
        meta_of(j) == Some(mv),
{
    reveal_with_fuel(member_from, 6);
    lemma_keys_distinct();
}

/// Reading back what `to_json` wrote gives the record that was written.
pub proof fn lemma_encode_then_parse(j: JsonValue, rv: RecordView)
    requires
        encodes_record(j, rv),
    ensures
        record_of(j) == Some(rv),
{
    reveal_with_fuel(member_from, 3);
    lemma_keys_distinct();
    let a = j->Object_0@[1].1->Array_0@;
    assert(member(j, "meta"@) == Some(j->Object_0@[0].1));
    lemma_meta_round_trip(j->Object_0@[0].1, rv.meta);
    assert(array_member(j, "items"@) == Some(a));
    assert forall|k: int| 0 <= k < a.len() implies #[trigger] item_of(a[k]) == Some(rv.items[k]) by {
        lemma_item_round_trip(a[k], rv.items[k]);
    }
    assert(a.map_values(|x: JsonValue| item_of(x).unwrap()) =~= rv.items);
}

/// Round trip: a document that parses, written out again and parsed again,
/// gives the identical record.
pub proof fn lemma_round_trip(doc: JsonValue, rewritten: JsonValue)
    requires
        record_of(doc) is Some,
        encodes_record(rewritten, record_of(doc).unwrap()),
    ensures
        record_of(rewritten) == record_of(doc),
{
    lemma_encode_then_parse(rewritten, record_of(doc).unwrap());
}

} // verus!
