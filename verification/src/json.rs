//! JSON documents as plain data, with parsing and pretty-printing by
//! `serde_json`.

use vstd::prelude::*;

verus! {

/// `serde_json::Number`, a JSON number as the parser keeps it. Nothing is
/// known of what is inside.
#[verifier::external_type_specification]
#[verifier::external_body]
pub struct ExNumber(serde_json::Number);

/// `serde_json::Value`, the parser's own document type. Nothing is known of
/// what is inside.
#[verifier::external_type_specification]
#[verifier::external_body]
pub struct ExValue(serde_json::Value);

/// `serde_json::Error`, why a text did not parse. Nothing is known of what
/// is inside.
#[verifier::external_type_specification]
#[verifier::external_body]
pub struct ExJsonError(serde_json::Error);

/// A JSON document. An object keeps its members in the order in which the
/// parser hands them out; a number stays the parser's own value.
#[derive(Debug, PartialEq, Eq)]
pub enum Json {
    Null,
    Bool(bool),
    Number(serde_json::Number),
    Text(String),
    Array(Vec<Json>),
    Object(Vec<(String, Json)>),
}

/// A JSON document as a mathematical value.
pub ghost enum JsonView {
    Null,
    Bool(bool),
    Number(serde_json::Number),
    Text(Seq<char>),
    Array(Seq<JsonView>),
    Object(Seq<(Seq<char>, JsonView)>),
}

/// The mathematical value of a document.
pub open spec fn json_view(doc: Json) -> JsonView
    decreases doc,
{
    match doc {
        Json::Null => JsonView::Null,
        Json::Bool(b) => JsonView::Bool(b),
        Json::Number(n) => JsonView::Number(n),
        Json::Text(t) => JsonView::Text(t@),
        Json::Array(items) => JsonView::Array(
            Seq::new(
                items@.len(),
                |i: int|
                    if 0 <= i < items@.len() {
                        json_view(items@[i])
                    } else {
                        JsonView::Null
                    },
            ),
        ),
        Json::Object(members) => JsonView::Object(
            Seq::new(
                members@.len(),
                |i: int|
                    if 0 <= i < members@.len() {
                        (members@[i].0@, json_view(members@[i].1))
                    } else {
                        (Seq::empty(), JsonView::Null)
                    },
            ),
        ),
    }
}

impl View for Json {
    type V = JsonView;

    open spec fn view(&self) -> JsonView {
        json_view(*self)
    }
}

/// The views of a run of documents, in order.
pub open spec fn items_view(items: Seq<Json>) -> Seq<JsonView> {
    Seq::new(items.len(), |i: int| items[i]@)
}

/// The views of a run of object members, in order.
pub open spec fn members_view(members: Seq<(String, Json)>) -> Seq<(Seq<char>, JsonView)> {
    Seq::new(members.len(), |i: int| (members[i].0@, members[i].1@))
}

/// The view of an array is the views of its elements; that of an object,
/// the views of its members.
pub proof fn lemma_view_unfolds(doc: Json)
    ensures
        doc matches Json::Array(items) ==> doc@ == JsonView::Array(items_view(items@)),
        doc matches Json::Object(members) ==> doc@ == JsonView::Object(members_view(members@)),
{
    match doc {
        Json::Array(items) => {
            assert(doc@->Array_0 =~= items_view(items@));
        },
        Json::Object(members) => {
            assert(doc@->Object_0 =~= members_view(members@));
        },
        _ => {},
    }
}

/// The document that `serde_json::from_str` reads from a text, `None` where
/// it refuses the text as JSON.
pub uninterp spec fn parsed(text: Seq<char>) -> Option<JsonView>;

/// The text that `serde_json::to_string_pretty` writes for a document.
pub uninterp spec fn pretty_text(doc: JsonView) -> Seq<char>;

/// The position of the first member with the given key, if there is one.
pub open spec fn position_of(members: Seq<(Seq<char>, JsonView)>, key: Seq<char>) -> Option<int>
    decreases members.len(),
{
    if members.len() == 0 {
        None
    } else if members[0].0 == key {
        Some(0)
    } else {
        match position_of(members.skip(1), key) {
            Some(i) => Some(i + 1),
            None => None,
        }
    }
}

/// The value of the first member with the given key; `None` where the
/// document is no object or has no such member.
pub open spec fn member(doc: JsonView, key: Seq<char>) -> Option<JsonView> {
    match doc {
        JsonView::Object(members) => match position_of(members, key) {
            Some(i) => Some(members[i].1),
            None => None,
        },
        _ => None,
    }
}

/// The text of the member with the given key; `None` where there is no such
/// member or it holds no text.
pub open spec fn text_member(doc: JsonView, key: Seq<char>) -> Option<Seq<char>> {
    match member(doc, key) {
        Some(JsonView::Text(t)) => Some(t),
        _ => None,
    }
}

/// The elements of the member with the given key; `None` where there is no
/// such member or it is no array.
pub open spec fn array_member(doc: JsonView, key: Seq<char>) -> Option<Seq<JsonView>> {
    match member(doc, key) {
        Some(JsonView::Array(items)) => Some(items),
        _ => None,
    }
}

/// The elements of an array decoded one by one, in order; `None` where any
/// element does not decode.
pub open spec fn all_of<T>(items: Seq<JsonView>, decode: spec_fn(JsonView) -> Option<T>) -> Option<Seq<T>> {
    if forall|i: int| 0 <= i < items.len() ==> (#[trigger] decode(items[i])).is_some() {
        Some(Seq::new(items.len(), |i: int| decode(items[i]).unwrap()))
    } else {
        None
    }
}

/// One element that does not decode spoils the whole array.
pub proof fn lemma_all_of_none<T>(
    items: Seq<JsonView>,
    decode: spec_fn(JsonView) -> Option<T>,
    at: int,
)
    requires
        0 <= at < items.len(),
        decode(items[at]).is_none(),
    ensures
        all_of(items, decode).is_none(),
{
}

/// Where every element decodes, the array decodes to the results in order.
pub proof fn lemma_all_of_some<T>(
    items: Seq<JsonView>,
    decode: spec_fn(JsonView) -> Option<T>,
    out: Seq<T>,
)
    requires
        out.len() == items.len(),
        forall|i: int| 0 <= i < items.len() ==> decode(items[i]) == Some(#[trigger] out[i]),
    ensures
        all_of(items, decode) == Some(out),
{
    assert forall|i: int| 0 <= i < items.len() implies (#[trigger] decode(items[i])).is_some() by {
        assert(decode(items[i]) == Some(out[i]));
    }
    assert(all_of(items, decode).unwrap() =~= out);
}

/// What `position_of` finds is the first position that carries the key.
pub proof fn lemma_position_of(members: Seq<(Seq<char>, JsonView)>, key: Seq<char>)
    ensures
        match position_of(members, key) {
            Some(i) => {
                &&& 0 <= i < members.len()
                &&& members[i].0 == key
                &&& forall|j: int| 0 <= j < i ==> members[j].0 != key
            },
            None => forall|j: int| 0 <= j < members.len() ==> members[j].0 != key,
        },
    decreases members.len(),
{
    if members.len() > 0 && members[0].0 != key {
        let rest = members.skip(1);
        lemma_position_of(rest, key);
        match position_of(rest, key) {
            Some(i) => {
                assert(rest[i] == members[i + 1]);
                assert forall|j: int| 0 <= j < i + 1 implies members[j].0 != key by {
                    if j > 0 {
                        assert(rest[j - 1] == members[j]);
                    }
                }
            },
            None => {
                assert forall|j: int| 0 <= j < members.len() implies members[j].0 != key by {
                    if j > 0 {
                        assert(rest[j - 1] == members[j]);
                    }
                }
            },
        }
    }
}

/// Converts a `serde_json::Value` into a document, variant by variant:
/// array elements in order, object members in the order of `Map::iter`.
#[verifier::external_body]
fn from_value(value: &serde_json::Value) -> Json {
    match value {
        serde_json::Value::Null => Json::Null,
        serde_json::Value::Bool(b) => Json::Bool(*b),
        serde_json::Value::Number(n) => Json::Number(n.clone()),
        serde_json::Value::String(s) => Json::Text(s.clone()),
        serde_json::Value::Array(items) => Json::Array(items.iter().map(from_value).collect()),
        serde_json::Value::Object(map) => Json::Object(
            map.iter().map(|(k, v)| (k.clone(), from_value(v))).collect(),
        ),
    }
}

/// Converts a document into a `serde_json::Value`, variant by variant. The
/// members of an object are collected into a `serde_json::Map`.
#[verifier::external_body]
fn to_value(doc: &Json) -> serde_json::Value {
    match doc {
        Json::Null => serde_json::Value::Null,
        Json::Bool(b) => serde_json::Value::Bool(*b),
        Json::Number(n) => serde_json::Value::Number(n.clone()),
        Json::Text(s) => serde_json::Value::String(s.clone()),
        Json::Array(items) => serde_json::Value::Array(items.iter().map(to_value).collect()),
        Json::Object(members) => serde_json::Value::Object(
            members.iter().map(|(k, v)| (k.clone(), to_value(v))).collect(),
        ),
    }
}

/// Calls `serde_json::from_str` for a `serde_json::Value`. The outcome is
/// named, not described: whether a text is JSON, and which document it is,
/// depends on the text alone.
#[verifier::external_body]
fn parse_value(text: &str) -> (r: Result<Json, serde_json::Error>)
    ensures
        match r {
            Ok(doc) => parsed(text@) == Some(doc@),
            Err(_) => parsed(text@).is_none(),
        },
{
    serde_json::from_str::<serde_json::Value>(text).map(|v| from_value(&v))
}

/// Calls `serde_json::to_string_pretty` on the document as a
/// `serde_json::Value`, which cannot fail for a value whose keys are strings.
/// The text is named, not described.
#[verifier::external_body]
fn pretty_value(doc: &Json) -> (r: String)
    ensures
        r@ == pretty_text(doc@),
{
    serde_json::to_string_pretty(&to_value(doc)).unwrap_or_default()
}

impl Json {
    /// Parses a text; `None` where the text is not JSON.
    pub fn parse(text: &str) -> (r: Option<Json>)
        ensures
            match r {
                Some(doc) => parsed(text@) == Some(doc@),
                None => parsed(text@).is_none(),
            },
    {
        match parse_value(text) {
            Ok(doc) => Some(doc),
            Err(_) => None,
        }
    }

    /// The document as indented JSON text.
    pub fn pretty(&self) -> (r: String)
        ensures
            r@ == pretty_text(self@),
    {
        pretty_value(self)
    }

    /// The value of the first member with the given key.
    pub fn get(&self, key: &str) -> (r: Option<&Json>)
        ensures
            match r {
                Some(found) => member(self@, key@) == Some(found@),
                None => member(self@, key@).is_none(),
            },
    {
        proof {
            lemma_view_unfolds(*self);
        }
        match self {
            Json::Object(members) => {
                let wanted = key.to_owned();
                let mut i: usize = 0;
                while i < members.len()
                    invariant
                        i <= members.len(),
                        self@ == JsonView::Object(members_view(members@)),
                        wanted@ == key@,
                        forall|j: int| 0 <= j < i ==> members_view(members@)[j].0 != key@,
                    decreases members.len() - i,
                {
                    if members[i].0 == wanted {
                        proof {
                            let shown = members_view(members@);
                            lemma_position_of(shown, key@);
                            assert(shown[i as int].0 == key@);
                            assert(shown[i as int].1 == members@[i as int].1@);
                        }
                        return Some(&members[i].1);
                    }
                    i = i + 1;
                }
                proof {
                    lemma_position_of(members_view(members@), key@);
                }
                None
            },
            _ => None,
        }
    }

    /// The text of the member with the given key.
    pub fn get_text(&self, key: &str) -> (r: Option<&String>)
        ensures
            match r {
                Some(t) => text_member(self@, key@) == Some(t@),
                None => text_member(self@, key@).is_none(),
            },
    {
        match self.get(key) {
            Some(Json::Text(t)) => Some(t),
            _ => None,
        }
    }

    /// The elements of the member with the given key.
    pub fn get_array(&self, key: &str) -> (r: Option<&Vec<Json>>)
        ensures
            match r {
                Some(items) => array_member(self@, key@) == Some(items_view(items@)),
                None => array_member(self@, key@).is_none(),
            },
    {
        match self.get(key) {
            Some(Json::Array(items)) => {
                proof {
                    lemma_view_unfolds(Json::Array(*items));
                }
                Some(items)
            },
            _ => None,
        }
    }
}

} // verus!
