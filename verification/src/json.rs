//! JSON documents as plain values, and their reading and writing.
//!
//! The text of a document is read and written by `serde_json`; what a
//! document holds is walked and built by the code of this library.
use crate::text::same_text;
use vstd::prelude::*;

verus! {

/// A JSON document. A number is kept as its decimal text; the members of an
/// object are kept in the order of the document.
#[derive(Debug)]
pub enum Json {
    Null,
    Bool(bool),
    Number(String),
    Text(String),
    Array(Vec<Json>),
    Object(Vec<Member>),
}

/// One member of an object.
#[derive(Debug)]
pub struct Member {
    pub name: String,
    pub value: Json,
}

/// What a document holds, as a value of specifications.
pub enum JsonValue {
    Null,
    Bool(bool),
    Number(Seq<char>),
    Text(Seq<char>),
    Array(Seq<JsonValue>),
    Object(Seq<MemberValue>),
}

/// What a member of an object holds, as a value of specifications.
pub struct MemberValue {
    pub name: Seq<char>,
    pub value: JsonValue,
}

impl View for Json {
    type V = JsonValue;

    open spec fn view(&self) -> JsonValue
        decreases self,
    {
        match self {
            Json::Null => JsonValue::Null,
            Json::Bool(b) => JsonValue::Bool(*b),
            Json::Number(text) => JsonValue::Number(text@),
            Json::Text(text) => JsonValue::Text(text@),
            Json::Array(items) => JsonValue::Array(
                Seq::new(
                    items@.len(),
                    |i: int|
                        if 0 <= i < items@.len() {
                            items@[i]@
                        } else {
                            JsonValue::Null
                        },
                ),
            ),
            Json::Object(members) => JsonValue::Object(
                Seq::new(
                    members@.len(),
                    |i: int|
                        if 0 <= i < members@.len() {
                            MemberValue { name: members@[i].name@, value: members@[i].value@ }
                        } else {
                            MemberValue { name: Seq::empty(), value: JsonValue::Null }
                        },
                ),
            ),
        }
    }
}

/// The members of an object, each by its view.
pub open spec fn members_view(members: Seq<Member>) -> Seq<MemberValue> {
    Seq::new(
        members.len(),
        |i: int| MemberValue { name: members[i].name@, value: members[i].value@ },
    )
}

/// The items of an array, each by its view.
pub open spec fn items_view(items: Seq<Json>) -> Seq<JsonValue> {
    Seq::new(items.len(), |i: int| items[i]@)
}

/// An object is viewed member by member.
pub proof fn lemma_object_view(members: Vec<Member>)
    ensures
        Json::Object(members)@ == JsonValue::Object(members_view(members@)),
{
    assert(Json::Object(members)@->Object_0 =~= members_view(members@));
}

/// An array is viewed item by item.
pub proof fn lemma_array_view(items: Vec<Json>)
    ensures
        Json::Array(items)@ == JsonValue::Array(items_view(items@)),
{
    assert(Json::Array(items)@->Array_0 =~= items_view(items@));
}

/// `serde_json::Value`, of which nothing is known here but that it exists.
#[verifier::external_type_specification]
#[verifier::external_body]
pub struct ExValue(serde_json::Value);

/// The document that `serde_json::from_str` reads from a text; `None` where
/// it refuses the text.
pub uninterp spec fn parsed_document(text: Seq<char>) -> Option<JsonValue>;

/// The text that `serde_json` writes for a document, in its compact form.
pub uninterp spec fn rendered_document(document: JsonValue) -> Seq<char>;

/// Turns a `serde_json::Value` into a document, variant for variant. A
/// number becomes the text that `serde_json::Number` displays as. Nothing is
/// claimed of the result.
#[verifier::external_body]
fn document_of_value(value: serde_json::Value) -> Json {
    match value {
        serde_json::Value::Null => Json::Null,
        serde_json::Value::Bool(b) => Json::Bool(b),
        serde_json::Value::Number(n) => Json::Number(n.to_string()),
        serde_json::Value::String(s) => Json::Text(s),
        serde_json::Value::Array(items) => Json::Array(
            items.into_iter().map(document_of_value).collect(),
        ),
        serde_json::Value::Object(members) => Json::Object(
            members.into_iter().map(
                |(name, v)| Member { name, value: document_of_value(v) },
            ).collect(),
        ),
    }
}

/// Turns a document into a `serde_json::Value`, variant for variant. The
/// text of a number is read by `serde_json::Number` itself, which reads
/// numbers only; where that refuses it, the number becomes `null`. Nothing
/// is claimed of the result.
#[verifier::external_body]
fn value_of_document(document: &Json) -> serde_json::Value {
    match document {
        Json::Null => serde_json::Value::Null,
        Json::Bool(b) => serde_json::Value::Bool(*b),
        Json::Number(text) => text.parse::<serde_json::Number>().map_or(
            serde_json::Value::Null,
            serde_json::Value::Number,
        ),
        Json::Text(s) => serde_json::Value::String(s.clone()),
        Json::Array(items) => serde_json::Value::Array(
            items.iter().map(value_of_document).collect(),
        ),
        Json::Object(members) => serde_json::Value::Object(
            members.iter().map(|m| (m.name.clone(), value_of_document(&m.value))).collect(),
        ),
    }
}

/// Reads a document from its text with `serde_json::from_str`. The contract
/// names the result and claims no more: that the same text always reads as
/// the same document.
#[verifier::external_body]
fn parse_text(text: &str) -> (document: Option<Json>)
    ensures
        match document {
            Some(d) => parsed_document(text@) == Some(d@),
            None => parsed_document(text@) is None,
        },
{
    serde_json::from_str::<serde_json::Value>(text).ok().map(document_of_value)
}

/// Writes a document as text, as `serde_json::Value` displays it. The
/// contract names the result and claims no more: that the same document is
/// always written as the same text.
#[verifier::external_body]
fn render_text(document: &Json) -> (text: String)
    ensures
        text@ == rendered_document(document@),
{
    value_of_document(document).to_string()
}

impl Json {
    /// Reads a document from its text; `None` where the text is no JSON.
    pub fn parse(text: &str) -> (document: Option<Json>)
        ensures
            match document {
                Some(d) => parsed_document(text@) == Some(d@),
                None => parsed_document(text@) is None,
            },
    {
        parse_text(text)
    }

    /// Writes the document as text, in the compact form.
    pub fn render(&self) -> (text: String)
        ensures
            text@ == rendered_document(self@),
    {
        render_text(self)
    }
}

/// The first member of an object that is called `key`.
pub open spec fn member(members: Seq<MemberValue>, key: Seq<char>) -> Option<JsonValue>
    decreases members.len(),
{
    if members.len() == 0 {
        None
    } else if members[0].name == key {
        Some(members[0].value)
    } else {
        member(members.skip(1), key)
    }
}

/// Finds the first member of an object that is called `key`.
pub fn get<'a>(members: &'a Vec<Member>, key: &str) -> (r: Option<&'a Json>)
    ensures
        match r {
            Some(value) => member(members_view(members@), key@) == Some(value@),
            None => member(members_view(members@), key@) is None,
        },
{
    let ghost all = members_view(members@);
    let mut i: usize = 0;
    proof {
        assert(all.skip(0) =~= all);
    }
    while i < members.len()
        invariant
            i <= members.len(),
            all == members_view(members@),
            member(all, key@) == member(all.skip(i as int), key@),
        decreases members.len() - i,
    {
        proof {
            assert(all.skip(i as int)[0] == all[i as int]);
            assert(all.skip(i as int).skip(1) =~= all.skip(i + 1));
        }
        if same_text(members[i].name.as_str(), key) {
            return Some(&members[i].value);
        }
        i = i + 1;
    }
    None
}

} // verus!
