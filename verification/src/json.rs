//! The value tree of one parsed JSON document, its mathematical model, and
//! the reading of a document from text.

use serde_json::Value as SerdeValue;
use vstd::prelude::*;

use crate::text::{decimal, decimal_text, signed_decimal, signed_decimal_text};

verus! {

/// A JSON number, in the three forms the parser tells apart.
#[derive(Debug, PartialEq, Eq)]
pub enum Number {
    /// An integer from zero up to `u64::MAX`.
    PosInt(u64),
    /// An integer below zero.
    NegInt(i64),
    /// Any other number, kept as the text the parser's writer gives it.
    Float(String),
}

/// One key of an object with its value.
#[derive(Debug, PartialEq, Eq)]
pub struct Member {
    pub key: String,
    pub value: Json,
}

/// A parsed JSON value. Arrays and objects keep, beside their parts, their
/// compact JSON text as the parser's writer gives it. The members of an
/// object stand in the order of the document.
#[derive(Debug, PartialEq, Eq)]
pub enum Json {
    Null,
    Bool(bool),
    Number(Number),
    String(String),
    Array { items: Vec<Json>, text: String },
    Object { members: Vec<Member>, text: String },
}

/// The model of a `Number`.
pub enum NumberView {
    PosInt(u64),
    NegInt(i64),
    Float(Seq<char>),
}

/// The model of a `Member`.
pub struct MemberView {
    pub key: Seq<char>,
    pub value: JsonView,
}

/// The model of a `Json`.
pub enum JsonView {
    Null,
    Bool(bool),
    Number(NumberView),
    String(Seq<char>),
    Array { items: Seq<JsonView>, text: Seq<char> },
    Object { members: Seq<MemberView>, text: Seq<char> },
}

impl NumberView {
    /// The number as an `i64`, where it is an integer in that range.
    pub open spec fn as_i64(self) -> Option<i64> {
        match self {
            NumberView::PosInt(u) => if u <= i64::MAX as u64 {
                Some(u as i64)
            } else {
                None
            },
            NumberView::NegInt(i) => Some(i),
            NumberView::Float(_) => None,
        }
    }

    /// The number as a `u64`, where it is an integer from zero up.
    pub open spec fn as_u64(self) -> Option<u64> {
        match self {
            NumberView::PosInt(u) => Some(u),
            _ => None,
        }
    }

    /// The number as JSON writes it.
    pub open spec fn text(self) -> Seq<char> {
        match self {
            NumberView::PosInt(u) => decimal(u as nat),
            NumberView::NegInt(i) => signed_decimal(i as int),
            NumberView::Float(t) => t,
        }
    }
}

impl JsonView {
    /// The textual form of the value: a string's characters, and the JSON
    /// text of any other value.
    pub open spec fn text(self) -> Seq<char> {
        match self {
            JsonView::Null => "null"@,
            JsonView::Bool(b) => if b {
                "true"@
            } else {
                "false"@
            },
            JsonView::Number(n) => n.text(),
            JsonView::String(s) => s,
            JsonView::Array { items, text } => text,
            JsonView::Object { members, text } => text,
        }
    }
}

impl View for Number {
    type V = NumberView;

    open spec fn view(&self) -> NumberView {
        match *self {
            Number::PosInt(u) => NumberView::PosInt(u),
            Number::NegInt(i) => NumberView::NegInt(i),
            Number::Float(t) => NumberView::Float(t@),
        }
    }
}

/// The model of a value: the same tree, with each string as its sequence of
/// characters and each list as a sequence.
pub open spec fn json_view(v: Json) -> JsonView
    decreases v,
{
    match v {
        Json::Null => JsonView::Null,
        Json::Bool(b) => JsonView::Bool(b),
        Json::Number(n) => JsonView::Number(n@),
        Json::String(s) => JsonView::String(s@),
        Json::Array { items, text } => JsonView::Array {
            items: Seq::new(
                items@.len(),
                |i: int|
                    if 0 <= i < items@.len() {
                        json_view(items@[i])
                    } else {
                        JsonView::Null
                    },
            ),
            text: text@,
        },
        Json::Object { members, text } => JsonView::Object {
            members: Seq::new(
                members@.len(),
                |i: int|
                    if 0 <= i < members@.len() {
                        MemberView { key: members@[i].key@, value: json_view(members@[i].value) }
                    } else {
                        MemberView { key: Seq::empty(), value: JsonView::Null }
                    },
            ),
            text: text@,
        },
    }
}

impl View for Json {
    type V = JsonView;

    open spec fn view(&self) -> JsonView {
        json_view(*self)
    }
}

impl View for Member {
    type V = MemberView;

    open spec fn view(&self) -> MemberView {
        MemberView { key: self.key@, value: self.value@ }
    }
}

/// The models of a sequence of values.
pub open spec fn views_of(items: Seq<Json>) -> Seq<JsonView> {
    Seq::new(items.len(), |i: int| items[i]@)
}

/// The models of a sequence of members.
pub open spec fn member_views(members: Seq<Member>) -> Seq<MemberView> {
    Seq::new(members.len(), |i: int| members[i]@)
}

/// The model of a value that may be missing.
pub open spec fn option_view(v: Option<Json>) -> Option<JsonView> {
    match v {
        Some(j) => Some(j@),
        None => None,
    }
}

/// The model of an array is made of the models of its items, and the model
/// of an object of the models of its members.
pub proof fn view_of_parts(v: Json)
    ensures
        v matches Json::Array { items, text } ==> v@ == (JsonView::Array {
            items: views_of(items@),
            text: text@,
        }),
        v matches Json::Object { members, text } ==> v@ == (JsonView::Object {
            members: member_views(members@),
            text: text@,
        }),
{
    match v {
        Json::Array { items, text } => {
            assert(v@->Array_items =~= views_of(items@));
        },
        Json::Object { members, text } => {
            assert(v@->Object_members =~= member_views(members@));
        },
        _ => {},
    }
}

impl Number {
    /// The number as an `i64`, where it is an integer in that range.
    pub fn as_i64(&self) -> (r: Option<i64>)
        ensures
            r == self@.as_i64(),
    {
        match self {
            Number::PosInt(u) => if *u <= i64::MAX as u64 {
                Some(*u as i64)
            } else {
                None
            },
            Number::NegInt(i) => Some(*i),
            Number::Float(_) => None,
        }
    }

    /// The number as a `u64`, where it is an integer from zero up.
    pub fn as_u64(&self) -> (r: Option<u64>)
        ensures
            r == self@.as_u64(),
    {
        match self {
            Number::PosInt(u) => Some(*u),
            _ => None,
        }
    }

    /// Writes the number as JSON writes it.
    pub fn to_text(&self) -> (r: String)
        ensures
            r@ == self@.text(),
    {
        match self {
            Number::PosInt(u) => decimal_text(*u),
            Number::NegInt(i) => signed_decimal_text(*i),
            Number::Float(t) => t.clone(),
        }
    }
}

impl Json {
    /// Writes the textual form of the value.
    pub fn to_text(&self) -> (r: String)
        ensures
            r@ == self@.text(),
    {
        match self {
            Json::Null => String::from_str("null"),
            Json::Bool(b) => if *b {
                String::from_str("true")
            } else {
                String::from_str("false")
            },
            Json::Number(n) => n.to_text(),
            Json::String(s) => s.clone(),
            Json::Array { items, text } => text.clone(),
            Json::Object { members, text } => text.clone(),
        }
    }
}

/// `serde_json::Value`, the parser's own value tree. It is carried from
/// the parser to `import` and never looked into by verified code.
#[verifier::external_type_specification]
#[verifier::external_body]
pub struct ExSerdeValue(serde_json::Value);

/// The document that `serde_json::from_str` reads from a text, as the
/// model of a value of this library; `None` where it reads none.
pub uninterp spec fn json_document(text: Seq<char>) -> Option<JsonView>;

/// What a `serde_json::Value` holds, as the model of a value of this
/// library.
pub uninterp spec fn imported(value: serde_json::Value) -> JsonView;

/// `serde_json::from_str` at type `serde_json::Value`. The contract names the
/// outcome: `json_document` of the text is what the returned value holds, and
/// is `None` exactly when the call fails.
#[verifier::external_body]
fn read_document(text: &str) -> (r: Option<serde_json::Value>)
    ensures
        match r {
            Some(v) => json_document(text@) == Some(imported(v)),
            None => json_document(text@) is None,
        },
{
    serde_json::from_str::<serde_json::Value>(text).ok()
}

/// Moves a `serde_json::Value` into a `Json`, variant by variant. A number
/// becomes `PosInt` where `as_u64` gives a value, else `NegInt` where
/// `as_i64` does, else `Float` with the text that `to_string` gives for it;
/// arrays and objects take what `to_string` gives for them as their text.
/// The contract only names the result.
#[verifier::external_body]
fn import(value: serde_json::Value) -> (r: Json)
    ensures
        r@ == imported(value),
{
    let text = value.to_string();
    match value {
        SerdeValue::Null => Json::Null,
        SerdeValue::Bool(b) => Json::Bool(b),
        SerdeValue::Number(n) => Json::Number(match (n.as_u64(), n.as_i64()) {
            (Some(u), _) => Number::PosInt(u),
            (_, Some(i)) => Number::NegInt(i),
            _ => Number::Float(text),
        }),
        SerdeValue::String(s) => Json::String(s),
        SerdeValue::Array(a) => Json::Array { items: a.into_iter().map(import).collect(), text },
        SerdeValue::Object(m) => Json::Object { members: m.into_iter().map(|(key, v)| Member { key, value: import(v) }).collect(), text },
    }
}

/// Reads one JSON document from a text.
pub fn parse_json(text: &str) -> (r: Option<Json>)
    ensures
        option_view(r) == json_document(text@),
{
    match read_document(text) {
        Some(v) => Some(import(v)),
        None => None,
    }
}

} // verus!
