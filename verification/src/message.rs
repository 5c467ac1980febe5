//! The message of a record.

use vstd::prelude::*;

use crate::extract::{extracted_value, find, key_text, matched, FieldSpec};
use crate::json::{member_views, Json, JsonView, Member};
use crate::style::{piece, span, span_of, Piece, Role, Span};

verus! {

/// The message of a record as it is shown: a string or a number as a
/// message, any other value by its textual form as an alert, and `null` as
/// an alert where there is no message.
pub open spec fn message_piece(found: Option<JsonView>) -> Piece {
    match found {
        Some(v) => match v {
            JsonView::Number(n) => piece(n.text(), Role::Message),
            JsonView::String(s) => piece(s, Role::Message),
            _ => piece(v.text(), Role::Alert),
        },
        None => piece("null"@, Role::Alert),
    }
}

/// The message of a record as it is shown, from the extracted message
/// value.
pub fn message_span(found: Option<&Json>) -> (r: Span)
    ensures
        r@ == message_piece(
            match found {
                Some(v) => Some(v@),
                None => None,
            },
        ),
{
    match found {
        Some(v) => match v {
            Json::Number(n) => span(n.to_text(), Role::Message),
            Json::String(s) => span(s.clone(), Role::Message),
            _ => span(v.to_text(), Role::Alert),
        },
        None => span_of("null", Role::Alert),
    }
}

/// The message of a record: that of the first candidate key that the record
/// has, with that key; an alert `null` and no key where it has none.
pub fn get_message(record: &Vec<Member>, spec: &FieldSpec) -> (r: (Span, Option<String>))
    ensures
        r.0@ == message_piece(extracted_value(member_views(record@), spec@)),
        key_text(r.1) == matched(member_views(record@), spec@),
{
    match find(record, spec) {
        Some((c, i)) => (message_span(Some(&record[i].value)), Some(spec.keys[c].clone())),
        None => (message_span(None), None),
    }
}

} // verus!
