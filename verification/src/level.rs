//! The level of a record: from a number or a string to a canonical label,
//! and from the label to a badge.

use vstd::prelude::*;
use vstd::utf8::is_ascii_chars;

use crate::extract::{extracted_value, find, key_text, matched, FieldSpec};
use crate::json::{member_views, Json, JsonView, Member, NumberView};
use crate::style::{piece, span, span_of, Piece, Role, Severity, Span};
use crate::text::{decimal, decimal_text, pad, padded, same_text};

verus! {

/// The width to which a badge is padded, in characters.
pub const BADGE_WIDTH: usize = 5;

/// The label of a number that names no level, from the number as it is
/// written.
pub open spec fn unknown_level(number: Seq<char>) -> Seq<char> {
    "UNKNOWN ("@ + number + ")"@
}

/// The name of a numeric level: the six known levels by their names, any
/// other number as `UNKNOWN (n)`.
pub open spec fn level_name(n: u64) -> Seq<char> {
    if n == 10 {
        "trace"@
    } else if n == 20 {
        "debug"@
    } else if n == 30 {
        "info"@
    } else if n == 40 {
        "warn"@
    } else if n == 50 {
        "error"@
    } else if n == 60 {
        "fatal"@
    } else {
        unknown_level(decimal(n as nat))
    }
}

/// The label of a numeric level: the name of the number where it is an
/// integer from zero up to `u64::MAX`, and `UNKNOWN (n)` with the number as
/// JSON writes it for any other: a negative number, a fraction.
pub open spec fn number_label(n: NumberView) -> Seq<char> {
    match n.as_u64() {
        Some(u) => level_name(u),
        None => unknown_level(n.text()),
    }
}

/// The label of a level value before it is made canonical: the label of a
/// number, a string as it is, and `invalid (v)` for any other value `v`.
pub open spec fn raw_label(v: JsonView) -> Seq<char> {
    match v {
        JsonView::Number(n) => number_label(n),
        JsonView::String(s) => s,
        _ => "invalid ("@ + v.text() + ")"@,
    }
}

/// The upper-case form of a character of the ASCII range.
pub open spec fn ascii_upper(c: char) -> char {
    if 'a' <= c <= 'z' {
        ((c as u8) - 32) as char
    } else {
        c
    }
}

/// A text with each of its characters in upper case, for a text of ASCII
/// characters.
pub open spec fn ascii_uppercased(s: Seq<char>) -> Seq<char> {
    Seq::new(s.len(), |i: int| ascii_upper(s[i]))
}

/// What `str::to_uppercase` returns for a text.
pub uninterp spec fn uppercased(s: Seq<char>) -> Seq<char>;

/// The canonical form of a label: its upper-case form. For a label of ASCII
/// characters that is stated in full; for any other it is what the
/// standard library's upper-casing returns.
pub open spec fn canonical(label: Seq<char>) -> Seq<char> {
    if is_ascii_chars(label) {
        ascii_uppercased(label)
    } else {
        uppercased(label)
    }
}

/// `str::to_uppercase`. The contract names the result, and states it for a
/// text of ASCII characters, where upper-casing turns `a` to `z` into `A` to
/// `Z` and leaves every other character as it is.
#[verifier::external_body]
fn uppercase(s: &str) -> (r: String)
    ensures
        r@ == uppercased(s@),
        is_ascii_chars(s@) ==> r@ == ascii_uppercased(s@),
{
    s.to_uppercase()
}

/// The severity that a canonical label names.
pub open spec fn severity_of(label: Seq<char>) -> Severity {
    if label == "PANIC"@ {
        Severity::Panic
    } else if label == "FATAL"@ {
        Severity::Fatal
    } else if label == "ERROR"@ {
        Severity::Error
    } else if label == "WARN"@ {
        Severity::Warn
    } else if label == "INFO"@ {
        Severity::Info
    } else if label == "DEBUG"@ {
        Severity::Debug
    } else if label == "TRACE"@ {
        Severity::Trace
    } else {
        Severity::Other
    }
}

/// The badge of a canonical label: the label padded at its end to the badge
/// width, in the style of its severity.
pub open spec fn badge(label: Seq<char>) -> Piece {
    piece(padded(label, BADGE_WIDTH as nat), Role::Badge(severity_of(label)))
}

/// The level of a record as it is shown: the badge of the canonical label
/// of the level value, and the `EMPTY` badge where there is no level.
pub open spec fn level_piece(found: Option<JsonView>) -> Piece {
    match found {
        Some(v) => badge(canonical(raw_label(v))),
        None => piece("EMPTY"@, Role::NoBadge),
    }
}

/// The label of a number that names no level, from the number as it is
/// written.
pub fn unknown_level_label(number: &str) -> (r: String)
    ensures
        r@ == unknown_level(number@),
{
    let mut r = String::from_str("UNKNOWN (");
    r.append(number);
    r.append(")");
    r
}

/// The name of a numeric level.
pub fn normalize_int_log_level(n: u64) -> (r: String)
    ensures
        r@ == level_name(n),
{
    if n == 10 {
        String::from_str("trace")
    } else if n == 20 {
        String::from_str("debug")
    } else if n == 30 {
        String::from_str("info")
    } else if n == 40 {
        String::from_str("warn")
    } else if n == 50 {
        String::from_str("error")
    } else if n == 60 {
        String::from_str("fatal")
    } else {
        let digits = decimal_text(n);
        unknown_level_label(digits.as_str())
    }
}

/// The label of a level value before it is made canonical.
pub fn level_label(v: &Json) -> (r: String)
    ensures
        r@ == raw_label(v@),
{
    match v {
        Json::Number(n) => match n.as_u64() {
            Some(number) => normalize_int_log_level(number),
            None => {
                let text = n.to_text();
                unknown_level_label(text.as_str())
            },
        },
        Json::String(s) => s.clone(),
        _ => {
            let mut r = String::from_str("invalid (");
            let text = v.to_text();
            r.append(text.as_str());
            r.append(")");
            r
        },
    }
}

/// The canonical form of a label.
pub fn canonical_label(label: &str) -> (r: String)
    ensures
        r@ == canonical(label@),
{
    uppercase(label)
}

/// The severity that a canonical label names.
pub fn severity(label: &str) -> (r: Severity)
    ensures
        r == severity_of(label@),
{
    if same_text(label, "PANIC") {
        Severity::Panic
    } else if same_text(label, "FATAL") {
        Severity::Fatal
    } else if same_text(label, "ERROR") {
        Severity::Error
    } else if same_text(label, "WARN") {
        Severity::Warn
    } else if same_text(label, "INFO") {
        Severity::Info
    } else if same_text(label, "DEBUG") {
        Severity::Debug
    } else if same_text(label, "TRACE") {
        Severity::Trace
    } else {
        Severity::Other
    }
}

/// The badge of a canonical label.
pub fn colorize_log_level(label: String) -> (r: Span)
    ensures
        r@ == badge(label@),
{
    let role = Role::Badge(severity(label.as_str()));
    span(pad(label, BADGE_WIDTH), role)
}

/// The level of a record as it is shown, from the extracted level value.
pub fn level_span(found: Option<&Json>) -> (r: Span)
    ensures
        r@ == level_piece(
            match found {
                Some(v) => Some(v@),
                None => None,
            },
        ),
{
    match found {
        Some(v) => {
            let label = level_label(v);
            colorize_log_level(canonical_label(label.as_str()))
        },
        None => span_of("EMPTY", Role::NoBadge),
    }
}

/// The level of a record: the badge of the first candidate key that the
/// record has, with that key; the `EMPTY` badge and no key where it has
/// none.
pub fn get_level(record: &Vec<Member>, spec: &FieldSpec) -> (r: (Span, Option<String>))
    ensures
        r.0@ == level_piece(extracted_value(member_views(record@), spec@)),
        key_text(r.1) == matched(member_views(record@), spec@),
{
    match find(record, spec) {
        Some((c, i)) => (level_span(Some(&record[i].value)), Some(spec.keys[c].clone())),
        None => (level_span(None), None),
    }
}

proof fn decimal_is_ascii(n: nat)
    ensures
        is_ascii_chars(decimal(n)),
    decreases n,
{
    if n >= 10 {
        decimal_is_ascii(n / 10);
    }
}

proof fn level_name_is_ascii(n: u64)
    ensures
        is_ascii_chars(level_name(n)),
{
    reveal_strlit("trace");
    reveal_strlit("debug");
    reveal_strlit("info");
    reveal_strlit("warn");
    reveal_strlit("error");
    reveal_strlit("fatal");
    reveal_strlit("UNKNOWN (");
    reveal_strlit(")");
    decimal_is_ascii(n as nat);
}

/// A numeric level and a string level are shown alike where the string is
/// the name of the number in any mix of upper and lower case.
pub proof fn number_and_name_agree(n: u64, name: Seq<char>)
    requires
        is_ascii_chars(name),
        ascii_uppercased(name) == ascii_uppercased(level_name(n)),
    ensures
        level_piece(Some(JsonView::Number(NumberView::PosInt(n)))) == level_piece(
            Some(JsonView::String(name)),
        ),
{
    level_name_is_ascii(n);
}

} // verus!
