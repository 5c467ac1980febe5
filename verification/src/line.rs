//! The line that is written for one line of input: the raw line where it is
//! no JSON, a placeholder where it is JSON but no object, and time, level,
//! message and remaining fields where it is an object.

use vstd::prelude::*;

use crate::extract::{extracted_value, key_text, matched, split_commas, texts_of, FieldSpec};
use crate::fields::{fields_pieces, get_fields, is_excluded, kept, kept_leaves_out_excluded};
use crate::json::{
    json_document, member_views, option_view, parse_json, view_of_parts, Json, JsonView, Member,
    MemberView,
};
use crate::level::{get_level, level_piece};
use crate::message::{get_message, message_piece};
use crate::style::{
    is_rendering, piece, pieces_of, render, rendering_of_plain, span_of, Piece, Role, Span,
};
use crate::time::{get_time, no_time_piece, shows_time_value};

verus! {

/// The configuration of the formatter: for each of time, level and message
/// the candidate keys, separated by commas.
#[derive(Debug, PartialEq, Eq)]
pub struct Config {
    pub time_field: String,
    pub level_field: String,
    pub message_field: String,
}

impl Default for Config {
    fn default() -> (r: Config)
        ensures
            r.time_field@ == "time,timestamp"@,
            r.level_field@ == "level,lvl"@,
            r.message_field@ == "message,msg"@,
    {
        Config {
            time_field: String::from_str("time,timestamp"),
            level_field: String::from_str("level,lvl"),
            message_field: String::from_str("message,msg"),
        }
    }
}

/// The field specifications of time, level and message.
#[derive(Debug, PartialEq, Eq)]
pub struct FieldSpecs {
    pub time: FieldSpec,
    pub level: FieldSpec,
    pub message: FieldSpec,
}

/// The model of `FieldSpecs`: for each of time, level and message the
/// candidate keys, in the order in which they are tried.
pub struct SpecsView {
    pub time: Seq<Seq<char>>,
    pub level: Seq<Seq<char>>,
    pub message: Seq<Seq<char>>,
}

impl View for FieldSpecs {
    type V = SpecsView;

    open spec fn view(&self) -> SpecsView {
        SpecsView { time: self.time@, level: self.level@, message: self.message@ }
    }
}

impl FieldSpecs {
    /// Reads the three field specifications of a configuration.
    pub fn new(config: &Config) -> (r: FieldSpecs)
        ensures
            r@.time == split_commas(config.time_field@),
            r@.level == split_commas(config.level_field@),
            r@.message == split_commas(config.message_field@),
    {
        FieldSpecs {
            time: FieldSpec::parse(config.time_field.as_str()),
            level: FieldSpec::parse(config.level_field.as_str()),
            message: FieldSpec::parse(config.message_field.as_str()),
        }
    }
}

/// What is written for a line that is JSON but no object.
pub open spec fn not_an_object() -> Seq<char> {
    "None"@
}

/// A matched key as a list of keys: the key, or nothing.
pub open spec fn present(key: Option<Seq<char>>) -> Seq<Seq<char>> {
    match key {
        Some(k) => seq![k],
        None => Seq::empty(),
    }
}

/// The keys that were matched as time, level or message of a record.
pub open spec fn matched_keys(record: Seq<MemberView>, specs: SpecsView) -> Seq<Seq<char>> {
    present(matched(record, specs.time)) + present(matched(record, specs.level)) + present(
        matched(record, specs.message),
    )
}

/// The pieces of the line of a record, given the piece of its time: time,
/// level, message and the remaining fields, a space after each of the first
/// three.
pub open spec fn record_pieces(record: Seq<MemberView>, specs: SpecsView, time: Piece) -> Seq<
    Piece,
> {
    seq![
        time,
        piece(" "@, Role::Plain),
        level_piece(extracted_value(record, specs.level)),
        piece(" "@, Role::Plain),
        message_piece(extracted_value(record, specs.message)),
        piece(" "@, Role::Plain),
    ] + fields_pieces(record, matched_keys(record, specs))
}

/// The keys that were matched as time, level and message of a record are
/// the keys of none of the fields that are left for the rest of its line.
pub proof fn matched_keys_are_left_out(record: Seq<MemberView>, specs: SpecsView)
    ensures
        forall|i: int|
            #![trigger kept(record, matched_keys(record, specs))[i]]
            0 <= i < kept(record, matched_keys(record, specs)).len() ==> {
                let key = kept(record, matched_keys(record, specs))[i].key;
                &&& matched(record, specs.time) != Some(key)
                &&& matched(record, specs.level) != Some(key)
                &&& matched(record, specs.message) != Some(key)
            },
{
    let keys = matched_keys(record, specs);
    let time = present(matched(record, specs.time));
    let level = present(matched(record, specs.level));
    let message = present(matched(record, specs.message));
    kept_leaves_out_excluded(record, keys);
    assert forall|i: int| 0 <= i < kept(record, keys).len() implies {
        let key = (#[trigger] kept(record, keys)[i]).key;
        &&& matched(record, specs.time) != Some(key)
        &&& matched(record, specs.level) != Some(key)
        &&& matched(record, specs.message) != Some(key)
    } by {
        let key = kept(record, keys)[i].key;
        assert(!is_excluded(keys, key));
        if matched(record, specs.time) == Some(key) {
            assert(keys[0] == key);
        }
        if matched(record, specs.level) == Some(key) {
            assert(keys[time.len() as int] == key);
        }
        if matched(record, specs.message) == Some(key) {
            assert(keys[(time.len() + level.len()) as int] == key);
        }
    }
}

/// Whether a piece is a way to show the time of a record.
pub open spec fn shows_time_of(record: Seq<MemberView>, specs: SpecsView, time: Piece) -> bool {
    match extracted_value(record, specs.time) {
        Some(v) => shows_time_value(v, time),
        None => time == no_time_piece(),
    }
}

/// Whether pieces are the line of a record, with its time shown in one of
/// the ways the clock and the time zone allow.
pub open spec fn is_record_line(
    record: Seq<MemberView>,
    specs: SpecsView,
    pieces: Seq<Piece>,
) -> bool {
    exists|time: Piece| #[trigger]
        shows_time_of(record, specs, time) && pieces == record_pieces(record, specs, time)
}

/// Whether pieces are the line for a line of input, given what the input
/// was parsed to.
pub open spec fn is_line_of(
    line: Seq<char>,
    parsed: Option<JsonView>,
    specs: SpecsView,
    pieces: Seq<Piece>,
) -> bool {
    match parsed {
        None => pieces == seq![piece(line, Role::Plain)],
        Some(JsonView::Object { members, text }) => is_record_line(members, specs, pieces),
        Some(_) => pieces == seq![piece(not_an_object(), Role::Plain)],
    }
}

fn push_key(keys: &mut Vec<String>, key: Option<String>)
    ensures
        texts_of(final(keys)@) == texts_of(old(keys)@) + present(key_text(key)),
{
    match key {
        Some(k) => {
            keys.push(k);
            assert(texts_of(keys@) =~= texts_of(old(keys)@) + present(key_text(key)));
        },
        None => {
            assert(texts_of(keys@) =~= texts_of(old(keys)@) + present(key_text(key)));
        },
    }
}

/// The spans of the line of a record.
pub fn format_record(record: &Vec<Member>, specs: &FieldSpecs) -> (out: Vec<Span>)
    ensures
        is_record_line(member_views(record@), specs@, pieces_of(out@)),
{
    let (time, time_key) = get_time(record, &specs.time);
    let (level, level_key) = get_level(record, &specs.level);
    let (message, message_key) = get_message(record, &specs.message);
    let mut exclude: Vec<String> = Vec::new();
    push_key(&mut exclude, time_key);
    push_key(&mut exclude, level_key);
    push_key(&mut exclude, message_key);
    proof {
        assert(texts_of(exclude@) =~= matched_keys(member_views(record@), specs@));
    }
    let mut fields = get_fields(record, &exclude);
    let ghost shown = time@;
    let mut out: Vec<Span> = Vec::new();
    out.push(time);
    out.push(span_of(" ", Role::Plain));
    out.push(level);
    out.push(span_of(" ", Role::Plain));
    out.push(message);
    out.push(span_of(" ", Role::Plain));
    out.append(&mut fields);
    proof {
        assert(pieces_of(out@) =~= record_pieces(member_views(record@), specs@, shown));
        assert(shows_time_of(member_views(record@), specs@, shown));
    }
    out
}

/// The spans of the line for a line of input, given what the input was
/// parsed to.
pub fn format_parsed(line: &str, parsed: &Option<Json>, specs: &FieldSpecs) -> (out: Vec<Span>)
    ensures
        is_line_of(line@, option_view(*parsed), specs@, pieces_of(out@)),
{
    proof {
        if parsed is Some {
            view_of_parts(parsed->0);
        }
    }
    match parsed {
        None => {
            let mut out: Vec<Span> = Vec::new();
            out.push(span_of(line, Role::Plain));
            assert(pieces_of(out@) =~= seq![piece(line@, Role::Plain)]);
            out
        },
        Some(Json::Object { members, text }) => format_record(members, specs),
        Some(_) => {
            let mut out: Vec<Span> = Vec::new();
            out.push(span_of("None", Role::Plain));
            assert(pieces_of(out@) =~= seq![piece(not_an_object(), Role::Plain)]);
            out
        },
    }
}

/// The spans of the line for a line of input.
pub fn format_line(line: &str, specs: &FieldSpecs) -> (out: Vec<Span>)
    ensures
        is_line_of(line@, json_document(line@), specs@, pieces_of(out@)),
{
    let parsed = parse_json(line);
    format_parsed(line, &parsed, specs)
}

/// Whether a text is a way to write the line for a line of input: a
/// rendering of pieces that are its line.
pub open spec fn is_output_of(line: Seq<char>, specs: SpecsView, out: Seq<char>) -> bool {
    exists|pieces: Seq<Piece>| #[trigger]
        is_line_of(line, json_document(line), specs, pieces) && is_rendering(pieces, out)
}

/// The line that is written for a line of input: the line itself where it is
/// no JSON, the placeholder where it is JSON but no object, and a rendering
/// of the record's line where it is an object.
pub fn render_line(line: &str, specs: &FieldSpecs) -> (out: String)
    ensures
        is_output_of(line@, specs@, out@),
        json_document(line@) is None ==> out@ == line@,
        json_document(line@) is Some && !(json_document(line@)->0 is Object) ==> out@
            == not_an_object(),
{
    let spans = format_line(line, specs);
    let out = render(&spans);
    proof {
        let pieces = pieces_of(spans@);
        assert(is_line_of(line@, json_document(line@), specs@, pieces));
        match json_document(line@) {
            None => {
                rendering_of_plain(line@, out@);
            },
            Some(JsonView::Object { members, text }) => {},
            Some(_) => {
                rendering_of_plain(not_an_object(), out@);
            },
        }
    }
    out
}

} // verus!
