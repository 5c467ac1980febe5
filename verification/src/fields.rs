//! The fields of a record that are neither its time, its level nor its
//! message: `key=value` pairs, with nested arrays and objects written out.

use vstd::prelude::*;

use crate::extract::texts_of;
use crate::json::{member_views, view_of_parts, views_of, Json, JsonView, Member, MemberView};
use crate::style::{piece, pieces_of, span, span_of, Piece, Role, Span};

verus! {

/// A text between double quotes, its characters unchanged.
pub open spec fn quoted(s: Seq<char>) -> Seq<char> {
    "\""@ + s + "\""@
}

/// A truth value as JSON writes it.
pub open spec fn bool_text(b: bool) -> Seq<char> {
    if b {
        "true"@
    } else {
        "false"@
    }
}

/// The pieces of a value: a quoted string, a number, a truth value or `null`
/// in the style of its kind; an array as `[v, v, ...]` and an object as
/// `{k:v, k:v, ...}`, each with its marks in a style of its own.
pub open spec fn value_pieces(v: JsonView) -> Seq<Piece>
    decreases v,
{
    match v {
        JsonView::Null => seq![piece("null"@, Role::FieldNull)],
        JsonView::Bool(b) => seq![piece(bool_text(b), Role::FieldBool)],
        JsonView::Number(n) => seq![piece(n.text(), Role::FieldNumber)],
        JsonView::String(s) => seq![piece(quoted(s), Role::FieldString)],
        JsonView::Array { items, text } => seq![piece("["@, Role::ArrayMark)] + items_pieces(
            items,
            items.len(),
        ) + seq![piece("]"@, Role::ArrayMark)],
        JsonView::Object { members, text } => seq![piece("{"@, Role::ObjectMark)]
            + members_pieces(members, members.len()) + seq![piece("}"@, Role::ObjectMark)],
    }
}

/// The pieces of the first `n` items of an array, a comma and a space
/// between one item and the next.
pub open spec fn items_pieces(items: Seq<JsonView>, n: nat) -> Seq<Piece>
    decreases items, n,
{
    if n == 0 || n > items.len() {
        Seq::empty()
    } else if n == 1 {
        value_pieces(items[0])
    } else {
        items_pieces(items, (n - 1) as nat) + seq![piece(", "@, Role::ArrayMark)] + value_pieces(
            items[n - 1],
        )
    }
}

/// The pieces of the first `n` members of a nested object: each as key,
/// colon, value, with a comma and a space between one member and the next.
pub open spec fn members_pieces(members: Seq<MemberView>, n: nat) -> Seq<Piece>
    decreases members, n,
{
    if n == 0 || n > members.len() {
        Seq::empty()
    } else if n == 1 {
        seq![piece(members[0].key, Role::Muted), piece(":"@, Role::ObjectMark)] + value_pieces(
            members[0].value,
        )
    } else {
        members_pieces(members, (n - 1) as nat) + seq![
            piece(", "@, Role::ObjectMark),
            piece(members[n - 1].key, Role::Muted),
            piece(":"@, Role::ObjectMark),
        ] + value_pieces(members[n - 1].value)
    }
}

/// The pieces of one field of a record: key, equals sign, value.
pub open spec fn field_pieces(member: MemberView) -> Seq<Piece> {
    seq![piece(member.key, Role::Muted), piece("="@, Role::Plain)] + value_pieces(member.value)
}

/// The pieces of fields, a space between one field and the next.
pub open spec fn joined_fields(members: Seq<MemberView>) -> Seq<Piece>
    decreases members.len(),
{
    if members.len() == 0 {
        Seq::empty()
    } else if members.len() == 1 {
        field_pieces(members[0])
    } else {
        joined_fields(members.drop_last()) + seq![piece(" "@, Role::Plain)] + field_pieces(
            members.last(),
        )
    }
}

/// Whether a key is among the excluded ones.
pub open spec fn is_excluded(exclude: Seq<Seq<char>>, key: Seq<char>) -> bool {
    exclude.contains(key)
}

/// The members of a record whose keys are not excluded, in the record's
/// order.
pub open spec fn kept(record: Seq<MemberView>, exclude: Seq<Seq<char>>) -> Seq<MemberView> {
    record.filter(|m: MemberView| !is_excluded(exclude, m.key))
}

/// The pieces of the fields of a record that are left after the excluded
/// keys are taken out.
pub open spec fn fields_pieces(record: Seq<MemberView>, exclude: Seq<Seq<char>>) -> Seq<Piece> {
    joined_fields(kept(record, exclude))
}

/// Of the fields that are left none has an excluded key, and each is a
/// member of the record.
pub proof fn kept_leaves_out_excluded(record: Seq<MemberView>, exclude: Seq<Seq<char>>)
    ensures
        forall|i: int|
            0 <= i < kept(record, exclude).len() ==> !is_excluded(
                exclude,
                (#[trigger] kept(record, exclude)[i]).key,
            ),
        forall|i: int|
            0 <= i < kept(record, exclude).len() ==> record.contains(
                #[trigger] kept(record, exclude)[i],
            ),
{
    let keep = |m: MemberView| !is_excluded(exclude, m.key);
    assert forall|i: int| 0 <= i < kept(record, exclude).len() implies !is_excluded(
        exclude,
        (#[trigger] kept(record, exclude)[i]).key,
    ) && record.contains(kept(record, exclude)[i]) by {
        record.lemma_filter_pred(keep, i);
        assert(record.filter(keep).contains(record.filter(keep)[i]));
        record.lemma_filter_contains_rev(keep, record.filter(keep)[i]);
    }
}

/// A member of the record whose key is not excluded is among the fields
/// that are left.
pub proof fn kept_holds_the_rest(record: Seq<MemberView>, exclude: Seq<Seq<char>>, i: int)
    requires
        0 <= i < record.len(),
        !is_excluded(exclude, record[i].key),
    ensures
        kept(record, exclude).contains(record[i]),
{
    let keep = |m: MemberView| !is_excluded(exclude, m.key);
    record.lemma_filter_contains(keep, i);
}

proof fn pieces_of_push(spans: Seq<Span>, last: Span)
    ensures
        pieces_of(spans.push(last)) == pieces_of(spans).push(last@),
{
    assert(pieces_of(spans.push(last)) =~= pieces_of(spans).push(last@));
}

fn push_span(out: &mut Vec<Span>, s: Span)
    ensures
        pieces_of(final(out)@) == pieces_of(old(out)@).push(s@),
{
    proof {
        pieces_of_push(out@, s);
    }
    out.push(s);
}

/// Appends the spans of a value.
pub fn push_value(v: &Json, out: &mut Vec<Span>)
    ensures
        pieces_of(final(out)@) == pieces_of(old(out)@) + value_pieces(v@),
    decreases v,
{
    let ghost before = pieces_of(out@);
    proof {
        view_of_parts(*v);
    }
    match v {
        Json::Null => {
            push_span(out, span_of("null", Role::FieldNull));
            assert(pieces_of(out@) =~= before + value_pieces(v@));
        },
        Json::Bool(b) => {
            let text = if *b {
                "true"
            } else {
                "false"
            };
            push_span(out, span_of(text, Role::FieldBool));
            assert(pieces_of(out@) =~= before + value_pieces(v@));
        },
        Json::Number(n) => {
            push_span(out, span(n.to_text(), Role::FieldNumber));
            assert(pieces_of(out@) =~= before + value_pieces(v@));
        },
        Json::String(s) => {
            let mut text = String::from_str("\"");
            text.append(s.as_str());
            text.append("\"");
            push_span(out, span(text, Role::FieldString));
            assert(pieces_of(out@) =~= before + value_pieces(v@));
        },
        Json::Array { items, text } => {
            push_span(out, span_of("[", Role::ArrayMark));
            let ghost open = before.push(piece("["@, Role::ArrayMark));
            let mut i: usize = 0;
            while i < items.len()
                invariant
                    0 <= i <= items.len(),
                    pieces_of(out@) == open + items_pieces(views_of(items@), i as nat),
                    *v == (Json::Array { items: *items, text: *text }),
                decreases items.len() - i,
            {
                if i > 0 {
                    push_span(out, span_of(", ", Role::ArrayMark));
                }
                proof {
                    assert(v->items == *items);
                    assert(decreases_to!(*v => v->items));
                    assert(decreases_to!(v->items => items@[i as int]));
                }
                push_value(&items[i], out);
                assert(pieces_of(out@) =~= open + items_pieces(views_of(items@), (i + 1) as nat));
                i += 1;
            }
            push_span(out, span_of("]", Role::ArrayMark));
            assert(pieces_of(out@) =~= before + value_pieces(v@));
        },
        Json::Object { members, text } => {
            push_span(out, span_of("{", Role::ObjectMark));
            let ghost open = before.push(piece("{"@, Role::ObjectMark));
            let mut i: usize = 0;
            while i < members.len()
                invariant
                    0 <= i <= members.len(),
                    pieces_of(out@) == open + members_pieces(member_views(members@), i as nat),
                    *v == (Json::Object { members: *members, text: *text }),
                decreases members.len() - i,
            {
                if i > 0 {
                    push_span(out, span_of(", ", Role::ObjectMark));
                }
                push_span(out, span(members[i].key.clone(), Role::Muted));
                push_span(out, span_of(":", Role::ObjectMark));
                proof {
                    assert(v->members == *members);
                    assert(decreases_to!(*v => v->members));
                    assert(decreases_to!(v->members => members@[i as int]));
                    assert(decreases_to!(members@[i as int] => members@[i as int].value));
                }
                push_value(&members[i].value, out);
                assert(pieces_of(out@) =~= open + members_pieces(
                    member_views(members@),
                    (i + 1) as nat,
                ));
                i += 1;
            }
            push_span(out, span_of("}", Role::ObjectMark));
            assert(pieces_of(out@) =~= before + value_pieces(v@));
        },
    }
}

/// Whether a key is among the excluded ones.
pub fn excludes(exclude: &Vec<String>, key: &String) -> (r: bool)
    ensures
        r == is_excluded(texts_of(exclude@), key@),
{
    let mut i: usize = 0;
    while i < exclude.len()
        invariant
            0 <= i <= exclude.len(),
            forall|j: int| 0 <= j < i ==> texts_of(exclude@)[j] != key@,
        decreases exclude.len() - i,
    {
        if exclude[i] == *key {
            assert(texts_of(exclude@)[i as int] == key@);
            return true;
        }
        i += 1;
    }
    false
}

/// The spans of the fields of a record whose keys are not excluded, in the
/// record's order: `key=value`, a space between one field and the next.
pub fn get_fields(record: &Vec<Member>, exclude: &Vec<String>) -> (out: Vec<Span>)
    ensures
        pieces_of(out@) == fields_pieces(member_views(record@), texts_of(exclude@)),
{
    let mut out: Vec<Span> = Vec::new();
    let ghost keep = |m: MemberView| !is_excluded(texts_of(exclude@), m.key);
    let ghost all = member_views(record@);
    let mut any: bool = false;
    let mut i: usize = 0;
    proof {
        reveal(Seq::filter);
        assert(all.take(0).filter(keep) =~= Seq::<MemberView>::empty());
        assert(pieces_of(out@) =~= Seq::<Piece>::empty());
    }
    while i < record.len()
        invariant
            0 <= i <= record.len(),
            all == member_views(record@),
            keep == |m: MemberView| !is_excluded(texts_of(exclude@), m.key),
            any == (all.take(i as int).filter(keep).len() > 0),
            pieces_of(out@) == joined_fields(all.take(i as int).filter(keep)),
        decreases record.len() - i,
    {
        let ghost done = all.take(i as int).filter(keep);
        proof {
            assert(all.take(i + 1) =~= all.take(i as int).push(all[i as int]));
            all.take(i as int).lemma_filter_push(all[i as int], keep);
            assert(all[i as int] == record@[i as int]@);
        }
        if !excludes(exclude, &record[i].key) {
            if any {
                push_span(&mut out, span_of(" ", Role::Plain));
            }
            push_span(&mut out, span(record[i].key.clone(), Role::Muted));
            push_span(&mut out, span_of("=", Role::Plain));
            push_value(&record[i].value, &mut out);
            any = true;
            proof {
                let next = done.push(all[i as int]);
                assert(next.drop_last() =~= done);
                assert(pieces_of(out@) =~= joined_fields(next));
            }
        }
        i += 1;
    }
    proof {
        assert(all.take(i as int) =~= all);
    }
    out
}

} // verus!
