//! Field specifications and the extraction of a field from a record: the
//! first candidate key that the record has, with its value.

use vstd::prelude::*;

use crate::json::{member_views, Json, JsonView, Member, MemberView};

verus! {

/// The pieces of a text between its commas. A text without a comma is one
/// piece; each comma ends a piece and starts the next, which may be empty.
pub open spec fn split_commas(s: Seq<char>) -> Seq<Seq<char>>
    decreases s.len(),
{
    if s.len() == 0 {
        seq![Seq::empty()]
    } else {
        let before = split_commas(s.drop_last());
        if s.last() == ',' {
            before.push(Seq::empty())
        } else {
            before.update(before.len() - 1, before.last().push(s.last()))
        }
    }
}

/// Texts put together with a comma between one and the next.
pub open spec fn joined_with_commas(pieces: Seq<Seq<char>>) -> Seq<char>
    decreases pieces.len(),
{
    if pieces.len() == 0 {
        Seq::empty()
    } else if pieces.len() == 1 {
        pieces[0]
    } else {
        joined_with_commas(pieces.drop_last()) + seq![','] + pieces.last()
    }
}

/// Splitting takes a text apart at its commas and at nothing else: there is
/// at least one piece, no piece holds a comma, and the pieces put together
/// with commas are the text again.
pub proof fn split_commas_takes_apart(s: Seq<char>)
    ensures
        split_commas(s).len() >= 1,
        forall|i: int, j: int|
            0 <= i < split_commas(s).len() && 0 <= j < split_commas(s)[i].len() ==> (
            #[trigger] split_commas(s)[i][j]) != ',',
        joined_with_commas(split_commas(s)) == s,
    decreases s.len(),
{
    if s.len() == 0 {
        assert(joined_with_commas(split_commas(s)) =~= s);
    } else {
        let t = s.drop_last();
        let c = s.last();
        let before = split_commas(t);
        let after = split_commas(s);
        split_commas_takes_apart(t);
        assert(s =~= t.push(c));
        if c == ',' {
            assert(after.drop_last() =~= before);
            assert(joined_with_commas(after) =~= joined_with_commas(before) + seq![','] + after.last());
            assert(joined_with_commas(after) =~= s);
        } else {
            if before.len() == 1 {
                assert(joined_with_commas(after) =~= s);
            } else {
                assert(after.drop_last() =~= before.drop_last());
                assert(joined_with_commas(after) =~= joined_with_commas(before.drop_last())
                    + seq![','] + before.last().push(c));
                assert(joined_with_commas(after) =~= joined_with_commas(before).push(c));
                assert(joined_with_commas(after) =~= s);
            }
        }
    }
}

/// The texts of a sequence of strings.
pub open spec fn texts_of(strings: Seq<String>) -> Seq<Seq<char>> {
    Seq::new(strings.len(), |i: int| strings[i]@)
}

/// An ordered list of candidate keys for one logical field of a record.
#[derive(Debug, PartialEq, Eq)]
pub struct FieldSpec {
    pub keys: Vec<String>,
}

impl View for FieldSpec {
    /// The candidate keys, in the order in which they are tried.
    type V = Seq<Seq<char>>;

    open spec fn view(&self) -> Seq<Seq<char>> {
        texts_of(self.keys@)
    }
}

impl FieldSpec {
    /// Reads a field specification: candidate keys separated by commas.
    pub fn parse(text: &str) -> (r: FieldSpec)
        ensures
            r@ == split_commas(text@),
    {
        let n: usize = text.unicode_len();
        let mut keys: Vec<String> = Vec::new();
        let mut start: usize = 0;
        let mut i: usize = 0;
        proof {
            assert(text@.take(0) =~= Seq::<char>::empty());
            assert(texts_of(keys@).push(text@.subrange(0, 0)) =~= seq![Seq::<char>::empty()]);
        }
        while i < n
            invariant
                n == text@.len(),
                0 <= start <= i <= n,
                split_commas(text@.take(i as int)) == texts_of(keys@).push(
                    text@.subrange(start as int, i as int),
                ),
            decreases n - i,
        {
            let c = text.get_char(i);
            proof {
                assert(text@.take(i + 1).drop_last() =~= text@.take(i as int));
                assert(text@.take(i + 1).last() == c);
            }
            if c == ',' {
                let ghost before = texts_of(keys@);
                keys.push(String::from_str(text.substring_char(start, i)));
                proof {
                    assert(texts_of(keys@) =~= before.push(
                        text@.subrange(start as int, i as int),
                    ));
                    assert(text@.subrange(i + 1, i + 1) =~= Seq::<char>::empty());
                }
                start = i + 1;
            } else {
                proof {
                    let before = texts_of(keys@).push(text@.subrange(start as int, i as int));
                    assert(text@.subrange(start as int, i as int).push(c) =~= text@.subrange(
                        start as int,
                        i + 1,
                    ));
                    assert(before.update(before.len() - 1, before.last().push(c)) =~= texts_of(
                        keys@,
                    ).push(text@.subrange(start as int, i + 1)));
                }
            }
            i += 1;
        }
        let ghost before = texts_of(keys@);
        keys.push(String::from_str(text.substring_char(start, n)));
        proof {
            assert(text@.take(n as int) =~= text@);
            assert(texts_of(keys@) =~= before.push(text@.subrange(start as int, n as int)));
        }
        FieldSpec { keys }
    }
}

/// Whether a record has a member with the key.
pub open spec fn has_key(record: Seq<MemberView>, key: Seq<char>) -> bool {
    exists|i: int| 0 <= i < record.len() && (#[trigger] record[i]).key == key
}

/// Whether the member at `i` is the first of the record with the key.
pub open spec fn is_first_with_key(record: Seq<MemberView>, key: Seq<char>, i: int) -> bool {
    &&& 0 <= i < record.len()
    &&& record[i].key == key
    &&& forall|j: int| 0 <= j < i ==> (#[trigger] record[j]).key != key
}

/// Whether the candidate at `c` is the first that the record has.
pub open spec fn is_first_present(
    record: Seq<MemberView>,
    candidates: Seq<Seq<char>>,
    c: int,
) -> bool {
    &&& 0 <= c < candidates.len()
    &&& has_key(record, candidates[c])
    &&& forall|d: int| 0 <= d < c ==> !has_key(record, #[trigger] candidates[d])
}

/// The place of the first member with the key, if there is one.
pub open spec fn position_of(record: Seq<MemberView>, key: Seq<char>) -> Option<int> {
    if exists|i: int| is_first_with_key(record, key, i) {
        Some(choose|i: int| is_first_with_key(record, key, i))
    } else {
        None
    }
}

/// The outcome of an extraction: the place of the first candidate that the
/// record has, and the place of the first member that has it; `None` where
/// the record has none of the candidates.
pub open spec fn extraction(record: Seq<MemberView>, candidates: Seq<Seq<char>>) -> Option<
    (int, int),
> {
    if exists|c: int| is_first_present(record, candidates, c) {
        let c = choose|c: int| is_first_present(record, candidates, c);
        Some((c, position_of(record, candidates[c]).unwrap()))
    } else {
        None
    }
}

/// The extracted value: that of the first candidate key that the record
/// has, whatever it is, `null` too.
pub open spec fn extracted_value(record: Seq<MemberView>, candidates: Seq<Seq<char>>) -> Option<
    JsonView,
> {
    match extraction(record, candidates) {
        Some((c, i)) => Some(record[i].value),
        None => None,
    }
}

/// The matched key where there is one: the first candidate that the record
/// has.
pub open spec fn matched(record: Seq<MemberView>, candidates: Seq<Seq<char>>) -> Option<
    Seq<char>,
> {
    match extraction(record, candidates) {
        Some((c, i)) => Some(candidates[c]),
        None => None,
    }
}

/// The matched key, and the empty text where there is none.
pub open spec fn matched_key(record: Seq<MemberView>, candidates: Seq<Seq<char>>) -> Seq<char> {
    match matched(record, candidates) {
        Some(key) => key,
        None => Seq::empty(),
    }
}

/// The text of a key that may be missing.
pub open spec fn key_text(key: Option<String>) -> Option<Seq<char>> {
    match key {
        Some(k) => Some(k@),
        None => None,
    }
}

/// The first member with a key is determined: two places that both pass for
/// it are the same place.
pub proof fn first_with_key_is_determined(
    record: Seq<MemberView>,
    key: Seq<char>,
    i: int,
    j: int,
)
    requires
        is_first_with_key(record, key, i),
        is_first_with_key(record, key, j),
    ensures
        i == j,
        position_of(record, key) == Some(i),
{
    let k = choose|k: int| is_first_with_key(record, key, k);
    assert(is_first_with_key(record, key, k));
}

/// Extraction is determined by the record and the field specification: a
/// candidate and a member that pass for the first present candidate and for
/// its first member are the ones that `extraction` names, so that extracting
/// again gives the same value and the same key.
pub proof fn extraction_is_determined(
    record: Seq<MemberView>,
    candidates: Seq<Seq<char>>,
    c: int,
    i: int,
)
    requires
        is_first_present(record, candidates, c),
        is_first_with_key(record, candidates[c], i),
    ensures
        extraction(record, candidates) == Some((c, i)),
        extracted_value(record, candidates) == Some(record[i].value),
        matched_key(record, candidates) == candidates[c],
{
    let d = choose|d: int| is_first_present(record, candidates, d);
    assert(is_first_present(record, candidates, d));
    assert(d == c);
    first_with_key_is_determined(record, candidates[c], i, i);
}

/// Where the record has none of the candidates, nothing is extracted and the
/// matched key is empty.
pub proof fn extraction_of_absent(record: Seq<MemberView>, candidates: Seq<Seq<char>>)
    requires
        forall|c: int| 0 <= c < candidates.len() ==> !has_key(record, #[trigger] candidates[c]),
    ensures
        extraction(record, candidates) is None,
        extracted_value(record, candidates) is None,
        matched_key(record, candidates) == Seq::<char>::empty(),
{
}

/// The place of the first member of a record with a key.
pub fn position(record: &Vec<Member>, key: &String) -> (r: Option<usize>)
    ensures
        match r {
            Some(i) => is_first_with_key(member_views(record@), key@, i as int),
            None => !has_key(member_views(record@), key@),
        },
{
    let mut i: usize = 0;
    while i < record.len()
        invariant
            0 <= i <= record.len(),
            forall|j: int| 0 <= j < i ==> (#[trigger] member_views(record@)[j]).key != key@,
        decreases record.len() - i,
    {
        if record[i].key == *key {
            return Some(i);
        }
        i += 1;
    }
    None
}

/// Finds the first candidate key that a record has: its place among the
/// candidates and the place of its first member in the record.
pub fn find(record: &Vec<Member>, spec: &FieldSpec) -> (r: Option<(usize, usize)>)
    ensures
        match r {
            Some((c, i)) => extraction(member_views(record@), spec@) == Some((c as int, i as int))
                && c < spec.keys.len() && i < record.len(),
            None => extraction(member_views(record@), spec@) is None,
        },
{
    let mut c: usize = 0;
    while c < spec.keys.len()
        invariant
            0 <= c <= spec.keys.len(),
            forall|d: int| 0 <= d < c ==> !has_key(member_views(record@), #[trigger] spec@[d]),
        decreases spec.keys.len() - c,
    {
        match position(record, &spec.keys[c]) {
            Some(i) => {
                proof {
                    assert(spec@[c as int] == spec.keys[c as int]@);
                    extraction_is_determined(member_views(record@), spec@, c as int, i as int);
                }
                return Some((c, i));
            },
            None => {
                assert(spec@[c as int] == spec.keys[c as int]@);
            },
        }
        c += 1;
    }
    proof {
        extraction_of_absent(member_views(record@), spec@);
    }
    None
}

/// Extracts a field: the value of the first candidate key that the record
/// has, and that key; no value and the empty key where it has none.
pub fn extract<'a>(record: &'a Vec<Member>, spec: &FieldSpec) -> (r: (Option<&'a Json>, String))
    ensures
        match r.0 {
            Some(v) => extracted_value(member_views(record@), spec@) == Some(v@),
            None => extracted_value(member_views(record@), spec@) is None,
        },
        r.1@ == matched_key(member_views(record@), spec@),
{
    match find(record, spec) {
        Some((c, i)) => (Some(&record[i].value), spec.keys[c].clone()),
        None => (None, String::new()),
    }
}

} // verus!
