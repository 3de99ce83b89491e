//! Reading the members of a body: each reader says which value a member must
//! hold, and which fault it is when the member is missing or holds another.

use vstd::prelude::*;
use crate::error::{fails_with, gives, missing, wrong_type, DecodeReason, SchemaDecodeError, SchemaFault};
use crate::json::{
    as_decimal, as_int, as_list, as_members, as_text, field, int_as_decimal, is_null, json_of, jsons_of, member, Json,
};

verus! {

/// The text under `key`, which must be there and be a string.
pub open spec fn text_member(doc: Json, key: Seq<char>) -> Result<Seq<char>, SchemaFault> {
    match field(doc, key) {
        None => Err(missing(key)),
        Some(Json::Text(s)) => Ok(s),
        Some(_) => Err(wrong_type(key)),
    }
}

/// The text under `key`, which may be absent or null, and must else be a
/// string.
pub open spec fn opt_text_member(doc: Json, key: Seq<char>) -> Result<Option<Seq<char>>, SchemaFault> {
    match field(doc, key) {
        None => Ok(None),
        Some(Json::Null) => Ok(None),
        Some(Json::Text(s)) => Ok(Some(s)),
        Some(_) => Err(wrong_type(key)),
    }
}

/// The integer under `key`, which must be there and lie between `low` and
/// `high`.
pub open spec fn int_member(doc: Json, key: Seq<char>, low: int, high: int) -> Result<int, SchemaFault> {
    match field(doc, key) {
        None => Err(missing(key)),
        Some(Json::Int(n)) => if low <= n <= high {
            Ok(n)
        } else {
            Err(wrong_type(key))
        },
        Some(_) => Err(wrong_type(key)),
    }
}

/// The number under `key` as decimal text; it must be there and be a number.
pub open spec fn decimal_member(doc: Json, key: Seq<char>) -> Result<Seq<char>, SchemaFault> {
    match field(doc, key) {
        None => Err(missing(key)),
        Some(Json::Int(n)) => Ok(int_as_decimal(n)),
        Some(Json::Float(t)) => Ok(t),
        Some(_) => Err(wrong_type(key)),
    }
}

/// The items under `key`, which must be there and be an array.
pub open spec fn list_member(doc: Json, key: Seq<char>) -> Result<Seq<Json>, SchemaFault> {
    match field(doc, key) {
        None => Err(missing(key)),
        Some(Json::List(items)) => Ok(items),
        Some(_) => Err(wrong_type(key)),
    }
}

/// The map that a list of pairs stands for; of two pairs with one key the
/// later one counts.
pub open spec fn pairs_map(pairs: Seq<(String, String)>) -> Map<Seq<char>, Seq<char>>
    decreases pairs.len(),
{
    if pairs.len() == 0 {
        Map::empty()
    } else {
        pairs_map(pairs.drop_last()).insert(pairs.last().0@, pairs.last().1@)
    }
}

/// Whether no name stands twice among the pairs.
pub open spec fn distinct_names(pairs: Seq<(String, String)>) -> bool {
    forall|i: int, j: int| 0 <= i < j < pairs.len() ==> (#[trigger] pairs[i]).0@ != (#[trigger] pairs[j]).0@
}

/// Whether no name stands twice among the pairs, if there are pairs.
pub open spec fn opt_distinct_names(pairs: Option<Vec<(String, String)>>) -> bool {
    match pairs {
        Some(p) => distinct_names(p@),
        None => true,
    }
}

/// Whether every member of an object is a string.
pub open spec fn all_texts(m: Map<Seq<char>, Json>) -> bool {
    forall|k: Seq<char>| m.contains_key(k) ==> (#[trigger] m[k]) is Text
}

/// The texts of an object whose members are strings, by key.
pub open spec fn texts_of(m: Map<Seq<char>, Json>) -> Map<Seq<char>, Seq<char>> {
    Map::new(|k: Seq<char>| m.contains_key(k), |k: Seq<char>| m[k]->Text_0)
}

/// The texts of a value that must be an object whose members are strings.
pub open spec fn texts_value(doc: Json, key: Seq<char>) -> Result<Map<Seq<char>, Seq<char>>, SchemaFault> {
    match doc {
        Json::Object(m) => if all_texts(m) {
            Ok(texts_of(m))
        } else {
            Err(wrong_type(key))
        },
        _ => Err(wrong_type(key)),
    }
}

/// The texts under `key`, which must be there and be an object whose members
/// are strings.
pub open spec fn texts_member(doc: Json, key: Seq<char>) -> Result<Map<Seq<char>, Seq<char>>, SchemaFault> {
    match field(doc, key) {
        None => Err(missing(key)),
        Some(d) => texts_value(d, key),
    }
}

/// The texts under `key`, which may be absent or null, and must else be an
/// object whose members are strings.
pub open spec fn opt_texts_member(doc: Json, key: Seq<char>) -> Result<
    Option<Map<Seq<char>, Seq<char>>>,
    SchemaFault,
> {
    match field(doc, key) {
        None => Ok(None),
        Some(Json::Null) => Ok(None),
        Some(d) => match texts_value(d, key) {
            Ok(m) => Ok(Some(m)),
            Err(e) => Err(e),
        },
    }
}

/// The map of an optional list of pairs.
pub open spec fn opt_pairs_map(pairs: Option<Vec<(String, String)>>) -> Option<Map<Seq<char>, Seq<char>>> {
    match pairs {
        Some(p) => Some(pairs_map(p@)),
        None => None,
    }
}

/// Pairs that are all taken from the members of an object stand for a map
/// that holds exactly their keys, each with the member's text.
proof fn lemma_pairs_map(pairs: Seq<(String, String)>, m: Map<Seq<char>, Json>)
    requires
        forall|j: int|
            0 <= j < pairs.len() ==> m.contains_key((#[trigger] pairs[j]).0@) && m[pairs[j].0@] == Json::Text(
                pairs[j].1@,
            ),
    ensures
        forall|k: Seq<char>| #[trigger]
            pairs_map(pairs).contains_key(k) <==> exists|j: int| 0 <= j < pairs.len() && (#[trigger] pairs[j]).0@ == k,
        forall|k: Seq<char>| #[trigger]
            pairs_map(pairs).contains_key(k) ==> m.contains_key(k) && m[k] == Json::Text(pairs_map(pairs)[k]),
    decreases pairs.len(),
{
    if pairs.len() > 0 {
        let front = pairs.drop_last();
        let last = pairs.last();
        assert forall|j: int| 0 <= j < front.len() implies m.contains_key((#[trigger] front[j]).0@) && m[front[j].0@]
            == Json::Text(front[j].1@) by {
            assert(front[j] == pairs[j]);
        }
        lemma_pairs_map(front, m);
        assert forall|k: Seq<char>| #[trigger]
            pairs_map(pairs).contains_key(k) implies exists|j: int|
            0 <= j < pairs.len() && (#[trigger] pairs[j]).0@ == k by {
            if k == last.0@ {
                assert(pairs[pairs.len() - 1].0@ == k);
            } else {
                assert(pairs_map(front).contains_key(k));
                let j = choose|j: int| 0 <= j < front.len() && (#[trigger] front[j]).0@ == k;
                assert(pairs[j].0@ == k);
            }
        }
        assert forall|k: Seq<char>|
            (exists|j: int| 0 <= j < pairs.len() && (#[trigger] pairs[j]).0@ == k) implies #[trigger] pairs_map(
            pairs,
        ).contains_key(k) by {
            let j = choose|j: int| 0 <= j < pairs.len() && (#[trigger] pairs[j]).0@ == k;
            if j < front.len() {
                assert(front[j].0@ == k);
            }
        }
        assert(m.contains_key(pairs[pairs.len() - 1].0@));
    }
}

/// The text of an optional string.
pub open spec fn opt_text(s: Option<String>) -> Option<Seq<char>> {
    match s {
        Some(t) => Some(t@),
        None => None,
    }
}

/// Reads the text under `key`.
pub fn read_text(v: &serde_json::Value, key: &str) -> (r: Result<String, SchemaDecodeError>)
    ensures
        match r {
            Ok(s) => gives(text_member(json_of(*v), key@), s@),
            Err(e) => fails_with(text_member(json_of(*v), key@), e@),
        },
{
    match member(v, key) {
        None => Err(SchemaDecodeError::new(key, DecodeReason::MissingField)),
        Some(m) => match as_text(m) {
            Some(s) => Ok(s.to_owned()),
            None => Err(SchemaDecodeError::new(key, DecodeReason::WrongType)),
        },
    }
}

/// Reads the text under `key`, if there is one.
pub fn read_opt_text(v: &serde_json::Value, key: &str) -> (r: Result<Option<String>, SchemaDecodeError>)
    ensures
        match r {
            Ok(s) => gives(opt_text_member(json_of(*v), key@), opt_text(s)),
            Err(e) => fails_with(opt_text_member(json_of(*v), key@), e@),
        },
{
    match member(v, key) {
        None => Ok(None),
        Some(m) => {
            if is_null(m) {
                Ok(None)
            } else {
                match as_text(m) {
                    Some(s) => Ok(Some(s.to_owned())),
                    None => Err(SchemaDecodeError::new(key, DecodeReason::WrongType)),
                }
            }
        },
    }
}

/// Reads the integer under `key`, which must lie between `low` and `high`.
pub fn read_int(v: &serde_json::Value, key: &str, low: i64, high: i64) -> (r: Result<i64, SchemaDecodeError>)
    ensures
        match r {
            Ok(n) => gives(int_member(json_of(*v), key@, low as int, high as int), n as int),
            Err(e) => fails_with(int_member(json_of(*v), key@, low as int, high as int), e@),
        },
{
    match member(v, key) {
        None => Err(SchemaDecodeError::new(key, DecodeReason::MissingField)),
        Some(m) => match as_int(m) {
            Some(n) => {
                if low <= n && n <= high {
                    Ok(n)
                } else {
                    Err(SchemaDecodeError::new(key, DecodeReason::WrongType))
                }
            },
            None => Err(SchemaDecodeError::new(key, DecodeReason::WrongType)),
        },
    }
}

/// Reads the 32-bit integer under `key`.
pub fn read_i32(v: &serde_json::Value, key: &str) -> (r: Result<i32, SchemaDecodeError>)
    ensures
        match r {
            Ok(n) => gives(int_member(json_of(*v), key@, i32::MIN as int, i32::MAX as int), n as int),
            Err(e) => fails_with(int_member(json_of(*v), key@, i32::MIN as int, i32::MAX as int), e@),
        },
{
    match read_int(v, key, i32::MIN as i64, i32::MAX as i64) {
        Ok(n) => Ok(n as i32),
        Err(e) => Err(e),
    }
}

/// Reads the 16-bit natural number under `key`.
pub fn read_u16(v: &serde_json::Value, key: &str) -> (r: Result<u16, SchemaDecodeError>)
    ensures
        match r {
            Ok(n) => gives(int_member(json_of(*v), key@, 0, u16::MAX as int), n as int),
            Err(e) => fails_with(int_member(json_of(*v), key@, 0, u16::MAX as int), e@),
        },
{
    match read_int(v, key, 0, u16::MAX as i64) {
        Ok(n) => Ok(n as u16),
        Err(e) => Err(e),
    }
}

/// Reads the number under `key` as decimal text.
pub fn read_decimal(v: &serde_json::Value, key: &str) -> (r: Result<String, SchemaDecodeError>)
    ensures
        match r {
            Ok(s) => gives(decimal_member(json_of(*v), key@), s@),
            Err(e) => fails_with(decimal_member(json_of(*v), key@), e@),
        },
{
    match member(v, key) {
        None => Err(SchemaDecodeError::new(key, DecodeReason::MissingField)),
        Some(m) => match as_decimal(m) {
            Some(s) => Ok(s),
            None => Err(SchemaDecodeError::new(key, DecodeReason::WrongType)),
        },
    }
}

/// Reads the items under `key`.
pub fn read_list<'a>(v: &'a serde_json::Value, key: &str) -> (r: Result<&'a Vec<serde_json::Value>, SchemaDecodeError>)
    ensures
        match r {
            Ok(items) => gives(list_member(json_of(*v), key@), jsons_of(items@)),
            Err(e) => fails_with(list_member(json_of(*v), key@), e@),
        },
{
    match member(v, key) {
        None => Err(SchemaDecodeError::new(key, DecodeReason::MissingField)),
        Some(m) => match as_list(m) {
            Some(items) => Ok(items),
            None => Err(SchemaDecodeError::new(key, DecodeReason::WrongType)),
        },
    }
}

/// Reads a value that must be an object whose members are strings.
pub fn read_texts_value(v: &serde_json::Value, key: &str) -> (r: Result<Vec<(String, String)>, SchemaDecodeError>)
    ensures
        match r {
            Ok(pairs) => gives(texts_value(json_of(*v), key@), pairs_map(pairs@)) && distinct_names(pairs@),
            Err(e) => fails_with(texts_value(json_of(*v), key@), e@),
        },
{
    let members = match as_members(v) {
        Some(ms) => ms,
        None => {
            return Err(SchemaDecodeError::new(key, DecodeReason::WrongType));
        },
    };
    let ghost m = json_of(*v)->Object_0;
    let mut out: Vec<(String, String)> = Vec::new();
    let mut i: usize = 0;
    while i < members.len()
        invariant
            i <= members.len(),
            out@.len() == i,
            json_of(*v) == Json::Object(m),
            forall|a: int, b: int|
                0 <= a < b < members@.len() ==> (#[trigger] members@[a]).0@ != (#[trigger] members@[b]).0@,
            forall|j: int|
                0 <= j < members@.len() ==> m.contains_key((#[trigger] members@[j]).0@) && m[members@[j].0@]
                    == json_of(members@[j].1),
            forall|j: int|
                0 <= j < i ==> (#[trigger] out@[j]).0@ == members@[j].0@ && m[members@[j].0@] == Json::Text(
                    out@[j].1@,
                ),
        decreases members.len() - i,
    {
        match as_text(&members[i].1) {
            Some(s) => {
                out.push((members[i].0.clone(), s.to_owned()));
            },
            None => {
                assert(m.contains_key(members@[i as int].0@));
                assert(!(m[members@[i as int].0@] is Text));
                return Err(SchemaDecodeError::new(key, DecodeReason::WrongType));
            },
        }
        i += 1;
    }
    proof {
        lemma_pairs_map(out@, m);
        assert forall|k: Seq<char>| m.contains_key(k) implies pairs_map(out@).contains_key(k) && (#[trigger] m[k])
            is Text by {
            let j = choose|j: int| 0 <= j < members@.len() && (#[trigger] members@[j]).0@ == k;
            assert(out@[j].0@ == k);
        }
        assert(pairs_map(out@) =~= texts_of(m));
        assert forall|a: int, b: int| 0 <= a < b < out@.len() implies (#[trigger] out@[a]).0@ != (
        #[trigger] out@[b]).0@ by {
            assert(members@[a].0@ != members@[b].0@);
        }
    }
    Ok(out)
}

/// Reads the texts under `key`.
pub fn read_texts(v: &serde_json::Value, key: &str) -> (r: Result<Vec<(String, String)>, SchemaDecodeError>)
    ensures
        match r {
            Ok(pairs) => gives(texts_member(json_of(*v), key@), pairs_map(pairs@)) && distinct_names(pairs@),
            Err(e) => fails_with(texts_member(json_of(*v), key@), e@),
        },
{
    match member(v, key) {
        None => Err(SchemaDecodeError::new(key, DecodeReason::MissingField)),
        Some(m) => read_texts_value(m, key),
    }
}

/// Reads the texts under `key`, if there are any.
pub fn read_opt_texts(v: &serde_json::Value, key: &str) -> (r: Result<
    Option<Vec<(String, String)>>,
    SchemaDecodeError,
>)
    ensures
        match r {
            Ok(pairs) => gives(opt_texts_member(json_of(*v), key@), opt_pairs_map(pairs)) && opt_distinct_names(
                pairs,
            ),
            Err(e) => fails_with(opt_texts_member(json_of(*v), key@), e@),
        },
{
    match member(v, key) {
        None => Ok(None),
        Some(m) => {
            if is_null(m) {
                Ok(None)
            } else {
                match read_texts_value(m, key) {
                    Ok(pairs) => Ok(Some(pairs)),
                    Err(e) => Err(e),
                }
            }
        },
    }
}

} // verus!
