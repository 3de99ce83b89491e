//! Bodies and queries in the form encoding: the pairs that `serde_urlencoded`
//! reads from one, and the reading of single members from the pairs.

use vstd::prelude::*;
use vstd::string::StringSliceAdditionalSpecFns;
use vstd::utf8::valid_utf8;
use crate::error::{duplicate, fails_with, gives, missing, DecodeReason, SchemaDecodeError, SchemaFault};
use crate::text::same;

verus! {

/// The pairs of names and values that `serde_urlencoded::from_str` reads from
/// a text in the form encoding, in the order in which they stand.
pub uninterp spec fn form_pairs(body: Seq<char>) -> Option<Seq<(Seq<char>, Seq<char>)>>;

/// What `percent_encoding::percent_decode_str` makes of a text, read as
/// UTF-8 with a replacement character for what is none.
pub uninterp spec fn percent_decoded(s: Seq<char>) -> Seq<char>;

/// The texts of a list of pairs.
pub open spec fn pair_texts(pairs: Seq<(String, String)>) -> Seq<(Seq<char>, Seq<char>)> {
    pairs.map_values(|p: (String, String)| (p.0@, p.1@))
}

/// Reads the pairs of a text in the form encoding: `serde_urlencoded::from_str`
/// at a vector of pairs of strings.
#[verifier::external_body]
pub(crate) fn parse_form(body: &str) -> (r: Option<Vec<(String, String)>>)
    ensures
        match r {
            Some(pairs) => form_pairs(body@) == Some(pair_texts(pairs@)),
            None => form_pairs(body@) is None,
        },
{
    match serde_urlencoded::from_str::<Vec<(String, String)>>(body) {
        Ok(pairs) => Some(pairs),
        Err(_) => None,
    }
}

/// Undoes one layer of percent encoding: `percent_encoding::percent_decode_str`
/// and `decode_utf8_lossy` of what it gives.
#[verifier::external_body]
pub(crate) fn percent_decode(s: &str) -> (r: String)
    ensures
        r@ == percent_decoded(s@),
{
    percent_encoding::percent_decode_str(s).decode_utf8_lossy().to_string()
}

/// Reads bytes as text: `std::str::from_utf8`. Bytes that are UTF-8 give the
/// text that they encode, any others give `None`.
#[verifier::external_body]
pub(crate) fn utf8_text(bytes: &[u8]) -> (r: Option<&str>)
    ensures
        match r {
            Some(s) => s.spec_bytes() == bytes@,
            None => !valid_utf8(bytes@),
        },
{
    std::str::from_utf8(bytes).ok()
}

/// How often a name stands among the pairs.
pub open spec fn occurrences(pairs: Seq<(Seq<char>, Seq<char>)>, key: Seq<char>) -> nat
    decreases pairs.len(),
{
    if pairs.len() == 0 {
        0
    } else {
        occurrences(pairs.drop_last(), key) + if pairs.last().0 == key {
            1nat
        } else {
            0nat
        }
    }
}

/// The value of the last pair of a name; empty where there is none.
pub open spec fn value_of(pairs: Seq<(Seq<char>, Seq<char>)>, key: Seq<char>) -> Seq<char>
    decreases pairs.len(),
{
    if pairs.len() == 0 {
        Seq::empty()
    } else if pairs.last().0 == key {
        pairs.last().1
    } else {
        value_of(pairs.drop_last(), key)
    }
}

/// The value under `key`, which must stand exactly once.
pub open spec fn form_member(pairs: Seq<(Seq<char>, Seq<char>)>, key: Seq<char>) -> Result<Seq<char>, SchemaFault> {
    if occurrences(pairs, key) == 0 {
        Err(missing(key))
    } else if occurrences(pairs, key) == 1 {
        Ok(value_of(pairs, key))
    } else {
        Err(duplicate(key))
    }
}

/// The value under `key`, which may stand once or not at all.
pub open spec fn opt_form_member(pairs: Seq<(Seq<char>, Seq<char>)>, key: Seq<char>) -> Result<
    Option<Seq<char>>,
    SchemaFault,
> {
    if occurrences(pairs, key) == 0 {
        Ok(None)
    } else if occurrences(pairs, key) == 1 {
        Ok(Some(value_of(pairs, key)))
    } else {
        Err(duplicate(key))
    }
}

/// The value under `key` with one layer of percent encoding undone.
pub open spec fn decoded_form_member(pairs: Seq<(Seq<char>, Seq<char>)>, key: Seq<char>) -> Result<
    Seq<char>,
    SchemaFault,
> {
    match form_member(pairs, key) {
        Ok(s) => Ok(percent_decoded(s)),
        Err(e) => Err(e),
    }
}

/// Reads the value under `key`, if it stands once or not at all.
pub fn read_opt_member(pairs: &Vec<(String, String)>, key: &str) -> (r: Result<Option<String>, SchemaDecodeError>)
    ensures
        match r {
            Ok(s) => gives(opt_form_member(pair_texts(pairs@), key@), crate::schema::opt_text(s)),
            Err(e) => fails_with(opt_form_member(pair_texts(pairs@), key@), e@),
        },
{
    let ghost all = pair_texts(pairs@);
    let mut found: Option<String> = None;
    let mut i: usize = 0;
    proof {
        assert(all.take(0).len() == 0);
    }
    while i < pairs.len()
        invariant
            i <= pairs.len(),
            all == pair_texts(pairs@),
            occurrences(all.take(i as int), key@) <= 1,
            found is Some <==> occurrences(all.take(i as int), key@) == 1,
            found matches Some(s) ==> s@ == value_of(all.take(i as int), key@),
        decreases pairs.len() - i,
    {
        proof {
            assert(all.take(i + 1).drop_last() =~= all.take(i as int));
            assert(all.take(i + 1).last() == (pairs@[i as int].0@, pairs@[i as int].1@));
        }
        if same(pairs[i].0.as_str(), key) {
            if found.is_some() {
                proof {
                    lemma_occurrences_grow(all, i + 1, key@);
                }
                return Err(SchemaDecodeError::new(key, DecodeReason::DuplicateField));
            }
            found = Some(pairs[i].1.clone());
        }
        i += 1;
    }
    proof {
        assert(all.take(i as int) =~= all);
    }
    Ok(found)
}

/// A name stands in a list at least as often as among its first pairs.
proof fn lemma_occurrences_grow(pairs: Seq<(Seq<char>, Seq<char>)>, n: int, key: Seq<char>)
    requires
        0 <= n <= pairs.len(),
    ensures
        occurrences(pairs.take(n), key) <= occurrences(pairs, key),
    decreases pairs.len() - n,
{
    if n < pairs.len() {
        assert(pairs.take(n + 1).drop_last() =~= pairs.take(n));
        lemma_occurrences_grow(pairs, n + 1, key);
    } else {
        assert(pairs.take(n) =~= pairs);
    }
}

/// Reads the value under `key`, which must stand exactly once.
pub fn read_member(pairs: &Vec<(String, String)>, key: &str) -> (r: Result<String, SchemaDecodeError>)
    ensures
        match r {
            Ok(s) => gives(form_member(pair_texts(pairs@), key@), s@),
            Err(e) => fails_with(form_member(pair_texts(pairs@), key@), e@),
        },
{
    match read_opt_member(pairs, key) {
        Ok(Some(s)) => Ok(s),
        Ok(None) => Err(SchemaDecodeError::new(key, DecodeReason::MissingField)),
        Err(e) => Err(e),
    }
}

/// Reads the value under `key` and undoes one layer of percent encoding.
pub fn read_decoded_member(pairs: &Vec<(String, String)>, key: &str) -> (r: Result<String, SchemaDecodeError>)
    ensures
        match r {
            Ok(s) => gives(decoded_form_member(pair_texts(pairs@), key@), s@),
            Err(e) => fails_with(decoded_form_member(pair_texts(pairs@), key@), e@),
        },
{
    match read_member(pairs, key) {
        Ok(s) => Ok(percent_decode(s.as_str())),
        Err(e) => Err(e),
    }
}

} // verus!
