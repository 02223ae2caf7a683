//! JSON documents as the library reads and writes them: flat objects whose
//! members are strings and integers.
//!
//! Parsing and printing are `serde_json`'s. A parsed document stays opaque;
//! what the library reads of it are the string members and the integer
//! members of its top level.

use vstd::prelude::*;
use vstd::utf8::encode_utf8;

verus! {

/// A parsed JSON document.
#[verifier::external_type_specification]
#[verifier::external_body]
pub struct ExJsonValue(serde_json::Value);

/// The document that a text parses to, if it is JSON.
pub uninterp spec fn json_parsed(text: Seq<u8>) -> Option<serde_json::Value>;

/// The members of a document's top level whose value is a string. Empty
/// where the document is no object.
pub uninterp spec fn json_strings(document: serde_json::Value) -> Map<Seq<char>, Seq<char>>;

/// The members of a document's top level whose value is an integer that fits
/// in 64 bits with a sign. Empty where the document is no object.
pub uninterp spec fn json_integers(document: serde_json::Value) -> Map<Seq<char>, i64>;

/// The compact text of the object with the given string and integer members.
pub uninterp spec fn json_object_text(
    strings: Seq<(Seq<char>, Seq<char>)>,
    integers: Seq<(Seq<char>, i64)>,
) -> Seq<u8>;

/// The indented text of the object with the given string members.
pub uninterp spec fn json_object_pretty_text(strings: Seq<(Seq<char>, Seq<char>)>) -> Seq<char>;

/// No two of the members have the same key.
pub open spec fn distinct_keys(
    strings: Seq<(Seq<char>, Seq<char>)>,
    integers: Seq<(Seq<char>, i64)>,
) -> bool {
    &&& forall|i: int, j: int|
        0 <= i < j < strings.len() ==> (#[trigger] strings[i]).0 != (#[trigger] strings[j]).0
    &&& forall|i: int, j: int|
        0 <= i < j < integers.len() ==> (#[trigger] integers[i]).0 != (#[trigger] integers[j]).0
    &&& forall|i: int, j: int|
        0 <= i < strings.len() && 0 <= j < integers.len() ==> (#[trigger] strings[i]).0 != (
        #[trigger] integers[j]).0
}

/// The members of a list as a map; of two members of one key the later
/// counts.
pub open spec fn string_members(members: Seq<(Seq<char>, Seq<char>)>) -> Map<
    Seq<char>,
    Seq<char>,
>
    decreases members.len(),
{
    if members.len() == 0 {
        Map::empty()
    } else {
        string_members(members.drop_last()).insert(members.last().0, members.last().1)
    }
}

/// The members of a list as a map; of two members of one key the later
/// counts.
pub open spec fn integer_members(members: Seq<(Seq<char>, i64)>) -> Map<Seq<char>, i64>
    decreases members.len(),
{
    if members.len() == 0 {
        Map::empty()
    } else {
        integer_members(members.drop_last()).insert(members.last().0, members.last().1)
    }
}

/// The most bytes that the given string members take in the text of an
/// object: each character takes six bytes at most, and each member brings two
/// pairs of quotes, a colon and a comma.
pub open spec fn strings_size(members: Seq<(Seq<char>, Seq<char>)>) -> nat
    decreases members.len(),
{
    if members.len() == 0 {
        0
    } else {
        strings_size(members.drop_last()) + 6 * members.last().0.len() + 6
            * members.last().1.len() + 6
    }
}

/// The most bytes that the given integer members take in the text of an
/// object: a number of 64 bits takes twenty bytes at most.
pub open spec fn integers_size(members: Seq<(Seq<char>, i64)>) -> nat
    decreases members.len(),
{
    if members.len() == 0 {
        0
    } else {
        integers_size(members.drop_last()) + 6 * members.last().0.len() + 24
    }
}

/// The most bytes that the compact text of an object with the given members
/// takes.
pub open spec fn json_size_bound(
    strings: Seq<(Seq<char>, Seq<char>)>,
    integers: Seq<(Seq<char>, i64)>,
) -> nat {
    2 + strings_size(strings) + integers_size(integers)
}

/// The string member `key` of a document, if it has one.
pub open spec fn json_string_of(document: serde_json::Value, key: Seq<char>) -> Option<Seq<char>> {
    if json_strings(document).contains_key(key) {
        Some(json_strings(document)[key])
    } else {
        None
    }
}

/// The integer member `key` of a document, if it has one.
pub open spec fn json_integer_of(document: serde_json::Value, key: Seq<char>) -> Option<i64> {
    if json_integers(document).contains_key(key) {
        Some(json_integers(document)[key])
    } else {
        None
    }
}

/// An optional string as an optional sequence of characters.
pub open spec fn text_view(s: Option<String>) -> Option<Seq<char>> {
    match s {
        Some(s) => Some(s@),
        None => None,
    }
}

/// Calls `serde_json::from_slice` for a `Value`: the document that the text
/// parses to, nothing where it is no JSON.
#[verifier::external_body]
pub(crate) fn json_parse(text: &[u8]) -> (r: Option<serde_json::Value>)
    ensures
        r == json_parsed(text@),
{
    serde_json::from_slice::<serde_json::Value>(text).ok()
}

/// Calls `Value::get` with a key and `Value::as_str` on what it finds: the
/// member's text where the document is an object that has the member and the
/// member is a string.
#[verifier::external_body]
pub(crate) fn json_string_member(document: &serde_json::Value, key: &str) -> (r: Option<String>)
    ensures
        r is Some <==> json_strings(*document).contains_key(key@),
        r matches Some(text) ==> text@ == json_strings(*document)[key@],
{
    document.get(key).and_then(|member| member.as_str()).map(|text| text.to_owned())
}

/// Calls `Value::get` with a key and `Value::as_i64` on what it finds.
#[verifier::external_body]
pub(crate) fn json_integer_member(document: &serde_json::Value, key: &str) -> (r: Option<i64>)
    ensures
        r is Some <==> json_integers(*document).contains_key(key@),
        r matches Some(number) ==> number == json_integers(*document)[key@],
{
    document.get(key).and_then(|member| member.as_i64())
}

/// Calls `serde_json::to_vec` on the object that holds the given members,
/// whose keys differ. Printing such an object into memory does not fail, and
/// the text parses to a document with just those members. The text is two
/// braces and, for each member, at most a comma, the key, a colon and the
/// value; a string stands between quotes, each of its characters written in
/// six bytes at most, and a number takes twenty bytes at most.
#[verifier::external_body]
pub(crate) fn json_encode_object(
    strings: &Vec<(String, String)>,
    integers: &Vec<(String, i64)>,
) -> (r: Option<Vec<u8>>)
    requires
        distinct_keys(strings.deep_view(), integers.deep_view()),
    ensures
        r is Some,
        r matches Some(text) ==> text@ == json_object_text(
            strings.deep_view(),
            integers.deep_view(),
        ),
        r matches Some(text) ==> match json_parsed(text@) {
            Some(document) => {
                &&& json_strings(document) == string_members(strings.deep_view())
                &&& json_integers(document) == integer_members(integers.deep_view())
            },
            None => false,
        },
        r matches Some(text) ==> text@.len() <= json_size_bound(
            strings.deep_view(),
            integers.deep_view(),
        ),
{
    let mut object = serde_json::Map::new();
    for (key, value) in strings {
        object.insert(key.clone(), serde_json::Value::String(value.clone()));
    }
    for (key, value) in integers {
        object.insert(key.clone(), serde_json::Value::from(*value));
    }
    serde_json::to_vec(&serde_json::Value::Object(object)).ok()
}

/// Calls `serde_json::to_string_pretty` on the object that holds the given
/// string members, whose keys differ. Printing such an object into memory
/// does not fail, and the text parses to a document with just those members.
#[verifier::external_body]
pub(crate) fn json_encode_object_pretty(strings: &Vec<(String, String)>) -> (r: Option<String>)
    requires
        distinct_keys(strings.deep_view(), Seq::empty()),
    ensures
        r is Some,
        r matches Some(text) ==> text@ == json_object_pretty_text(strings.deep_view()),
        r matches Some(text) ==> match json_parsed(encode_utf8(text@)) {
            Some(document) => {
                &&& json_strings(document) == string_members(strings.deep_view())
                &&& json_integers(document) == Map::<Seq<char>, i64>::empty()
            },
            None => false,
        },
{
    let mut object = serde_json::Map::new();
    for (key, value) in strings {
        object.insert(key.clone(), serde_json::Value::String(value.clone()));
    }
    serde_json::to_string_pretty(&serde_json::Value::Object(object)).ok()
}

} // verus!
