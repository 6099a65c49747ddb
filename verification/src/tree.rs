//! The tree value that stands between a whole document and the bytes of one
//! section, and the calls into the encoding crates.
//!
//! A tree is a `serde_json::Value`. Verus sees nothing inside one; what the
//! manager needs of it has a name here: the members of a mapping, the mapping
//! built from members, and what each encoder and decoder returns. The names
//! and the wrappers in this file are believed, not proved; the definitions
//! between them only abbreviate.

use serde_json::Value;
use vstd::prelude::*;
use vstd::utf8::*;

verus! {

/// `serde_json::Value`, carried through verified code as an opaque value.
#[verifier::external_type_specification]
#[verifier::external_body]
pub struct ExValue(serde_json::Value);

/// One member of a mapping: its key and the tree below it.
pub type Member = (Seq<char>, Value);

/// The members of `value` in the order in which `serde_json::Map::iter` yields
/// them, or `None` where `value` is not `Value::Object`.
pub uninterp spec fn members(value: Value) -> Option<Seq<Member>>;

/// The tree that `Value::Object` holds once a `serde_json::Map` has been
/// collected from `entries`.
pub uninterp spec fn object_of(entries: Seq<Member>) -> Value;

/// What `serde_json::to_vec` returns for `value`: the JSON text, or the
/// serializer's message.
pub uninterp spec fn json_encoding(value: Value) -> Result<Seq<u8>, Seq<char>>;

/// What `serde_json::from_slice` returns for `bytes`: the tree, or the
/// parser's message.
pub uninterp spec fn json_decoding(bytes: Seq<u8>) -> Result<Value, Seq<char>>;

/// What `serde_yaml::to_string` returns for `value`: the YAML text, or the
/// serializer's message.
pub uninterp spec fn yaml_encoding(value: Value) -> Result<Seq<char>, Seq<char>>;

/// What `serde_yaml::from_slice` returns for `bytes`: the tree, or the
/// parser's message.
pub uninterp spec fn yaml_decoding(bytes: Seq<u8>) -> Result<Value, Seq<char>>;

/// What `toml::to_string` returns for `value`: the TOML text, or the
/// serializer's message.
pub uninterp spec fn toml_encoding(value: Value) -> Result<Seq<char>, Seq<char>>;

/// What `toml::from_str` returns for `text`: the tree, or the parser's
/// message.
pub uninterp spec fn toml_decoding(text: Seq<char>) -> Result<Value, Seq<char>>;

/// The message of the `Utf8Error` that `std::str::from_utf8` returns for
/// `bytes`.
pub uninterp spec fn utf8_failure(bytes: Seq<u8>) -> Seq<char>;

/// The members that a list of owned pairs stands for.
pub open spec fn members_of(list: Seq<(String, Value)>) -> Seq<Member> {
    list.map_values(|pair: (String, Value)| (pair.0@, pair.1))
}

/// The keys of `entries`, in order.
pub open spec fn keys_of(entries: Seq<Member>) -> Seq<Seq<char>> {
    entries.map_values(|member: Member| member.0)
}

/// No key occurs twice in `entries`.
pub open spec fn distinct_keys(entries: Seq<Member>) -> bool {
    forall|i: int, j: int|
        0 <= i < j < entries.len() ==> (#[trigger] entries[i]).0 != (#[trigger] entries[j]).0
}

/// `read` and `written` hold the same members, in whatever order.
pub open spec fn same_members(read: Seq<Member>, written: Seq<Member>) -> bool {
    forall|member: Member| read.contains(member) <==> written.contains(member)
}

/// Calls `Value::as_object` and copies out what `serde_json::Map::iter`
/// yields. Claimed: the result is `None` exactly where `value` is no mapping;
/// otherwise it lists the members in iteration order, and, `Map` being a map,
/// no key occurs twice.
#[verifier::external_body]
pub(crate) fn object_members(value: &Value) -> (r: Option<Vec<(String, Value)>>)
    ensures
        match r {
            Some(list) => members(*value) == Some(members_of(list@)) && distinct_keys(
                members_of(list@),
            ),
            None => members(*value) is None,
        },
{
    value.as_object().map(|m| m.iter().map(|(k, v)| (k.clone(), v.clone())).collect())
}

/// Collects a `serde_json::Map` from `entries` and wraps it in
/// `Value::Object`. Claimed: the result is a mapping without repeated keys,
/// and where no key is repeated in `entries` it holds exactly the pairs of
/// `entries` (in the map's own order).
#[verifier::external_body]
pub(crate) fn object_from(entries: Vec<(String, Value)>) -> (r: Value)
    ensures
        r == object_of(members_of(entries@)),
        members(r) is Some,
        distinct_keys(members(r)->0),
        distinct_keys(members_of(entries@)) ==> same_members(
            members(r)->0,
            members_of(entries@),
        ),
{
    Value::Object(entries.into_iter().collect())
}

/// Calls `serde_json::to_vec`. Claimed: the result is a function of `value`.
#[verifier::external_body]
pub(crate) fn json_encode(value: &Value) -> (r: Result<Vec<u8>, String>)
    ensures
        match r {
            Ok(bytes) => json_encoding(*value) == Ok::<Seq<u8>, Seq<char>>(bytes@),
            Err(reason) => json_encoding(*value) == Err::<Seq<u8>, Seq<char>>(reason@),
        },
{
    serde_json::to_vec(value).map_err(|e| e.to_string())
}

/// Calls `serde_json::from_slice` for a `Value`. Claimed: the result is a
/// function of `bytes`.
#[verifier::external_body]
pub(crate) fn json_decode(bytes: &[u8]) -> (r: Result<Value, String>)
    ensures
        match r {
            Ok(value) => json_decoding(bytes@) == Ok::<Value, Seq<char>>(value),
            Err(reason) => json_decoding(bytes@) == Err::<Value, Seq<char>>(reason@),
        },
{
    serde_json::from_slice::<Value>(bytes).map_err(|e| e.to_string())
}

/// Calls `serde_yaml::to_string`. Claimed: the result is a function of
/// `value`.
#[verifier::external_body]
pub(crate) fn yaml_encode(value: &Value) -> (r: Result<String, String>)
    ensures
        match r {
            Ok(text) => yaml_encoding(*value) == Ok::<Seq<char>, Seq<char>>(text@),
            Err(reason) => yaml_encoding(*value) == Err::<Seq<char>, Seq<char>>(reason@),
        },
{
    serde_yaml::to_string(value).map_err(|e| e.to_string())
}

/// Calls `serde_yaml::from_slice` for a `Value`. Claimed: the result is a
/// function of `bytes`.
#[verifier::external_body]
pub(crate) fn yaml_decode(bytes: &[u8]) -> (r: Result<Value, String>)
    ensures
        match r {
            Ok(value) => yaml_decoding(bytes@) == Ok::<Value, Seq<char>>(value),
            Err(reason) => yaml_decoding(bytes@) == Err::<Value, Seq<char>>(reason@),
        },
{
    serde_yaml::from_slice::<Value>(bytes).map_err(|e| e.to_string())
}

/// Calls `toml::to_string`. Claimed: the result is a function of `value`.
#[verifier::external_body]
pub(crate) fn toml_encode(value: &Value) -> (r: Result<String, String>)
    ensures
        match r {
            Ok(text) => toml_encoding(*value) == Ok::<Seq<char>, Seq<char>>(text@),
            Err(reason) => toml_encoding(*value) == Err::<Seq<char>, Seq<char>>(reason@),
        },
{
    toml::to_string(value).map_err(|e| e.to_string())
}

/// Calls `toml::from_str` for a `Value`. Claimed: the result is a function of
/// `text`.
#[verifier::external_body]
pub(crate) fn toml_decode(text: &str) -> (r: Result<Value, String>)
    ensures
        match r {
            Ok(value) => toml_decoding(text@) == Ok::<Value, Seq<char>>(value),
            Err(reason) => toml_decoding(text@) == Err::<Value, Seq<char>>(reason@),
        },
{
    toml::from_str::<Value>(text).map_err(|e| e.to_string())
}

/// Calls `std::str::from_utf8`. Claimed: it succeeds exactly on well-formed
/// UTF-8, the text it returns has `bytes` as its encoding, and the message of
/// its error is a function of `bytes`.
#[verifier::external_body]
pub(crate) fn utf8_text(bytes: &[u8]) -> (r: Result<&str, String>)
    ensures
        match r {
            Ok(text) => valid_utf8(bytes@) && encode_utf8(text@) == bytes@,
            Err(reason) => !valid_utf8(bytes@) && reason@ == utf8_failure(bytes@),
        },
{
    std::str::from_utf8(bytes).map_err(|e| e.to_string())
}

} // verus!
