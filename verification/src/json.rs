//! The JSON documents that the error classifier reads, held as plain values,
//! and the trusted boundary to serde_json that produces them.

use vstd::prelude::*;
use crate::text::str_eq;

verus! {

/// A parsed JSON document. serde_json parses the response body; its tree is
/// reshaped into this type, one node per JSON node, so that verified code can
/// read it. Numbers keep their value only when they are unsigned integers:
/// that is all the error shapes ever read of a number.
#[derive(Debug)]
pub enum JsonTree {
    /// `null`.
    Null,
    /// `true` or `false`.
    Bool(bool),
    /// A number that is an unsigned 64-bit integer.
    UInt(u64),
    /// Any other number (negative or fractional); no error shape reads its value.
    OtherNumber,
    /// A string.
    Text(String),
    /// An array.
    Array(Vec<JsonTree>),
    /// An object: its entries as serde_json hands them out, one per distinct key.
    Object(Vec<(String, JsonTree)>),
}

#[verifier::external_type_specification]
#[verifier::external_body]
pub struct ExSerdeJsonValue(serde_json::Value);

#[verifier::external_type_specification]
#[verifier::external_body]
pub struct ExSerdeJsonError(serde_json::Error);

/// What serde_json makes of a byte sequence: `None` when it refuses the bytes
/// as not holding one JSON document, otherwise the parsed document. The
/// result depends on the bytes alone.
pub uninterp spec fn json_of(bytes: Seq<u8>) -> Option<JsonTree>;

/// The lossy UTF-8 decoding of a byte sequence: invalid sequences replaced by
/// the replacement character, never failing. The result depends on the bytes
/// alone.
pub uninterp spec fn lossy_text(bytes: Seq<u8>) -> Seq<char>;

/// Conversion used by `parse_json`: relies on serde_json::Value's own
/// accessors (`Number::as_u64`) to read each node, one arm per variant.
#[verifier::external_body]
fn tree_of_value(v: &serde_json::Value) -> JsonTree {
    match v {
        serde_json::Value::Null => JsonTree::Null,
        serde_json::Value::Bool(b) => JsonTree::Bool(*b),
        serde_json::Value::Number(n) => match n.as_u64() {
            Some(u) => JsonTree::UInt(u),
            None => JsonTree::OtherNumber,
        },
        serde_json::Value::String(s) => JsonTree::Text(s.clone()),
        serde_json::Value::Array(a) => JsonTree::Array(a.iter().map(tree_of_value).collect()),
        serde_json::Value::Object(m) => JsonTree::Object(
            m.iter().map(|(k, x)| (k.clone(), tree_of_value(x))).collect(),
        ),
    }
}

/// Relies on `serde_json::from_slice::<serde_json::Value>`: parses the bytes
/// as one JSON document, failing exactly when serde_json refuses them.
#[verifier::external_body]
pub(crate) fn parse_json(bytes: &[u8]) -> (r: Option<JsonTree>)
    ensures
        r == json_of(bytes@),
{
    match serde_json::from_slice::<serde_json::Value>(bytes) {
        Ok(v) => Some(tree_of_value(&v)),
        Err(_) => None,
    }
}

/// Relies on `String::from_utf8_lossy`: decodes bytes as UTF-8, substituting
/// the replacement character for invalid sequences; it never fails.
#[verifier::external_body]
pub(crate) fn utf8_lossy(bytes: &[u8]) -> (r: String)
    ensures
        r@ == lossy_text(bytes@),
{
    String::from_utf8_lossy(bytes).into_owned()
}

/// The value under `key` in an object's entries: the first entry whose key
/// matches, if any.
pub open spec fn lookup(entries: Seq<(String, JsonTree)>, key: Seq<char>) -> Option<JsonTree>
    decreases entries.len(),
{
    if entries.len() == 0 {
        None
    } else if entries[0].0@ == key {
        Some(entries[0].1)
    } else {
        lookup(entries.drop_first(), key)
    }
}

/// Finds the entry holding `key`, as an index into `entries`.
pub fn lookup_index(entries: &Vec<(String, JsonTree)>, key: &str) -> (r: Option<usize>)
    ensures
        match r {
            Some(i) => i < entries@.len() && lookup(entries@, key@) == Some(entries@[i as int].1),
            None => lookup(entries@, key@) is None,
        },
{
    let mut i: usize = 0;
    proof {
        assert(entries@.subrange(0, entries@.len() as int) =~= entries@);
    }
    while i < entries.len()
        invariant
            i <= entries@.len(),
            lookup(entries@, key@) == lookup(
                entries@.subrange(i as int, entries@.len() as int),
                key@,
            ),
        decreases entries@.len() - i,
    {
        if str_eq(entries[i].0.as_str(), key) {
            proof {
                assert(entries@.subrange(i as int, entries@.len() as int)[0] == entries@[i as int]);
            }
            return Some(i);
        }
        proof {
            let tail = entries@.subrange(i as int, entries@.len() as int);
            assert(tail[0] == entries@[i as int]);
            assert(tail.drop_first() =~= entries@.subrange(i as int + 1, entries@.len() as int));
        }
        i = i + 1;
    }
    proof {
        assert(entries@.subrange(entries@.len() as int, entries@.len() as int).len() == 0);
    }
    None
}

} // verus!
