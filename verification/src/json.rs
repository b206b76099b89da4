//! The JSON documents Iris reads and writes, through `serde_json`.
//!
//! Parsing and printing JSON is `serde_json`'s work.  The library holds a
//! parsed document as a `JsonDoc` and reads members out of it as plain
//! values.  What `serde_json` returns is named by the functions below; their
//! contracts say that each read equals the name applied to the document's
//! source text and the key.
use vstd::prelude::*;

verus! {

#[verifier::external_type_specification]
#[verifier::external_body]
pub struct ExJsonValue(serde_json::Value);

/// Whether `serde_json::from_str::<serde_json::Value>` accepts `text`.
pub uninterp spec fn json_parses(text: Seq<char>) -> bool;

/// The string member `key` of the document `text` parses to: what
/// `Value::get(key)` followed by `Value::as_str` gives (`None` when the
/// member is absent or is not a string).
pub uninterp spec fn json_member_str(text: Seq<char>, key: Seq<char>) -> Option<Seq<char>>;

/// The unsigned member `key` of the document `text` parses to: what
/// `Value::get(key)` followed by `Value::as_u64` gives (`None` when the member
/// is absent or is not a non-negative integer that fits in 64 bits).
pub uninterp spec fn json_member_u64(text: Seq<char>, key: Seq<char>) -> Option<u64>;

/// What `serde_json::to_string_pretty` prints for the object whose only
/// members are `key1: value1` and `key2: value2`, both strings.
pub uninterp spec fn json_pretty_pair(
    key1: Seq<char>,
    value1: Seq<char>,
    key2: Seq<char>,
    value2: Seq<char>,
) -> Seq<char>;

/// A parsed JSON document, with the text it was parsed from.
///
/// A `JsonDoc` is only ever made by `JsonDoc::parse`, so `value` is always
/// what `serde_json` parsed `source()` into.
pub struct JsonDoc {
    value: serde_json::Value,
    text: Ghost<Seq<char>>,
}

impl JsonDoc {
    /// The text this document was parsed from.
    pub closed spec fn source(&self) -> Seq<char> {
        self.text@
    }

    /// Parses `text` with `serde_json::from_str::<serde_json::Value>`;
    /// `None` exactly when `serde_json` refuses the text.
    #[verifier::external_body]
    pub fn parse(text: &str) -> (r: Option<JsonDoc>)
        ensures
            r is Some <==> json_parses(text@),
            r matches Some(d) ==> d.source() == text@,
    {
        match serde_json::from_str::<serde_json::Value>(text) {
            Ok(value) => Some(JsonDoc { value, text: Ghost(text@) }),
            Err(_) => None,
        }
    }

    /// The string member `key` (`serde_json::Value::get`, then
    /// `serde_json::Value::as_str`).
    #[verifier::external_body]
    pub fn member_str(&self, key: &str) -> (r: Option<String>)
        ensures
            r.deep_view() == json_member_str(self.source(), key@),
    {
        match self.value.get(key) {
            Some(member) => match member.as_str() {
                Some(s) => Some(s.to_string()),
                None => None,
            },
            None => None,
        }
    }

    /// The unsigned member `key` (`serde_json::Value::get`, then
    /// `serde_json::Value::as_u64`).
    #[verifier::external_body]
    pub fn member_u64(&self, key: &str) -> (r: Option<u64>)
        ensures
            r == json_member_u64(self.source(), key@),
    {
        match self.value.get(key) {
            Some(member) => member.as_u64(),
            None => None,
        }
    }
}

/// Prints the object `{key1: value1, key2: value2}` (two string members)
/// with `serde_json::to_string_pretty`.
///
/// Besides naming the text, the contract states what `serde_json`'s own
/// round trip guarantees: the printed text parses again, and reading either
/// key back gives its value (the first only when the keys differ, since a
/// later member replaces an earlier one).  Printing a `Value` built from
/// strings cannot fail, so the empty fallback is never taken.
#[verifier::external_body]
pub fn pretty_pair(key1: &str, value1: &str, key2: &str, value2: &str) -> (r: String)
    ensures
        r@ == json_pretty_pair(key1@, value1@, key2@, value2@),
        json_parses(r@),
        key1@ != key2@ ==> json_member_str(r@, key1@) == Some(value1@),
        json_member_str(r@, key2@) == Some(value2@),
{
    let mut map = serde_json::Map::new();
    map.insert(key1.to_string(), serde_json::Value::String(value1.to_string()));
    map.insert(key2.to_string(), serde_json::Value::String(value2.to_string()));
    serde_json::to_string_pretty(&serde_json::Value::Object(map)).unwrap_or_default()
}

} // verus!
