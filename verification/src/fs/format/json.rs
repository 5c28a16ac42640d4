//! The JSON encoding of [`Settings`]: a single compact `{"retries":<n>}`
//! document, through the `serde_json` crate.

use vstd::prelude::*;
use vstd::string::StringExecFns;

use super::{bare_key, entries_view, settings_from, Error, Format};
use crate::settings::Settings;

verus! {

/// The compact JSON document holding the one integer entry `"key": value`, as
/// `serde_json::to_string` renders it.
pub uninterp spec fn json_doc_of(key: Seq<char>, value: u64) -> Seq<char>;

/// The string-keyed integer entries of a JSON document, in key order, or
/// `None` when `serde_json::from_str` rejects the document.
pub uninterp spec fn json_entries_of(s: Seq<char>) -> Option<Seq<(Seq<char>, u64)>>;

/// Relies on `serde_json::to_string`: a map with the one unsigned integer
/// entry `key: value` always serializes, as a compact document that
/// `serde_json::from_str` reads back as exactly that entry, and that
/// `json5::from_str` (JSON5 being a superset of JSON that parses plain
/// decimal integers exactly) reads back the same way.
#[verifier::external_body]
pub(crate) fn json_encode_entry(key: &str, value: u64) -> (r: Result<String, String>)
    requires
        bare_key(key@),
    ensures
        r is Ok,
        r matches Ok(s) ==> s@ == json_doc_of(key@, value),
        r matches Ok(s) ==> json_entries_of(s@) == Some(seq![(key@, value)]),
        r matches Ok(s) ==> super::json5::json5_entries_of(s@) == Some(seq![(key@, value)]),
{
    let mut map = std::collections::BTreeMap::new();
    map.insert(key.to_owned(), value);
    serde_json::to_string(&map).map_err(|e| e.to_string())
}

/// Relies on `serde_json::from_str`: parses a JSON document into its
/// string-keyed unsigned integer entries, in key order, and rejects anything
/// else.
#[verifier::external_body]
fn json_decode_entries(s: &str) -> (r: Result<Vec<(String, u64)>, String>)
    ensures
        r matches Ok(v) ==> Some(entries_view(v@)) == json_entries_of(s@),
        r is Ok <==> json_entries_of(s@) is Some,
{
    serde_json::from_str::<std::collections::BTreeMap<String, u64>>(s)
        .map(|m| m.into_iter().collect())
        .map_err(|e| e.to_string())
}

/// The JSON format: `.json` extension, compact output.
pub struct JsonFormat;

impl Format<Settings> for JsonFormat {
    open spec fn spec_extension() -> Option<Seq<char>> {
        Some("json"@)
    }

    open spec fn spec_encode(d: Settings) -> Option<Seq<char>> {
        Some(json_doc_of("retries"@, d.retries))
    }

    open spec fn spec_decode(s: Seq<char>) -> Option<Settings> {
        match json_entries_of(s) {
            Some(entries) => settings_from(entries),
            None => None,
        }
    }

    fn extension() -> (r: Option<&'static str>) {
        Some("json")
    }

    fn to_string(data: &Settings) -> (r: Result<String, Error>) {
        proof {
            reveal_strlit("retries");
        }
        match json_encode_entry("retries", data.retries) {
            Ok(s) => Ok(s),
            Err(m) => Err(Error::Encode { message: m }),
        }
    }

    fn from_str(s: &str) -> (r: Result<Settings, Error>) {
        match json_decode_entries(s) {
            Ok(entries) => {
                match super::settings_of_entries(&entries) {
                    Some(st) => Ok(st),
                    None => Err(
                        Error::Decode { message: String::from_str("missing retries entry") },
                    ),
                }
            },
            Err(m) => Err(Error::Decode { message: m }),
        }
    }
}

} // verus!
