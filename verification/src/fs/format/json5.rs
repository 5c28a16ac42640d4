//! The JSON5 encoding of [`Settings`]: reads the relaxed JSON5 syntax through
//! the `json5` crate, and writes compact standard JSON (which JSON5 accepts)
//! through `serde_json`, as the JSON format does.

use vstd::prelude::*;
use vstd::string::StringExecFns;

use super::{entries_view, settings_from, Error, Format};
use crate::settings::Settings;

verus! {

/// The string-keyed integer entries of a JSON5 document, in key order, or
/// `None` when `json5::from_str` rejects the document.
pub uninterp spec fn json5_entries_of(s: Seq<char>) -> Option<Seq<(Seq<char>, u64)>>;

/// Relies on `json5::from_str`: parses a JSON5 document into its string-keyed
/// unsigned integer entries, in key order, and rejects anything else.
#[verifier::external_body]
fn json5_decode_entries(s: &str) -> (r: Result<Vec<(String, u64)>, String>)
    ensures
        r matches Ok(v) ==> Some(entries_view(v@)) == json5_entries_of(s@),
        r is Ok <==> json5_entries_of(s@) is Some,
{
    ::json5::from_str::<std::collections::BTreeMap<String, u64>>(s)
        .map(|m| m.into_iter().collect())
        .map_err(|e| e.to_string())
}

/// The JSON5 format: `.json5` extension, relaxed syntax on read, compact
/// standard JSON on write.
pub struct Json5Format;

impl Format<Settings> for Json5Format {
    open spec fn spec_extension() -> Option<Seq<char>> {
        Some("json5"@)
    }

    open spec fn spec_encode(d: Settings) -> Option<Seq<char>> {
        Some(super::json::json_doc_of("retries"@, d.retries))
    }

    open spec fn spec_decode(s: Seq<char>) -> Option<Settings> {
        match json5_entries_of(s) {
            Some(entries) => settings_from(entries),
            None => None,
        }
    }

    fn extension() -> (r: Option<&'static str>) {
        Some("json5")
    }

    fn to_string(data: &Settings) -> (r: Result<String, Error>) {
        proof {
            reveal_strlit("retries");
        }
        match super::json::json_encode_entry("retries", data.retries) {
            Ok(s) => Ok(s),
            Err(m) => Err(Error::Encode { message: m }),
        }
    }

    fn from_str(s: &str) -> (r: Result<Settings, Error>) {
        match json5_decode_entries(s) {
            Ok(entries) => {
                match super::settings_of_entries(&entries) {
                    Some(st) => Ok(st),
                    None => Err(
                        Error::Decode { message: String::from_str("missing retries entry") },
                    ),
                }
            },
            Err(m) => Err(Error::Decode { message: m }),
        }
    }
}

} // verus!
