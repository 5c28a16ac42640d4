//! The TOML encoding of [`Settings`]: a single `retries = <n>` entry,
//! pretty-printed, through the `toml` crate.

use vstd::prelude::*;
use vstd::string::StringExecFns;

use super::{bare_key, entries_view, settings_from, Error, Format};
use crate::settings::Settings;

verus! {

/// The pretty-printed TOML document holding the one integer entry
/// `key = value`, as `toml::to_string_pretty` renders it.
pub uninterp spec fn toml_doc_of(key: Seq<char>, value: u64) -> Seq<char>;

/// The string-keyed integer entries of a TOML document, in key order, or
/// `None` when `toml::from_str` rejects the document.
pub uninterp spec fn toml_entries_of(s: Seq<char>) -> Option<Seq<(Seq<char>, u64)>>;

/// Relies on `toml::to_string_pretty`: a map with the one unsigned integer
/// entry `key: value` always serializes, as a document that `toml::from_str`
/// reads back as exactly that entry.
#[verifier::external_body]
fn toml_encode_entry(key: &str, value: u64) -> (r: Result<String, String>)
    requires
        bare_key(key@),
    ensures
        r is Ok,
        r matches Ok(s) ==> s@ == toml_doc_of(key@, value),
        r matches Ok(s) ==> toml_entries_of(s@) == Some(seq![(key@, value)]),
{
    let mut table = std::collections::BTreeMap::new();
    table.insert(key.to_owned(), value);
    ::toml::to_string_pretty(&table).map_err(|e| e.to_string())
}

/// Relies on `toml::from_str`: parses a TOML document into its string-keyed
/// unsigned integer entries, in key order, and rejects anything else.
#[verifier::external_body]
fn toml_decode_entries(s: &str) -> (r: Result<Vec<(String, u64)>, String>)
    ensures
        r matches Ok(v) ==> Some(entries_view(v@)) == toml_entries_of(s@),
        r is Ok <==> toml_entries_of(s@) is Some,
{
    ::toml::from_str::<std::collections::BTreeMap<String, u64>>(s)
        .map(|m| m.into_iter().collect())
        .map_err(|e| e.to_string())
}

/// The TOML format: `.toml` extension, pretty-printed output.
pub struct TomlFormat;

impl Format<Settings> for TomlFormat {
    open spec fn spec_extension() -> Option<Seq<char>> {
        Some("toml"@)
    }

    open spec fn spec_encode(d: Settings) -> Option<Seq<char>> {
        Some(toml_doc_of("retries"@, d.retries))
    }

    open spec fn spec_decode(s: Seq<char>) -> Option<Settings> {
        match toml_entries_of(s) {
            Some(entries) => settings_from(entries),
            None => None,
        }
    }

    fn extension() -> (r: Option<&'static str>) {
        Some("toml")
    }

    fn to_string(data: &Settings) -> (r: Result<String, Error>) {
        proof {
            reveal_strlit("retries");
        }
        match toml_encode_entry("retries", data.retries) {
            Ok(s) => Ok(s),
            Err(m) => Err(Error::Encode { message: m }),
        }
    }

    fn from_str(s: &str) -> (r: Result<Settings, Error>) {
        match toml_decode_entries(s) {
            Ok(entries) => {
                match super::settings_of_entries(&entries) {
                    Some(st) => Ok(st),
                    None => Err(
                        Error::Decode { message: String::from_str("missing retries entry") },
                    ),
                }
            },
            Err(m) => Err(Error::Decode { message: m }),
        }
    }
}

} // verus!
