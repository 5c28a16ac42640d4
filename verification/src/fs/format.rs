//! The format abstraction: translation between a typed in-memory value and
//! the text of one on-disk encoding.
//!
//! Each encoding is a unit struct implementing [`Format`] for the data it can
//! carry. The contract of the trait pins serialization down to a
//! format-specific document function, and demands that a document produced by
//! `to_string` decodes back to the value it came from.

use vstd::prelude::*;
use vstd::string::StringExecFns;

use crate::settings::Settings;

pub mod json;
pub mod json5;
pub mod toml;

pub use self::json::JsonFormat;
pub use self::json5::Json5Format;
pub use self::toml::TomlFormat;

verus! {

/// What can go wrong while moving a value between memory and file content.
///
/// `Io` reports a failed file access (with `not_found` telling an absent file
/// apart from any other failure), `Decode` malformed file content, and
/// `Encode` a value the encoding cannot represent.
#[derive(Debug)]
pub enum Error {
    Io { not_found: bool, message: String },
    Decode { message: String },
    Encode { message: String },
}

/// An encoding strategy: a translation between values of type `Data` and the
/// text of one on-disk format.
///
/// `spec_encode` and `spec_decode` are the mathematical content of the
/// translation; the executable `to_string` and `from_str` must follow them
/// exactly. A successful `to_string` must moreover produce a document that
/// `spec_decode` maps back to the encoded value, which is what makes
/// write-then-read round trips provable for every implementation.
pub trait Format<Data>: Sized {
    /// The canonical file extension of the format, if it has one.
    spec fn spec_extension() -> Option<Seq<char>>;

    /// The document that encodes `d`, or `None` when the format cannot
    /// represent `d`.
    spec fn spec_encode(d: Data) -> Option<Seq<char>>;

    /// The value that the document `s` denotes, or `None` when `s` is not a
    /// well-formed document carrying a value of type `Data`.
    spec fn spec_decode(s: Seq<char>) -> Option<Data>;

    /// The canonical file extension, for informational use only.
    fn extension() -> (r: Option<&'static str>)
        ensures
            match (r, Self::spec_extension()) {
                (Some(e), Some(se)) => e@ == se,
                (None, None) => true,
                _ => false,
            },
    ;

    /// Serializes `data` as a document of this format.
    fn to_string(data: &Data) -> (r: Result<String, Error>)
        ensures
            r matches Ok(s) ==> Self::spec_encode(*data) == Some(s@),
            r matches Ok(s) ==> Self::spec_decode(s@) == Some(*data),
            r is Ok <==> Self::spec_encode(*data) is Some,
            r matches Err(e) ==> e is Encode,
    ;

    /// Parses a document of this format into a value.
    fn from_str(s: &str) -> (r: Result<Data, Error>)
        ensures
            r matches Ok(d) ==> Self::spec_decode(s@) == Some(d),
            r is Ok <==> Self::spec_decode(s@) is Some,
            r matches Err(e) ==> e is Decode,
    ;
}

/// Round trip: a value the format can represent decodes back to itself after
/// encoding. Encoding fails exactly when the format cannot represent the
/// value, and then the error reports the encoding failure.
pub fn encode_then_decode<Data, F: Format<Data>>(value: &Data) -> (r: Result<Data, Error>)
    ensures
        r matches Ok(d) ==> d == *value,
        r is Ok <==> F::spec_encode(*value) is Some,
        r matches Err(e) ==> e is Encode,
{
    match F::to_string(value) {
        Ok(s) => {
            match F::from_str(s.as_str()) {
                Ok(d) => Ok(d),
                Err(e) => Err(e),
            }
        },
        Err(e) => Err(e),
    }
}

/// A key fit to stand unquoted in every bundled format: nonempty ASCII
/// lowercase letters.
pub open spec fn bare_key(s: Seq<char>) -> bool {
    &&& s.len() > 0
    &&& forall|i: int| 0 <= i < s.len() ==> 'a' <= #[trigger] s[i] <= 'z'
}

/// The value of the first entry named `key`, if any.
pub open spec fn entry_value(entries: Seq<(Seq<char>, u64)>, key: Seq<char>) -> Option<u64>
    decreases entries.len(),
{
    if entries.len() == 0 {
        None
    } else if entries[0].0 == key {
        Some(entries[0].1)
    } else {
        entry_value(entries.drop_first(), key)
    }
}

/// The view of decoded entries as plain key/value pairs.
pub open spec fn entries_view(entries: Seq<(String, u64)>) -> Seq<(Seq<char>, u64)> {
    entries.map_values(|p: (String, u64)| (p.0@, p.1))
}

/// The `Settings` value carried by a list of decoded entries: the first
/// `retries` entry, with any other entries ignored, or `None` when no
/// `retries` entry is present.
pub open spec fn settings_from(entries: Seq<(Seq<char>, u64)>) -> Option<Settings> {
    match entry_value(entries, "retries"@) {
        Some(n) => Some(Settings { retries: n }),
        None => None,
    }
}

/// Extracts the `Settings` value from decoded entries, following
/// [`settings_from`] exactly.
pub(crate) fn settings_of_entries(entries: &Vec<(String, u64)>) -> (r: Option<Settings>)
    ensures
        r == settings_from(entries_view(entries@)),
{
    let key: String = String::from_str("retries");
    let ghost em = entries_view(entries@);
    let mut i: usize = 0;
    proof {
        assert(em.skip(0) =~= em);
    }
    while i < entries.len()
        invariant
            0 <= i <= entries@.len(),
            key@ == "retries"@,
            em == entries_view(entries@),
            em.len() == entries@.len(),
            entry_value(em, "retries"@) == entry_value(em.skip(i as int), "retries"@),
        decreases entries@.len() - i,
    {
        if entries[i].0 == key {
            proof {
                assert(em.skip(i as int)[0] == em[i as int]);
            }
            return Some(Settings { retries: entries[i].1 });
        }
        proof {
            assert(em.skip(i as int)[0] == em[i as int]);
            assert(em.skip(i as int).drop_first() =~= em.skip(i as int + 1));
        }
        i += 1;
    }
    proof {
        assert(em.skip(entries@.len() as int) =~= Seq::<(Seq<char>, u64)>::empty());
    }
    None
}

} // verus!
