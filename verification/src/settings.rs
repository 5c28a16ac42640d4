//! The representative data type persisted by the containers in this crate.
//!
//! The container and format machinery is generic in the stored data; this
//! record, a single retry counter, is the concrete shape the bundled formats
//! encode and decode.

use vstd::prelude::*;

verus! {

/// A flat record with one integer field, the shape the bundled formats
/// serialize as a single `retries` entry.
#[derive(Clone, Copy, Debug, PartialEq, Eq, Structural)]
pub struct Settings {
    pub retries: u64,
}

impl Default for Settings {
    /// The zero value used by `read_or_default` when the file is absent.
    fn default() -> (r: Self)
        ensures
            r.retries == 0,
    {
        Settings { retries: 0 }
    }
}

} // verus!
