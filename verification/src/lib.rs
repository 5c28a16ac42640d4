//! A small persistence helper: a typed container that pairs a file path, an
//! on-disk encoding, and an in-memory value, with read-with-fallback
//! constructors and a scoped mutable guard whose release yields the serialized
//! content to write back.
//!
//! The library itself performs no file or environment access: callers hand a
//! [`datafile::FileRead`] describing what a read of the path produced, and
//! receive the serialized document back from [`datafile::MutData::flush`] to
//! write out themselves.

pub mod datafile;
pub mod fs;
pub mod settings;
