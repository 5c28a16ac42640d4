//! The persisted container: a file path, a chosen format, and a typed
//! in-memory value, with read-with-fallback constructors and a scoped mutable
//! guard.
//!
//! The container performs no file access itself. Constructors take a
//! [`FileRead`] describing what a read of the path produced, and the guard's
//! [`MutData::flush`] returns the serialized document for the caller to write
//! to the path. The invariant this module maintains is that a flushed
//! document always decodes back to the in-memory value it was flushed from.

use core::marker::PhantomData;

use vstd::prelude::*;
use vstd::string::StringExecFns;

use crate::fs::format::{Error as FormatError, Format};

verus! {

/// An error from constructing or flushing a container: either a platform
/// directory could not be resolved, or the format layer failed.
#[derive(Debug)]
pub enum Error {
    ConfigFolderNotFound(crate::fs::Error),
    Format(FormatError),
}

impl From<crate::fs::Error> for Error {
    fn from(e: crate::fs::Error) -> (r: Self)
        ensures
            r == Error::ConfigFolderNotFound(e),
    {
        Error::ConfigFolderNotFound(e)
    }
}

impl vstd::std_specs::convert::FromSpecImpl<crate::fs::Error> for Error {
    open spec fn obeys_from_spec() -> bool {
        true
    }

    open spec fn from_spec(e: crate::fs::Error) -> Self {
        Error::ConfigFolderNotFound(e)
    }
}

impl From<FormatError> for Error {
    fn from(e: FormatError) -> (r: Self)
        ensures
            r == Error::Format(e),
    {
        Error::Format(e)
    }
}

impl vstd::std_specs::convert::FromSpecImpl<FormatError> for Error {
    open spec fn obeys_from_spec() -> bool {
        true
    }

    open spec fn from_spec(e: FormatError) -> Self {
        Error::Format(e)
    }
}

/// What an attempt to read the container's file produced: the file's text,
/// the file's absence, or any other failed access with its message.
#[derive(Debug)]
pub enum FileRead {
    Found(String),
    Missing,
    Failed(String),
}

/// A persisted container: one (path, format, value) triple.
pub struct DataFile<Data, Formatter> {
    path: String,
    data: Data,
    phantom: PhantomData<Formatter>,
}

/// The scoped mutable guard over a container's value.
///
/// While it lives, the guard holds the container exclusively; releasing it
/// through [`MutData::flush`] serializes the current value, whether or not it
/// was changed, and hands the document back along with the container.
pub struct MutData<Data, Formatter> {
    path: String,
    data: Data,
    phantom: PhantomData<Formatter>,
}

impl<Data, Formatter> DataFile<Data, Formatter> {
    /// The container's file path.
    pub closed spec fn spec_path(self) -> Seq<char> {
        self.path@
    }

    /// The container's in-memory value.
    pub closed spec fn spec_data(self) -> Data {
        self.data
    }
}

impl<Data, Formatter: Format<Data>> DataFile<Data, Formatter> {
    /// Strict read: constructs the container from the file's content, and
    /// fails when the file was absent, unreadable, or malformed. An absent
    /// file is reported as an `Io` error with `not_found` set, never as a
    /// `Decode` error.
    pub fn read(path: String, loaded: FileRead) -> (r: Result<Self, Error>)
        ensures
            loaded matches FileRead::Found(c) ==> (match Formatter::spec_decode(c@) {
                Some(d) => r matches Ok(df) && df.spec_data() == d && df.spec_path() == path@,
                None => r matches Err(e) && e matches Error::Format(fe) && fe is Decode,
            }),
            loaded is Missing ==> (r matches Err(e) && e matches Error::Format(fe)
                && fe matches FormatError::Io { not_found, message } && not_found && message@
                == "file not found"@),
            loaded matches FileRead::Failed(m) ==> (r matches Err(e) && e matches Error::Format(
                fe,
            ) && fe matches FormatError::Io { not_found, message } && !not_found && message
                == m),
    {
        match loaded {
            FileRead::Found(content) => {
                match Formatter::from_str(content.as_str()) {
                    Ok(data) => Ok(DataFile { path, data, phantom: PhantomData }),
                    Err(e) => Err(Error::Format(e)),
                }
            },
            FileRead::Missing => Err(
                Error::Format(
                    FormatError::Io {
                        not_found: true,
                        message: String::from_str("file not found"),
                    },
                ),
            ),
            FileRead::Failed(m) => Err(
                Error::Format(FormatError::Io { not_found: false, message: m }),
            ),
        }
    }

    /// Read with an eager fallback: behaves as `read` when the file was
    /// found, and uses `data` without touching anything when the file was
    /// absent.
    pub fn read_or(path: String, loaded: FileRead, data: Data) -> (r: Result<Self, Error>)
        ensures
            loaded matches FileRead::Found(c) ==> (match Formatter::spec_decode(c@) {
                Some(d) => r matches Ok(df) && df.spec_data() == d && df.spec_path() == path@,
                None => r matches Err(e) && e matches Error::Format(fe) && fe is Decode,
            }),
            loaded is Missing ==> (r matches Ok(df) && df.spec_data() == data && df.spec_path()
                == path@),
            loaded matches FileRead::Failed(m) ==> (r matches Err(e) && e matches Error::Format(
                fe,
            ) && fe matches FormatError::Io { not_found, message } && !not_found && message
                == m),
    {
        match loaded {
            FileRead::Found(content) => {
                match Formatter::from_str(content.as_str()) {
                    Ok(parsed) => Ok(DataFile { path, data: parsed, phantom: PhantomData }),
                    Err(e) => Err(Error::Format(e)),
                }
            },
            FileRead::Missing => Ok(DataFile { path, data, phantom: PhantomData }),
            FileRead::Failed(m) => Err(
                Error::Format(FormatError::Io { not_found: false, message: m }),
            ),
        }
    }

    /// Read with a lazy fallback: as `read_or`, but the fallback value is
    /// computed only when the file was absent. The fallback function need
    /// only be callable when the file was absent, so a verified body cannot
    /// invoke it on any other outcome.
    pub fn read_or_else<G: FnOnce() -> Data>(path: String, loaded: FileRead, data: G) -> (r:
        Result<Self, Error>)
        requires
            loaded is Missing ==> call_requires(data, ()),
        ensures
            loaded matches FileRead::Found(c) ==> (match Formatter::spec_decode(c@) {
                Some(d) => r matches Ok(df) && df.spec_data() == d && df.spec_path() == path@,
                None => r matches Err(e) && e matches Error::Format(fe) && fe is Decode,
            }),
            loaded is Missing ==> (r matches Ok(df) && call_ensures(data, (), df.spec_data())
                && df.spec_path() == path@),
            loaded matches FileRead::Failed(m) ==> (r matches Err(e) && e matches Error::Format(
                fe,
            ) && fe matches FormatError::Io { not_found, message } && !not_found && message
                == m),
    {
        match loaded {
            FileRead::Found(content) => {
                match Formatter::from_str(content.as_str()) {
                    Ok(parsed) => Ok(DataFile { path, data: parsed, phantom: PhantomData }),
                    Err(e) => Err(Error::Format(e)),
                }
            },
            FileRead::Missing => Ok(DataFile { path, data: data(), phantom: PhantomData }),
            FileRead::Failed(m) => Err(
                Error::Format(FormatError::Io { not_found: false, message: m }),
            ),
        }
    }

    /// Constructs the container around `data` without any read: the first
    /// write to the path happens only when a guard is later flushed.
    pub fn new(path: String, data: Data) -> (r: Result<Self, Error>)
        ensures
            r matches Ok(df) && df.spec_data() == data && df.spec_path() == path@,
    {
        Ok(DataFile { path, data, phantom: PhantomData })
    }

    /// Immutable access to the in-memory value; no file access.
    pub fn get_data(&self) -> (r: &Data)
        ensures
            *r == self.spec_data(),
    {
        &self.data
    }

    /// Takes the container into a scoped mutable guard. The guard gives the
    /// container back, together with the document to write, when it is
    /// flushed.
    pub fn get_mut_data(self) -> (m: MutData<Data, Formatter>)
        ensures
            m.spec_data() == self.spec_data(),
            m.spec_path() == self.spec_path(),
    {
        MutData { path: self.path, data: self.data, phantom: PhantomData }
    }
}

impl<Data: Default, Formatter: Format<Data>> DataFile<Data, Formatter> {
    /// Read with the type's zero value as fallback: as `read_or` with
    /// `Data::default()` for the absent-file case.
    pub fn read_or_default(path: String, loaded: FileRead) -> (r: Result<Self, Error>)
        ensures
            loaded matches FileRead::Found(c) ==> (match Formatter::spec_decode(c@) {
                Some(d) => r matches Ok(df) && df.spec_data() == d && df.spec_path() == path@,
                None => r matches Err(e) && e matches Error::Format(fe) && fe is Decode,
            }),
            loaded is Missing ==> (r matches Ok(df) && call_ensures(Data::default, (), df.spec_data()) && df.spec_path() == path@),
            loaded matches FileRead::Failed(m) ==> (r matches Err(e) && e matches Error::Format(
                fe,
            ) && fe matches FormatError::Io { not_found, message } && !not_found && message
                == m),
    {
        match loaded {
            FileRead::Found(content) => {
                match Formatter::from_str(content.as_str()) {
                    Ok(parsed) => Ok(DataFile { path, data: parsed, phantom: PhantomData }),
                    Err(e) => Err(Error::Format(e)),
                }
            },
            FileRead::Missing => {
                let default_fn = Data::default;
                Ok(DataFile { path, data: default_fn(), phantom: PhantomData })
            },
            FileRead::Failed(m) => Err(
                Error::Format(FormatError::Io { not_found: false, message: m }),
            ),
        }
    }
}

impl<Data, Formatter> MutData<Data, Formatter> {
    /// The path of the container the guard was taken from.
    pub closed spec fn spec_path(self) -> Seq<char> {
        self.path@
    }

    /// The value currently held by the guard.
    pub closed spec fn spec_data(self) -> Data {
        self.data
    }

    /// Read access to the guarded value.
    pub fn get(&self) -> (r: &Data)
        ensures
            *r == self.spec_data(),
    {
        &self.data
    }

    /// Write access to the guarded value: replaces it.
    pub fn set(&mut self, data: Data)
        ensures
            final(self).spec_data() == data,
            final(self).spec_path() == old(self).spec_path(),
    {
        self.data = data;
    }
}

impl<Data, Formatter: Format<Data>> MutData<Data, Formatter> {
    /// Releases the guard: serializes the current value, whether or not it
    /// was changed, and gives the container back together with the document
    /// to write to its path. A successfully flushed document decodes back to
    /// the flushed value; flushing fails exactly when the format cannot
    /// represent the value.
    pub fn flush(self) -> (r: (DataFile<Data, Formatter>, Result<String, Error>))
        ensures
            r.0.spec_data() == self.spec_data(),
            r.0.spec_path() == self.spec_path(),
            r.1 matches Ok(content) ==> (Formatter::spec_encode(self.spec_data()) == Some(
                content@,
            ) && Formatter::spec_decode(content@) == Some(self.spec_data())),
            r.1 is Ok <==> Formatter::spec_encode(self.spec_data()) is Some,
            r.1 matches Err(e) ==> (e matches Error::Format(fe) && fe is Encode),
    {
        let flushed = match Formatter::to_string(&self.data) {
            Ok(content) => Ok(content),
            Err(e) => Err(Error::Format(e)),
        };
        (DataFile { path: self.path, data: self.data, phantom: PhantomData }, flushed)
    }
}

/// Read after write: constructing a container with `new`, taking a guard and
/// flushing it with no mutation, then strictly reading the flushed document,
/// yields a container holding a value equal to the original, whenever the
/// format can represent the value at all.
pub fn write_back_then_read<Data, Formatter: Format<Data>>(path: String, value: Data) -> (r:
    Option<DataFile<Data, Formatter>>)
    ensures
        r matches Some(df) ==> (df.spec_data() == value && df.spec_path() == path@),
        r is Some <==> Formatter::spec_encode(value) is Some,
{
    let reread_path = path.clone();
    let df = match DataFile::<Data, Formatter>::new(path, value) {
        Ok(df) => df,
        Err(_) => {
            return None;
        },
    };
    let guard = df.get_mut_data();
    let (_df, flushed) = guard.flush();
    match flushed {
        Ok(content) => {
            match DataFile::<Data, Formatter>::read(reread_path, FileRead::Found(content)) {
                Ok(reread) => Some(reread),
                Err(_) => None,
            }
        },
        Err(_) => None,
    }
}

/// Mutation persistence: constructing a container with `new`, replacing its
/// value through a guard, flushing, then strictly reading the flushed
/// document, yields a container holding the replacement value, whenever the
/// format can represent that value at all.
pub fn mutate_then_read<Data, Formatter: Format<Data>>(
    path: String,
    initial: Data,
    updated: Data,
) -> (r: Option<DataFile<Data, Formatter>>)
    ensures
        r matches Some(df) ==> (df.spec_data() == updated && df.spec_path() == path@),
        r is Some <==> Formatter::spec_encode(updated) is Some,
{
    let reread_path = path.clone();
    let df = match DataFile::<Data, Formatter>::new(path, initial) {
        Ok(df) => df,
        Err(_) => {
            return None;
        },
    };
    let mut guard = df.get_mut_data();
    guard.set(updated);
    let (_df, flushed) = guard.flush();
    match flushed {
        Ok(content) => {
            match DataFile::<Data, Formatter>::read(reread_path, FileRead::Found(content)) {
                Ok(reread) => Some(reread),
                Err(_) => None,
            }
        },
        Err(_) => None,
    }
}

} // verus!
