//! Resolution of platform configuration and cache directories.
//!
//! The lookup itself reads the process environment through the `xdg` crate and
//! is trusted; joining a file or application name onto the resolved base is
//! verified string manipulation.

use vstd::prelude::*;
use vstd::string::StringExecFns;

pub mod format;

verus! {

/// Failure to resolve a platform directory: the user's home (and with it every
/// XDG base directory) could not be determined.
#[derive(Clone, Debug)]
pub enum Error {
    HomeNotFound,
}

/// Namespace for the platform-specific standard directories.
pub struct StandardPaths;

/// The path obtained by appending one component onto a base directory with a
/// `/` separator.
pub open spec fn joined(base: Seq<char>, name: Seq<char>) -> Seq<char> {
    base + "/"@ + name
}

/// Relies on `xdg::BaseDirectories::new` and `get_config_home`: the
/// user-specific XDG configuration directory, or `None` when no home
/// directory can be determined from the environment.
#[verifier::external_body]
fn os_config_home() -> Option<String> {
    xdg::BaseDirectories::new()
        .get_config_home()
        .and_then(|p| p.into_os_string().into_string().ok())
}

/// Relies on `xdg::BaseDirectories::new` and `get_cache_home`: the
/// user-specific XDG cache directory, or `None` when no home directory can be
/// determined from the environment.
#[verifier::external_body]
fn os_cache_home() -> Option<String> {
    xdg::BaseDirectories::new()
        .get_cache_home()
        .and_then(|p| p.into_os_string().into_string().ok())
}

/// Appends `name` onto the directory `base` with a `/` separator.
fn join_path(base: String, name: &str) -> (r: String)
    ensures
        r@ == joined(base@, name@),
{
    base.concat("/").concat(name)
}

impl StandardPaths {
    /// The user's configuration directory, as the environment determines it.
    pub fn config_path() -> (r: Result<String, Error>)
        ensures
            r matches Err(e) ==> e is HomeNotFound,
    {
        match os_config_home() {
            Some(p) => Ok(p),
            None => Err(Error::HomeNotFound),
        }
    }

    /// The configuration directory for the application named `prefix`: the
    /// user's configuration directory with `prefix` appended.
    pub fn config_with_name(prefix: &str) -> (r: Result<String, Error>)
        ensures
            r matches Ok(p) ==> exists|base: Seq<char>| p@ == joined(base, prefix@),
            r matches Err(e) ==> e is HomeNotFound,
    {
        match Self::config_path() {
            Ok(base) => Ok(join_path(base, prefix)),
            Err(e) => Err(e),
        }
    }

    /// The user's cache directory, as the environment determines it.
    pub fn cache_path() -> (r: Result<String, Error>)
        ensures
            r matches Err(e) ==> e is HomeNotFound,
    {
        match os_cache_home() {
            Some(p) => Ok(p),
            None => Err(Error::HomeNotFound),
        }
    }

    /// The cache directory for the application named `prefix`: the user's
    /// cache directory with `prefix` appended.
    pub fn cache_with_name(prefix: &str) -> (r: Result<String, Error>)
        ensures
            r matches Ok(p) ==> exists|base: Seq<char>| p@ == joined(base, prefix@),
            r matches Err(e) ==> e is HomeNotFound,
    {
        match Self::cache_path() {
            Ok(base) => Ok(join_path(base, prefix)),
            Err(e) => Err(e),
        }
    }
}

} // verus!
