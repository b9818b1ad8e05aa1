//! The directories of an application, made from the directories that the platform
//! reports. Looking a directory up is the caller's part; what this module decides is
//! what becomes of the answer.

use std::path::PathBuf;
use vstd::prelude::*;

verus! {

/// `std::path::PathBuf`, carried through as it is.
#[verifier::external_type_specification]
#[verifier::external_body]
pub struct ExPathBuf(PathBuf);

/// Why no path can be given.
#[derive(Debug, Clone, Copy, PartialEq, Eq, Structural)]
pub enum PathError {
    /// The platform knows no such directory.
    UnknownPath,
}

/// Calls `std::path::Path::join`: `base` with `child` adjoined. Nothing is claimed of
/// the joined path.
#[verifier::external_body]
fn join(base: PathBuf, child: &str) -> PathBuf {
    base.join(child)
}

/// The directory that was looked up, or the error that says that there is none.
pub open spec fn located(found: Option<PathBuf>) -> Result<PathBuf, PathError> {
    match found {
        Some(dir) => Ok(dir),
        None => Err(PathError::UnknownPath),
    }
}

/// What becomes of a directory that was looked up: the directory, or `UnknownPath`
/// where the platform knows none.
pub fn resolve(found: Option<PathBuf>) -> (dir: Result<PathBuf, PathError>)
    ensures
        dir == located(found),
{
    match found {
        Some(dir) => Ok(dir),
        None => Err(PathError::UnknownPath),
    }
}

/// Resolves the directories of one application.
#[derive(Debug)]
pub struct PathResolver {
    identifier: String,
}

impl PathResolver {
    /// The bundle identifier of the application.
    pub closed spec fn spec_identifier(&self) -> Seq<char> {
        self.identifier@
    }

    /// A resolver for the application with this bundle identifier.
    pub fn new(identifier: String) -> (resolver: Self)
        ensures
            resolver.spec_identifier() == identifier@,
    {
        PathResolver { identifier }
    }

    /// The bundle identifier of the application.
    pub fn identifier(&self) -> (identifier: &str)
        ensures
            identifier@ == self.spec_identifier(),
    {
        self.identifier.as_str()
    }

    /// The resource directory of the application: the directory that was found for it,
    /// and `UnknownPath` where none was.
    pub fn resource_dir(&self, found: Option<PathBuf>) -> (dir: Result<PathBuf, PathError>)
        ensures
            dir == located(found),
    {
        resolve(found)
    }

    /// The application's own directory under `base`, named by the bundle identifier;
    /// `UnknownPath` where the platform gave no `base`.
    fn app_dir(&self, base: Option<PathBuf>) -> (dir: Result<PathBuf, PathError>)
        ensures
            base is Some <==> dir is Ok,
            base is None ==> dir == Err::<PathBuf, PathError>(PathError::UnknownPath),
    {
        match base {
            Some(dir) => Ok(join(dir, self.identifier.as_str())),
            None => Err(PathError::UnknownPath),
        }
    }

    /// The directory for the application's configuration files: the bundle identifier
    /// under the user's configuration directory.
    pub fn app_config_dir(&self, config_dir: Option<PathBuf>) -> (dir: Result<PathBuf, PathError>)
        ensures
            config_dir is Some <==> dir is Ok,
            config_dir is None ==> dir == Err::<PathBuf, PathError>(PathError::UnknownPath),
    {
        self.app_dir(config_dir)
    }

    /// The directory for the application's data files: the bundle identifier under the
    /// user's data directory.
    pub fn app_data_dir(&self, data_dir: Option<PathBuf>) -> (dir: Result<PathBuf, PathError>)
        ensures
            data_dir is Some <==> dir is Ok,
            data_dir is None ==> dir == Err::<PathBuf, PathError>(PathError::UnknownPath),
    {
        self.app_dir(data_dir)
    }

    /// The directory for the application's local data files: the bundle identifier
    /// under the user's local data directory.
    pub fn app_local_data_dir(&self, local_data_dir: Option<PathBuf>) -> (dir: Result<
        PathBuf,
        PathError,
    >)
        ensures
            local_data_dir is Some <==> dir is Ok,
            local_data_dir is None ==> dir == Err::<PathBuf, PathError>(PathError::UnknownPath),
    {
        self.app_dir(local_data_dir)
    }

    /// The directory for the application's cache files: the bundle identifier under the
    /// user's cache directory.
    pub fn app_cache_dir(&self, cache_dir: Option<PathBuf>) -> (dir: Result<PathBuf, PathError>)
        ensures
            cache_dir is Some <==> dir is Ok,
            cache_dir is None ==> dir == Err::<PathBuf, PathError>(PathError::UnknownPath),
    {
        self.app_dir(cache_dir)
    }

    /// The directory for the application's log files. On macOS it is
    /// `Library/Logs` and the bundle identifier under the home directory, which is then
    /// the `base` to give; elsewhere it is the bundle identifier and `logs` under the
    /// local data directory.
    pub fn app_log_dir(&self, base: Option<PathBuf>, macos: bool) -> (dir: Result<
        PathBuf,
        PathError,
    >)
        ensures
            base is Some <==> dir is Ok,
            base is None ==> dir == Err::<PathBuf, PathError>(PathError::UnknownPath),
    {
        match base {
            Some(dir) => {
                if macos {
                    Ok(join(join(dir, "Library/Logs"), self.identifier.as_str()))
                } else {
                    Ok(join(join(dir, self.identifier.as_str()), "logs"))
                }
            },
            None => Err(PathError::UnknownPath),
        }
    }
}

} // verus!
