//! Where the task list is kept between runs: a file of a fixed name in the
//! user's home directory.

use crate::error::InitializationError;
use std::path::PathBuf;
use vstd::prelude::*;

verus! {

/// A file-system path. Its contents are not modelled: the library hands a
/// path on and never looks inside.
#[verifier::external_type_specification]
#[verifier::external_body]
pub struct ExPathBuf(PathBuf);

/// Calls `dirs_next::home_dir`. The answer depends on the environment of
/// the process and on the user database, so nothing is claimed about it:
/// callers must deal with either outcome and with any directory.
#[verifier::external_body]
fn home_dir() -> (home: Option<PathBuf>) {
    dirs_next::home_dir()
}

/// The name of the file that holds the tasks, relative to the home directory.
pub fn store_file_name() -> (name: &'static str)
    ensures
        name@ == ".rust_todos.json"@,
{
    ".rust_todos.json"
}

/// Turns the answer to the question for the home directory into the
/// directory to use, or into the failure to report when there is none.
pub fn home_or_error(home: Option<PathBuf>) -> (r: Result<PathBuf, InitializationError>)
    ensures
        r == (match home {
            Some(dir) => Ok::<PathBuf, InitializationError>(dir),
            None => Err(InitializationError::HomeDirectoryNotFound),
        }),
{
    match home {
        Some(dir) => Ok(dir),
        None => Err(InitializationError::HomeDirectoryNotFound),
    }
}

/// Looks up the user's home directory. Whether there is one is for the
/// system to say; when there is none, the failure is
/// `HomeDirectoryNotFound` and no other.
pub fn find_home() -> (r: Result<PathBuf, InitializationError>)
    ensures
        r matches Err(e) ==> e == InitializationError::HomeDirectoryNotFound,
{
    home_or_error(home_dir())
}

} // verus!
