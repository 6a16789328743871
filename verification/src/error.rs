//! Why the task list could not be opened.

use vstd::prelude::*;
use vstd::string::*;

verus! {

/// A failure to open the task list. It ends the run before any command is
/// carried out.
#[derive(Debug)]
pub enum InitializationError {
    /// The user's home directory could not be determined.
    HomeDirectoryNotFound,
}

impl InitializationError {
    /// The words that describe the failure.
    pub open spec fn text(&self) -> Seq<char> {
        match self {
            InitializationError::HomeDirectoryNotFound => "Could not find home directory"@,
        }
    }

    /// The words that describe the failure.
    pub fn message(&self) -> (s: String)
        ensures
            s@ == self.text(),
    {
        match self {
            InitializationError::HomeDirectoryNotFound => String::from_str(
                "Could not find home directory",
            ),
        }
    }
}

} // verus!
