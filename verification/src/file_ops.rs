//! Project file handling: the decision core of save and load. The host
//! application reads and writes the actual files; loading hands the file's
//! content (or its absence) in, and the library validates and passes it
//! through unchanged.

use vstd::prelude::*;
use vstd::string::StringExecFns;

use crate::json::{json_accepted, json_parses};

verus! {

/// Errors from project file handling.
#[derive(Debug, Clone, PartialEq)]
pub enum FileOpsError {
    /// The project file does not exist; carries the offending path.
    NotFound { path: String },
    /// The file's content is not valid JSON.
    NotJson,
}

impl FileOpsError {
    /// A human-readable description of the error.
    pub fn message(&self) -> (r: String)
        ensures
            self matches FileOpsError::NotFound { path } ==> r@
                == "Project file does not exist: "@ + path@,
            self is NotJson ==> r@ == "Project file is not valid JSON"@,
    {
        match self {
            FileOpsError::NotFound { path } => {
                let mut m = String::from_str("Project file does not exist: ");
                m.append(path.as_str());
                m
            },
            FileOpsError::NotJson => String::from_str("Project file is not valid JSON"),
        }
    }
}

/// Decide the outcome of loading a project file from what the host read:
/// `None` when the file does not exist, `Some` with its full content
/// otherwise.
///
/// Valid JSON content is returned unchanged, so a load after a save yields
/// the saved bytes identically; anything else is rejected, if and only if
/// the JSON parser refuses it.
pub fn load_project(path: &str, content: Option<String>) -> (r: Result<String, FileOpsError>)
    ensures
        content is None ==> (r matches Err(e) && e matches FileOpsError::NotFound { path: p }
            && p@ == path@),
        content matches Some(data) ==> (json_accepted(data@) ==> (r matches Ok(o) && o == data)),
        content matches Some(data) ==> (!json_accepted(data@) ==> (r matches Err(e)
            && e is NotJson)),
{
    match content {
        None => Err(FileOpsError::NotFound { path: String::from_str(path) }),
        Some(data) => {
            if json_parses(data.as_str()) {
                Ok(data)
            } else {
                Err(FileOpsError::NotJson)
            }
        },
    }
}

} // verus!
