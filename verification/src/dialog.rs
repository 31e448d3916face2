//! The file-open side of loading: the raw bytes handed in by the host, and
//! the classification of a native file-dialog's outcome.
//!
//! The dialog itself and the file read are host I/O; what is decided here is
//! only which outcomes yield a usable path and which are load failures.
use vstd::prelude::*;

use crate::LoadError;

verus! {

/// A font file as read from disk: where it came from and its raw bytes.
#[derive(Debug, Clone, PartialEq)]
pub struct RawFontInfo {
    pub path: String,
    pub data: Vec<u8>,
}

/// The four ways a native "choose file" prompt can end.
#[derive(Debug, Clone, PartialEq)]
pub enum DialogOutcome {
    /// Exactly one file was chosen.
    Okay(String),
    /// Several files were chosen where one was expected.
    OkayMultiple,
    /// The user dismissed the prompt.
    Cancel,
    /// The prompt itself failed.
    Failure,
}

/// Turns a dialog outcome into the chosen path, or the load error it stands
/// for: only a single chosen file is usable; a multiple selection, a
/// cancellation and a dialog failure are all file errors, reported once and
/// never retried automatically.
pub fn outcome_to_path(outcome: DialogOutcome) -> (r: Result<String, LoadError>)
    ensures
        r is Ok <==> outcome is Okay,
        outcome matches DialogOutcome::Okay(path) ==> r == Ok::<String, LoadError>(path),
        r matches Err(e) ==> e == LoadError::FileError,
{
    match outcome {
        DialogOutcome::Okay(path) => Ok(path),
        DialogOutcome::OkayMultiple => Err(LoadError::FileError),
        DialogOutcome::Cancel => Err(LoadError::FileError),
        DialogOutcome::Failure => Err(LoadError::FileError),
    }
}

} // verus!
