//! Reading the system clipboard: what a read means to the terminal's paste.

use vstd::prelude::*;

verus! {

/// Why the clipboard could not give text.
#[derive(Clone, Debug, PartialEq, Eq)]
pub enum ClipboardError {
    /// The clipboard is empty or holds no text.
    ContentNotAvailable,
    /// Any other failure, with its description.
    Other { description: String },
}

/// The outcome of a clipboard read: an empty clipboard is no error, text
/// is given as it is, and other failures keep their description.
pub fn clipboard_text(result: Result<String, ClipboardError>) -> (r: Result<Option<String>, String>)
    ensures
        match result {
            Ok(text) => r == Ok::<Option<String>, String>(Some(text)),
            Err(ClipboardError::ContentNotAvailable) => r == Ok::<Option<String>, String>(None),
            Err(ClipboardError::Other { description }) => r == Err::<Option<String>, String>(description),
        },
{
    match result {
        Ok(text) => Ok(Some(text)),
        Err(ClipboardError::ContentNotAvailable) => Ok(None),
        Err(ClipboardError::Other { description }) => Err(description),
    }
}

} // verus!
