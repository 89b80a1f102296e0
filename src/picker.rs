//! What the file picker command answers, once the dialog has closed.

use vstd::prelude::*;

verus! {

/// The failure message for a dialog that was closed without a choice.
pub open spec fn no_selection_message() -> Seq<char> {
    "No file selected"@
}

/// Turns the dialog's outcome into the command's answer: the chosen path as
/// it was given, or a failure when nothing was chosen.
pub fn pick_pdf_result(selection: Option<String>) -> (r: Result<String, String>)
    ensures
        selection is None <==> r is Err,
        selection is Some ==> r->Ok_0@ == selection->0@,
        selection is None ==> r->Err_0@ == no_selection_message(),
{
    match selection {
        Some(path) => Ok(path),
        None => Err("No file selected".to_owned()),
    }
}

} // verus!
