//! Reading the system clipboard. Requires `"clipboard_read"` permission.

use vstd::prelude::*;

verus! {

/// What reading the clipboard gives for the host's reply (`None` when the
/// host call failed, as it does without the permission): the clipboard
/// text, or the empty string.
pub fn read(reply: Option<String>) -> (text: String)
    ensures
        text@ == match reply {
            Some(s) => s@,
            None => Seq::<char>::empty(),
        },
{
    match reply {
        Some(s) => s,
        None => String::new(),
    }
}

} // verus!
