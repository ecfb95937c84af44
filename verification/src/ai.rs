//! Calling the Pointiv LLM. Requires `"ai"` permission. Send a prompt,
//! get plain text back. No tool chaining.

use vstd::prelude::*;

verus! {

/// What a completion gives for the host's reply (`None` when the host call
/// failed): the plain-text completion, or the empty string, as without the
/// `"ai"` permission.
pub fn complete(reply: Option<String>) -> (text: String)
    ensures
        text@ == match reply {
            Some(s) => s@,
            None => Seq::<char>::empty(),
        },
{
    match reply {
        Some(s) => s,
        None => String::new(),
    }
}

} // verus!
