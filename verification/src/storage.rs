//! Sandboxed key/value storage isolated per extension. Requires
//! `"storage"` permission; without it the host answers with nothing, and
//! reads give `None` or an empty list.

use vstd::prelude::*;

verus! {

use crate::json::{json_string_list, parse_string_list, strings_view};

/// What reading a key gives for the host's reply (`None` when the host
/// call failed): the stored value, or `None` when there is none, which the
/// host reports as an empty string.
pub fn read(reply: Option<String>) -> (value: Option<String>)
    ensures
        value == match reply {
            Some(s) => if s@.len() == 0 {
                None
            } else {
                Some(s)
            },
            None => None,
        },
{
    match reply {
        Some(s) => {
            if s.as_str().is_empty() {
                None
            } else {
                Some(s)
            }
        },
        None => None,
    }
}

/// The reply text, empty when the host call failed.
pub open spec fn reply_or_empty(reply: Option<String>) -> Seq<char> {
    match reply {
        Some(s) => s@,
        None => Seq::<char>::empty(),
    }
}

/// What listing the keys gives for the host's reply (`None` when the host
/// call failed): the strings of the JSON array of strings that the host
/// sends, or no keys when there is no such array.
pub fn list(reply: Option<String>) -> (keys: Vec<String>)
    ensures
        strings_view(keys@) == match json_string_list(reply_or_empty(reply)) {
            Some(l) => l,
            None => Seq::<Seq<char>>::empty(),
        },
{
    let json = match reply {
        Some(s) => s,
        None => String::new(),
    };
    match parse_string_list(json.as_str()) {
        Some(keys) => keys,
        None => {
            let keys: Vec<String> = Vec::new();
            assert(strings_view(keys@) =~= Seq::<Seq<char>>::empty());
            keys
        },
    }
}

} // verus!
