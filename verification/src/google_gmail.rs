//! Sending Gmail via the Pointiv backend proxy. Requires `"google_gmail"`
//! permission. The host injects the Pointiv JWT.

use vstd::prelude::*;

verus! {

use crate::json::{
    empty_object, json_object_value, json_serialized, json_string_value, object_insert,
    object_value, result_view, string_value, value_to_json,
};

/// The message object that `send` hands to the host: `to`, `subject`,
/// `body`.
pub open spec fn message(to: Seq<char>, subject: Seq<char>, body: Seq<char>) -> serde_json::Value {
    json_object_value(
        Map::<Seq<char>, serde_json::Value>::empty().insert("to"@, json_string_value(to)).insert(
            "subject"@,
            json_string_value(subject),
        ).insert("body"@, json_string_value(body)),
    )
}

/// Law: the message object holds exactly three members, the recipient,
/// the subject and the whole body, each as the JSON string of the text
/// given, uncut.
pub proof fn lemma_message_members(to: Seq<char>, subject: Seq<char>, body: Seq<char>)
    ensures
        message(to, subject, body) == json_object_value(
            map![
                "body"@ => json_string_value(body),
                "subject"@ => json_string_value(subject),
                "to"@ => json_string_value(to),
            ],
        ),
{
    reveal_strlit("body");
    reveal_strlit("subject");
    reveal_strlit("to");
    assert("to"@.len() == 2 && "body"@.len() == 4 && "subject"@.len() == 7);
    assert(Map::<Seq<char>, serde_json::Value>::empty().insert("to"@, json_string_value(to)).insert(
        "subject"@,
        json_string_value(subject),
    ).insert("body"@, json_string_value(body)) =~= map![
        "body"@ => json_string_value(body),
        "subject"@ => json_string_value(subject),
        "to"@ => json_string_value(to),
    ]);
}

/// The request text that sends an email to `to`: the JSON text of the
/// message object (always `Ok`; serialising a document never fails).
pub fn send(to: &str, subject: &str, body: &str) -> (r: Result<String, String>)
    ensures
        r is Ok,
        result_view(r) == json_serialized(message(to@, subject@, body@)),
{
    let mut m = empty_object();
    object_insert(&mut m, String::from_str("to"), string_value(to));
    object_insert(&mut m, String::from_str("subject"), string_value(subject));
    object_insert(&mut m, String::from_str("body"), string_value(body));
    value_to_json(&object_value(m))
}

} // verus!
