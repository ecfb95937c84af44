//! Verified core of the Pointiv extension SDK.
//!
//! An extension receives an [`Input`], returns an [`Output`], and may ask
//! the Pointiv host for storage, the clipboard, an LLM completion, HTTP,
//! Google Calendar and Gmail, and may render a tile. This crate holds what
//! an extension computes around those host calls: the values it sends, the
//! way it reads the host's replies, and the tile tree it returns.

use vstd::prelude::*;

pub mod ai;
pub mod clipboard;
pub mod google_calendar;
pub mod google_gmail;
pub mod http;
pub mod json;
pub mod log;
pub mod storage;
pub mod text;
pub mod tile;

verus! {

use std::collections::HashMap;

/// Input passed to an extension's `execute` function by Pointiv.
///
/// `text` and `context` are the same value. Use either field.
#[derive(Debug, Clone)]
pub struct Input {
    /// Selected text or clipboard contents. Empty if nothing was captured.
    pub text: String,
    /// Alias for `text`.
    pub context: String,
    /// The command the user typed in the popup.
    pub command: String,
}

/// What an extension returns: a kind (`text`, `copy`, `type` or `error`,
/// written `type` on the wire) and a value.
#[derive(Debug, Clone)]
pub struct Output {
    pub kind: String,
    pub value: String,
}

impl Output {
    /// Text shown to the user.
    pub fn text(value: &str) -> (out: Self)
        ensures
            out.kind@ == "text"@,
            out.value@ == value@,
    {
        Output { kind: String::from_str("text"), value: String::from_str(value) }
    }

    /// A value copied to the clipboard.
    pub fn copy(value: &str) -> (out: Self)
        ensures
            out.kind@ == "copy"@,
            out.value@ == value@,
    {
        Output { kind: String::from_str("copy"), value: String::from_str(value) }
    }

    /// A value typed into the focused application.
    pub fn type_text(value: &str) -> (out: Self)
        ensures
            out.kind@ == "type"@,
            out.value@ == value@,
    {
        Output { kind: String::from_str("type"), value: String::from_str(value) }
    }

    /// An error shown to the user.
    pub fn error(value: &str) -> (out: Self)
        ensures
            out.kind@ == "error"@,
            out.value@ == value@,
    {
        Output { kind: String::from_str("error"), value: String::from_str(value) }
    }
}

/// Outbound HTTP request that an extension hands to the host
/// (`pointiv_http_request`), as JSON.
#[derive(Debug, Clone)]
pub struct HttpRequest {
    pub method: String,
    pub url: String,
    pub headers: HashMap<String, String>,
    pub body: String,
}

/// Response that the host returns for an HTTP request.
#[derive(Debug, Clone)]
pub struct HttpResponse {
    pub status: u16,
    pub body: String,
}

} // verus!
