//! Outbound HTTP through the host. Requires `"network"` permission. Raw
//! HTTP: put your own auth in request headers; Pointiv adds no credentials.

use vstd::prelude::*;

verus! {

use crate::{HttpRequest, HttpResponse};
use std::collections::HashMap;

/// The request that `get` sends: method `GET`, no headers, no body.
pub fn get(url: &str) -> (req: HttpRequest)
    ensures
        req.method@ == "GET"@,
        req.url@ == url@,
        req.headers@ == Map::<String, String>::empty(),
        req.body@ == Seq::<char>::empty(),
{
    HttpRequest {
        method: String::from_str("GET"),
        url: String::from_str(url),
        headers: HashMap::new(),
        body: String::new(),
    }
}

/// The request that `post` sends: method `POST`, no headers, `body` as a
/// plain-text body.
pub fn post(url: &str, body: &str) -> (req: HttpRequest)
    ensures
        req.method@ == "POST"@,
        req.url@ == url@,
        req.headers@ == Map::<String, String>::empty(),
        req.body@ == body@,
{
    HttpRequest {
        method: String::from_str("POST"),
        url: String::from_str(url),
        headers: HashMap::new(),
        body: String::from_str(body),
    }
}

/// The response that a request gives, from the host's reply read as an
/// `HttpResponse` (`None` when the call failed or the reply was no such
/// JSON): that response, or the fallback `{ status: 0, body: "" }`.
pub fn response(parsed: Option<HttpResponse>) -> (resp: HttpResponse)
    ensures
        match parsed {
            Some(p) => resp == p,
            None => resp.status == 0 && resp.body@ == Seq::<char>::empty(),
        },
{
    match parsed {
        Some(p) => p,
        None => HttpResponse { status: 0, body: String::new() },
    }
}

} // verus!
