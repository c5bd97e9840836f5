//! The headers that let a page of another origin read the answer.

use crate::headers::Headers;
use crate::text::{contains_char, has_char};
use vstd::prelude::*;

verus! {

/// The headers that answer a request with the given `Origin` header.
///
/// Without an origin there are none. With one, the four fixed headers are
/// set, and the origin is echoed back unless it holds a comma.
pub open spec fn cors_headers(origin: Option<Seq<char>>) -> Map<Seq<char>, Seq<char>> {
    match origin {
        None => Map::empty(),
        Some(origin) => {
            let fixed = Map::<Seq<char>, Seq<char>>::empty().insert(
                "Access-Control-Allow-Headers"@,
                "Content-Type"@,
            ).insert("Access-Control-Allow-Methods"@, "GET"@).insert("Vary"@, "Origin"@);
            let echoed = if has_char(origin, ',') {
                fixed
            } else {
                fixed.insert("Access-Control-Allow-Origin"@, origin)
            };
            echoed.insert("Access-Control-Max-Age"@, "86400"@)
        },
    }
}

/// The view of an optional text.
pub open spec fn optional_text(text: Option<&str>) -> Option<Seq<char>> {
    match text {
        Some(text) => Some(text@),
        None => None,
    }
}

/// Builds the headers for the `Origin` header of the inbound request.
///
/// The second argument names the origin that the service is meant for. It
/// takes no part in the result.
pub fn cors_response_header(origin: Option<&str>, _allowed: &str) -> (headers: Headers)
    ensures
        headers@ == cors_headers(optional_text(origin)),
{
    let mut headers = Headers::new();
    let origin = match origin {
        Some(value) => value,
        None => {
            return headers;
        },
    };
    headers.set("Access-Control-Allow-Headers", "Content-Type");
    headers.set("Access-Control-Allow-Methods", "GET");
    headers.set("Vary", "Origin");
    if !contains_char(origin, ',') {
        headers.set("Access-Control-Allow-Origin", origin);
    }
    headers.set("Access-Control-Max-Age", "86400");
    headers
}

/// A request with an origin gets `Access-Control-Allow-Methods: GET` and
/// `Vary: Origin` among its headers, whatever the origin is; a request without
/// one gets no header at all.
pub proof fn lemma_cors_headers_follow_origin(origin: Option<Seq<char>>)
    ensures
        origin is None ==> cors_headers(origin) == Map::<Seq<char>, Seq<char>>::empty(),
        origin is Some ==> {
            &&& cors_headers(origin).contains_key("Access-Control-Allow-Methods"@)
            &&& cors_headers(origin)["Access-Control-Allow-Methods"@] == "GET"@
            &&& cors_headers(origin).contains_key("Vary"@)
            &&& cors_headers(origin)["Vary"@] == "Origin"@
        },
{
    reveal_strlit("Access-Control-Allow-Methods");
    reveal_strlit("Access-Control-Allow-Origin");
    reveal_strlit("Access-Control-Max-Age");
    reveal_strlit("Vary");
    assert("Access-Control-Allow-Methods"@.len() == 28);
    assert("Access-Control-Allow-Origin"@.len() == 27);
    assert("Access-Control-Max-Age"@.len() == 22);
    assert("Vary"@.len() == 4);
}

} // verus!
