//! From the address of the inbound request to the route that serves it.

use crate::text::{join, lowercase, lowercased, remove_all, same_text, without};
use vstd::prelude::*;

verus! {

/// What a path leads to.
#[derive(Clone, Copy, Debug, PartialEq, Eq, Structural)]
pub enum Route {
    TicketCount,
    NotFound,
}

/// Scheme and host, as every address of the service begins.
pub open spec fn host_prefix(host: Seq<char>) -> Seq<char> {
    "https://"@ + host
}

/// The path of an address: the address without scheme and host, in lowercase.
pub open spec fn path_of(url: Seq<char>, host: Seq<char>) -> Seq<char> {
    lowercased(without(url, host_prefix(host)))
}

/// The route of a path. Only `/tickets/count` is served.
pub open spec fn route_of(path: Seq<char>) -> Route {
    if path == "/tickets/count"@ {
        Route::TicketCount
    } else {
        Route::NotFound
    }
}

/// The path of the address `url` of a request to `host`.
pub fn request_path(url: &str, host: &str) -> (path: String)
    ensures
        path@ == path_of(url@, host@),
{
    let prefix = join("https://", host);
    let stripped = remove_all(url, prefix.as_str());
    lowercase(stripped.as_str())
}

impl Route {
    /// The route of a path that is already without host and in lowercase.
    pub fn of_path(path: &str) -> (route: Route)
        ensures
            route == route_of(path@),
    {
        if same_text(path, "/tickets/count") {
            Route::TicketCount
        } else {
            Route::NotFound
        }
    }
}

/// The route of the address `url` of a request to `host`.
pub fn route(url: &str, host: &str) -> (route: Route)
    ensures
        route == route_of(path_of(url@, host@)),
{
    let path = request_path(url, host);
    Route::of_path(path.as_str())
}

/// A path is served exactly when it is `/tickets/count`; `/events/next`, for
/// one, is not.
pub proof fn lemma_only_ticket_count_is_routed(path: Seq<char>)
    ensures
        route_of(path) == Route::TicketCount <==> path == "/tickets/count"@,
        route_of(path) == Route::NotFound <==> path != "/tickets/count"@,
        route_of("/events/next"@) == Route::NotFound,
{
    reveal_strlit("/tickets/count");
    reveal_strlit("/events/next");
    assert("/events/next"@.len() != "/tickets/count"@.len());
}

} // verus!
