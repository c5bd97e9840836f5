//! The client of the ticketing provider's API: the requests it sends, and
//! what the two queries of this library make of the replies.

use crate::headers::Headers;
use crate::json::{json_text, Json};
use crate::text::join;
use vstd::prelude::*;

verus! {

/// The HTTP method of an upstream request. The API is only read.
#[derive(Clone, Copy, Debug, PartialEq, Eq, Structural)]
pub enum Method {
    Get,
}

/// A request to the provider, as it is to be sent.
#[derive(Debug)]
pub struct UpstreamRequest {
    pub uri: String,
    pub method: Method,
    pub headers: Headers,
}

/// What an `UpstreamRequest` says.
pub struct RequestView {
    pub uri: Seq<char>,
    pub method: Method,
    pub headers: Map<Seq<char>, Seq<char>>,
}

impl View for UpstreamRequest {
    type V = RequestView;

    open spec fn view(&self) -> RequestView {
        RequestView { uri: self.uri@, method: self.method, headers: self.headers@ }
    }
}

/// The provider's answer to one request: status code and body text.
#[derive(Debug)]
pub struct UpstreamResponse {
    pub status: u16,
    pub body: String,
}

/// How one dispatch ended: with an answer, or without reaching the provider.
#[derive(Debug)]
pub enum UpstreamReply {
    Response(UpstreamResponse),
    Unreachable,
}

/// The step at which a body failed to yield a ticket count.
#[derive(Clone, Copy, Debug, PartialEq, Eq, Structural)]
pub enum Malformation {
    /// The body is not JSON, or not a JSON object.
    NotAnObject,
    /// No key `events`, or its value is not an array.
    Events,
    /// The array of events is empty.
    FirstEvent,
    /// The first event has no key `releases`, or its value is not an array.
    Releases,
    /// The array of releases is empty.
    FirstRelease,
    /// The first release has no key `tickets_count`, or its value is not an
    /// integer of 64 bits.
    TicketsCount,
}

/// Why a ticket count could not be had.
#[derive(Clone, Copy, Debug, PartialEq, Eq, Structural)]
pub enum QueryError {
    UpstreamUnreachable,
    MalformedUpstreamResponse(Malformation),
}

/// The address of a resource of the API.
pub open spec fn resource_uri(resource: Seq<char>) -> Seq<char> {
    TitoClient::BASE_URI@ + "/"@ + resource
}

/// The value of the `Authorization` header for a token.
pub open spec fn authorization(token: Seq<char>) -> Seq<char> {
    "Token token="@ + token
}

/// A header set with the two content headers that every request carries.
pub open spec fn prepared(headers: Map<Seq<char>, Seq<char>>) -> Map<Seq<char>, Seq<char>> {
    headers.insert("Accept"@, "application/json"@).insert("Content-Type"@, "application/json"@)
}

/// The request that a client for `resource` sends with `token`.
pub open spec fn authorized_request(resource: Seq<char>, token: Seq<char>) -> RequestView {
    RequestView {
        uri: resource_uri(resource),
        method: Method::Get,
        headers: prepared(
            Map::<Seq<char>, Seq<char>>::empty().insert("Authorization"@, authorization(token)),
        ),
    }
}

/// The resource that lists the events of an account.
pub open spec fn events_resource(account_slug: Seq<char>) -> Seq<char> {
    account_slug + "/events?view=extended"@
}

/// The ticket count that a document holds: the `tickets_count` of the first
/// release of the first event, or the first step that fails.
pub open spec fn ticket_count(doc: Json) -> Result<i64, Malformation> {
    if !(doc is Object) {
        Err(Malformation::NotAnObject)
    } else {
        match doc.member("events"@) {
            Some(Json::Array(events)) => match Json::Array(events).element(0) {
                Some(event) => match event.member("releases"@) {
                    Some(Json::Array(releases)) => match Json::Array(releases).element(0) {
                        Some(release) => match release.member("tickets_count"@) {
                            Some(Json::Number(Some(count))) => Ok(count),
                            _ => Err(Malformation::TicketsCount),
                        },
                        None => Err(Malformation::FirstRelease),
                    },
                    _ => Err(Malformation::Releases),
                },
                None => Err(Malformation::FirstEvent),
            },
            _ => Err(Malformation::Events),
        }
    }
}

/// The ticket count that a body text holds.
pub open spec fn body_ticket_count(body: Seq<char>) -> Result<i64, QueryError> {
    match json_text(body) {
        Some(doc) => match ticket_count(doc) {
            Ok(count) => Ok(count),
            Err(step) => Err(QueryError::MalformedUpstreamResponse(step)),
        },
        None => Err(QueryError::MalformedUpstreamResponse(Malformation::NotAnObject)),
    }
}

/// A client bound to one resource of the API.
#[derive(Debug)]
pub struct TitoClient(pub UpstreamRequest);

impl TitoClient {
    /// Where the API lives.
    pub const BASE_URI: &'static str = "https://api.tito.io/v3";

    /// A `GET` request for `resource`, with no header yet.
    pub fn new(resource: &str) -> (client: Self)
        ensures
            client.0@ == (RequestView {
                uri: resource_uri(resource@),
                method: Method::Get,
                headers: Map::<Seq<char>, Seq<char>>::empty(),
            }),
    {
        let base = join(Self::BASE_URI, "/");
        let uri = join(base.as_str(), resource);
        TitoClient(UpstreamRequest { uri, method: Method::Get, headers: Headers::new() })
    }

    /// Puts the token into the `Authorization` header.
    pub fn set_token(&mut self, token: &str)
        ensures
            final(self).0@ == (RequestView {
                headers: old(self).0@.headers.insert("Authorization"@, authorization(token@)),
                ..old(self).0@
            }),
    {
        let value = join("Token token=", token);
        self.0.headers.set("Authorization", value.as_str());
    }

    /// Sets the headers that every request carries.
    fn prepare(&mut self)
        ensures
            final(self).0@ == (RequestView {
                headers: prepared(old(self).0@.headers),
                ..old(self).0@
            }),
    {
        self.0.headers.set("Accept", "application/json");
        self.0.headers.set("Content-Type", "application/json");
    }

    /// Makes the request ready and hands out what is to be sent.
    pub fn dispatch(&mut self) -> (request: UpstreamRequest)
        ensures
            request@ == final(self).0@,
            final(self).0@ == (RequestView {
                headers: prepared(old(self).0@.headers),
                ..old(self).0@
            }),
    {
        self.prepare();
        UpstreamRequest {
            uri: String::from_str(self.0.uri.as_str()),
            method: self.0.method,
            headers: self.0.headers.duplicate(),
        }
    }
}

/// The test of whether the provider accepts a token.
pub struct TestTitoToken;

impl TestTitoToken {
    /// The request that puts the token to the test.
    pub fn request(token: &str) -> (request: UpstreamRequest)
        ensures
            request@ == authorized_request("hello"@, token@),
    {
        let mut client = TitoClient::new("hello");
        client.set_token(token);
        client.dispatch()
    }

    /// Whether the reply accepts the token: only an answer with status 200
    /// does.
    pub fn run(reply: &UpstreamReply) -> (accepted: bool)
        ensures
            accepted == (reply matches UpstreamReply::Response(response) && response.status == 200),
    {
        match reply {
            UpstreamReply::Response(response) => response.status == 200,
            UpstreamReply::Unreachable => false,
        }
    }
}

/// The query for the ticket count of the next event.
pub struct GetUpcomingEventTicketCount;

impl GetUpcomingEventTicketCount {
    /// The request for the events of an account.
    pub fn request(token: &str, account_slug: &str) -> (request: UpstreamRequest)
        ensures
            request@ == authorized_request(events_resource(account_slug@), token@),
    {
        let resource = join(account_slug, "/events?view=extended");
        let mut client = TitoClient::new(resource.as_str());
        client.set_token(token);
        client.dispatch()
    }

    /// The ticket count in a parsed body.
    pub fn extract(doc: &Json) -> (count: Result<i64, Malformation>)
        ensures
            count == ticket_count(*doc),
    {
        if !doc.is_object() {
            return Err(Malformation::NotAnObject);
        }
        let events = match doc.get_key("events") {
            Some(events) => events,
            None => {
                return Err(Malformation::Events);
            },
        };
        if !events.is_array() {
            return Err(Malformation::Events);
        }
        let event = match events.get_index(0) {
            Some(event) => event,
            None => {
                return Err(Malformation::FirstEvent);
            },
        };
        let releases = match event.get_key("releases") {
            Some(releases) => releases,
            None => {
                return Err(Malformation::Releases);
            },
        };
        if !releases.is_array() {
            return Err(Malformation::Releases);
        }
        let release = match releases.get_index(0) {
            Some(release) => release,
            None => {
                return Err(Malformation::FirstRelease);
            },
        };
        let tickets_count = match release.get_key("tickets_count") {
            Some(tickets_count) => tickets_count,
            None => {
                return Err(Malformation::TicketsCount);
            },
        };
        match tickets_count.as_i64() {
            Some(count) => Ok(count),
            None => Err(Malformation::TicketsCount),
        }
    }

    /// The ticket count that a reply gives.
    pub fn run(reply: &UpstreamReply) -> (count: Result<i64, QueryError>)
        ensures
            count == match reply {
                UpstreamReply::Response(response) => body_ticket_count(response.body@),
                UpstreamReply::Unreachable => Err(QueryError::UpstreamUnreachable),
            },
    {
        match reply {
            UpstreamReply::Response(response) => match Json::parse(response.body.as_str()) {
                Some(doc) => match Self::extract(&doc) {
                    Ok(count) => Ok(count),
                    Err(step) => Err(QueryError::MalformedUpstreamResponse(step)),
                },
                None => Err(QueryError::MalformedUpstreamResponse(Malformation::NotAnObject)),
            },
            UpstreamReply::Unreachable => Err(QueryError::UpstreamUnreachable),
        }
    }
}

/// A document counts exactly what the first release of its first event
/// holds under `tickets_count`, where that is an integer of 64 bits.
pub proof fn lemma_count_of_first_release(doc: Json, count: i64)
    requires
        doc is Object,
        ({
            &&& doc.member("events"@) matches Some(events)
            &&& events is Array
            &&& events.element(0) matches Some(event)
            &&& event.member("releases"@) matches Some(releases)
            &&& releases is Array
            &&& releases.element(0) matches Some(release)
            &&& release.member("tickets_count"@) == Some(Json::Number(Some(count)))
        }),
    ensures
        ticket_count(doc) == Ok::<i64, Malformation>(count),
{
}

/// A document with an empty array of events has no count: the failure is at
/// the first event.
pub proof fn lemma_no_count_without_events(doc: Json)
    requires
        doc is Object,
        doc.member("events"@) matches Some(events) && events is Array && events.element(0) is None,
    ensures
        ticket_count(doc) == Err::<i64, Malformation>(Malformation::FirstEvent),
{
}

} // verus!
