//! The answers of the handler: a status code, a JSON body and headers.

use crate::headers::Headers;
use crate::text::decimal;
use vstd::prelude::*;

verus! {

/// The `status` word of an error body.
#[derive(Clone, Copy, Debug, PartialEq, Eq, Structural)]
pub enum Status {
    BadConf,
    BadCount,
    NotFound,
}

/// An answer to the inbound request.
#[derive(Debug)]
pub struct HttpResponse {
    pub status: u16,
    pub body: String,
    pub headers: Headers,
}

/// What an `HttpResponse` says.
pub struct ResponseView {
    pub status: u16,
    pub body: Seq<char>,
    pub headers: Map<Seq<char>, Seq<char>>,
}

impl View for HttpResponse {
    type V = ResponseView;

    open spec fn view(&self) -> ResponseView {
        ResponseView { status: self.status, body: self.body@, headers: self.headers@ }
    }
}

/// Whether a text goes into a JSON string as it is: no quote, no backslash
/// and no control character.
pub open spec fn plain(text: Seq<char>) -> bool {
    forall|i: int|
        0 <= i < text.len() ==> {
            let c = #[trigger] text[i];
            c != '"' && c != '\\' && c as u32 >= 0x20
        }
}

/// The text of a JSON object with one member.
pub open spec fn single_member(key: Seq<char>, value: Seq<char>) -> Seq<char> {
    "{\""@ + key + "\":"@ + value + "}"@
}

/// A text between double quotes.
pub open spec fn quoted(text: Seq<char>) -> Seq<char> {
    "\""@ + text + "\""@
}

impl Status {
    /// The word as it stands in a body.
    pub open spec fn word(self) -> Seq<char> {
        match self {
            Status::BadConf => "BAD_CONF"@,
            Status::BadCount => "BAD_COUNT"@,
            Status::NotFound => "NOT_FOUND"@,
        }
    }

    /// The HTTP status code that goes with the word.
    pub open spec fn code(self) -> u16 {
        match self {
            Status::BadConf => 500,
            Status::BadCount => 500,
            Status::NotFound => 404,
        }
    }

    /// The word as a string slice.
    pub fn as_str(self) -> (word: &'static str)
        ensures
            word@ == self.word(),
    {
        match self {
            Status::BadConf => "BAD_CONF",
            Status::BadCount => "BAD_COUNT",
            Status::NotFound => "NOT_FOUND",
        }
    }

    /// The HTTP status code that goes with the word.
    pub fn status_code(self) -> (code: u16)
        ensures
            code == self.code(),
    {
        match self {
            Status::BadConf => 500,
            Status::BadCount => 500,
            Status::NotFound => 404,
        }
    }
}

/// The body that reports a ticket count.
pub open spec fn count_text(count: i64) -> Seq<char> {
    single_member("count"@, decimal(count as int))
}

/// The body that reports a failure.
pub open spec fn status_text(status: Status) -> Seq<char> {
    single_member("status"@, quoted(status.word()))
}

/// The answer that reports a ticket count, with the given headers.
pub open spec fn count_answer(count: i64, headers: Map<Seq<char>, Seq<char>>) -> ResponseView {
    ResponseView { status: 200, body: count_text(count), headers }
}

/// The answer that reports a failure. It carries no header.
pub open spec fn failure_answer(status: Status) -> ResponseView {
    ResponseView {
        status: status.code(),
        body: status_text(status),
        headers: Map::<Seq<char>, Seq<char>>::empty(),
    }
}

/// Trusted: the text that `serde_json` writes for a `serde_json::Value`
/// that is an object with one member, whose value is an integer. It is
/// the key between quotes, a colon and the integer in decimal, in braces.
/// The key is written as it is where it needs no escape.
#[verifier::external_body]
fn integer_member_text(key: &str, value: i64) -> (text: String)
    requires
        plain(key@),
    ensures
        text@ == single_member(key@, decimal(value as int)),
{
    let mut object = serde_json::Map::new();
    object.insert(key.to_string(), serde_json::Value::from(value));
    serde_json::Value::Object(object).to_string()
}

/// Trusted: the text that `serde_json` writes for a `serde_json::Value`
/// that is an object with one member, whose value is a string. Key and
/// value stand between quotes, as they are where they need no escape.
#[verifier::external_body]
fn text_member_text(key: &str, value: &str) -> (text: String)
    requires
        plain(key@),
        plain(value@),
    ensures
        text@ == single_member(key@, quoted(value@)),
{
    let mut object = serde_json::Map::new();
    object.insert(key.to_string(), serde_json::Value::from(value));
    serde_json::Value::Object(object).to_string()
}

proof fn lemma_words_are_plain()
    ensures
        plain("count"@),
        plain("status"@),
        plain("BAD_CONF"@),
        plain("BAD_COUNT"@),
        plain("NOT_FOUND"@),
{
    reveal_strlit("count");
    reveal_strlit("status");
    reveal_strlit("BAD_CONF");
    reveal_strlit("BAD_COUNT");
    reveal_strlit("NOT_FOUND");
}

/// The body `{"count":N}`.
pub fn count_body(count: i64) -> (body: String)
    ensures
        body@ == count_text(count),
{
    proof {
        lemma_words_are_plain();
    }
    integer_member_text("count", count)
}

/// The body `{"status":"WORD"}`.
pub fn status_body(status: Status) -> (body: String)
    ensures
        body@ == status_text(status),
{
    proof {
        lemma_words_are_plain();
    }
    text_member_text("status", status.as_str())
}

impl HttpResponse {
    /// The answer 200 with a ticket count in its body.
    pub fn count(count: i64, headers: Headers) -> (response: HttpResponse)
        ensures
            response@ == count_answer(count, headers@),
    {
        HttpResponse { status: 200, body: count_body(count), headers }
    }

    /// The answer that reports a failure, with the code of its status word.
    pub fn failure(status: Status) -> (response: HttpResponse)
        ensures
            response@ == failure_answer(status),
    {
        HttpResponse {
            status: status.status_code(),
            body: status_body(status),
            headers: Headers::new(),
        }
    }
}

} // verus!
