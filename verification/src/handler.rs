//! The handler of one inbound request, as a state machine: it validates the
//! configuration, checks the token where that is asked for, routes the
//! request, queries the provider and answers. Whoever drives it carries out
//! each action and reports back what came of it.

use crate::client::{
    authorized_request, body_ticket_count, events_resource, ticket_count,
    GetUpcomingEventTicketCount, Malformation, QueryError, RequestView, TestTitoToken,
    UpstreamReply, UpstreamRequest,
};
use crate::json::json_text;
use crate::cors::{
    cors_headers, cors_response_header, lemma_cors_headers_follow_origin, optional_text,
};
use crate::response::{
    count_answer, count_text, failure_answer, status_text, HttpResponse, ResponseView, Status,
};
use crate::router::{path_of, route, route_of, Route};
use crate::text::same_text;
use vstd::prelude::*;

verus! {

/// The level at which the service logs.
#[derive(Clone, Copy, Debug, PartialEq, Eq, Structural)]
pub enum LogLevel {
    Error,
    Warn,
    Info,
    Debug,
    Trace,
}

/// The logging configuration with which the service starts.
pub fn start() -> (level: LogLevel)
    ensures
        level == LogLevel::Info,
{
    LogLevel::Info
}

/// The credentials with which the provider is queried.
#[derive(Clone, Debug)]
pub struct State {
    pub token: String,
    pub account_slug: String,
}

/// What a `State` says.
pub struct StateView {
    pub token: Seq<char>,
    pub account_slug: Seq<char>,
}

impl View for State {
    type V = StateView;

    open spec fn view(&self) -> StateView {
        StateView { token: self.token@, account_slug: self.account_slug@ }
    }
}

/// A variable of the configuration.
#[derive(Clone, Copy, Debug, PartialEq, Eq, Structural)]
pub enum Variable {
    Token,
    AccountSlug,
    TokenCheck,
}

impl Variable {
    /// The name under which the environment holds the variable.
    pub fn name(self) -> (name: &'static str)
        ensures
            name@ == match self {
                Variable::Token => "TITO_TOKEN"@,
                Variable::AccountSlug => "TITO_ACCOUNT_SLUG"@,
                Variable::TokenCheck => "TITO_TOKEN_CHECK"@,
            },
    {
        match self {
            Variable::Token => "TITO_TOKEN",
            Variable::AccountSlug => "TITO_ACCOUNT_SLUG",
            Variable::TokenCheck => "TITO_TOKEN_CHECK",
        }
    }
}

/// What the environment holds of the three variables.
#[derive(Debug)]
pub struct Environment {
    pub token: Option<String>,
    pub account_slug: Option<String>,
    pub token_check: Option<String>,
}

/// What an `Environment` says.
pub struct EnvironmentView {
    pub token: Option<Seq<char>>,
    pub account_slug: Option<Seq<char>>,
    pub token_check: Option<Seq<char>>,
}

/// The view of an optional string.
pub open spec fn optional_string(text: Option<String>) -> Option<Seq<char>> {
    match text {
        Some(text) => Some(text@),
        None => None,
    }
}

impl View for Environment {
    type V = EnvironmentView;

    open spec fn view(&self) -> EnvironmentView {
        EnvironmentView {
            token: optional_string(self.token),
            account_slug: optional_string(self.account_slug),
            token_check: optional_string(self.token_check),
        }
    }
}

/// A valid configuration.
#[derive(Debug)]
pub struct Configuration {
    pub state: State,
    pub token_check_enabled: bool,
}

/// What a `Configuration` says.
pub struct ConfigurationView {
    pub state: StateView,
    pub token_check_enabled: bool,
}

impl View for Configuration {
    type V = ConfigurationView;

    open spec fn view(&self) -> ConfigurationView {
        ConfigurationView { state: self.state@, token_check_enabled: self.token_check_enabled }
    }
}

/// The configuration that an environment gives, or the first variable that
/// it lacks. The token check is on exactly for the value `true`.
pub open spec fn configuration(env: EnvironmentView) -> Result<ConfigurationView, Variable> {
    match (env.token, env.account_slug, env.token_check) {
        (None, _, _) => Err(Variable::Token),
        (Some(_), None, _) => Err(Variable::AccountSlug),
        (Some(_), Some(_), None) => Err(Variable::TokenCheck),
        (Some(token), Some(account_slug), Some(check)) => Ok(
            ConfigurationView {
                state: StateView { token, account_slug },
                token_check_enabled: check == "true"@,
            },
        ),
    }
}

/// The view of the outcome of a validation.
pub open spec fn validated(outcome: Result<Configuration, Variable>) -> Result<
    ConfigurationView,
    Variable,
> {
    match outcome {
        Ok(config) => Ok(config@),
        Err(variable) => Err(variable),
    }
}

impl Configuration {
    /// Validates what the environment holds.
    pub fn validate(env: Environment) -> (outcome: Result<Configuration, Variable>)
        ensures
            validated(outcome) == configuration(env@),
    {
        let token = match env.token {
            Some(token) => token,
            None => {
                return Err(Variable::Token);
            },
        };
        let account_slug = match env.account_slug {
            Some(account_slug) => account_slug,
            None => {
                return Err(Variable::AccountSlug);
            },
        };
        let check = match env.token_check {
            Some(check) => check,
            None => {
                return Err(Variable::TokenCheck);
            },
        };
        let token_check_enabled = same_text(check.as_str(), "true");
        Ok(Configuration { state: State { token, account_slug }, token_check_enabled })
    }
}

/// What the inbound request holds of its address and origin.
#[derive(Debug)]
pub struct Inbound {
    pub url: String,
    pub host: String,
    pub origin: Option<String>,
}

/// What an `Inbound` says.
pub struct InboundView {
    pub url: Seq<char>,
    pub host: Seq<char>,
    pub origin: Option<Seq<char>>,
}

impl View for Inbound {
    type V = InboundView;

    open spec fn view(&self) -> InboundView {
        InboundView { url: self.url@, host: self.host@, origin: optional_string(self.origin) }
    }
}

/// What an `UpstreamReply` says.
pub enum ReplyView {
    Response { status: u16, body: Seq<char> },
    Unreachable,
}

impl View for UpstreamReply {
    type V = ReplyView;

    open spec fn view(&self) -> ReplyView {
        match self {
            UpstreamReply::Response(response) => ReplyView::Response {
                status: response.status,
                body: response.body@,
            },
            UpstreamReply::Unreachable => ReplyView::Unreachable,
        }
    }
}

/// Whether a reply accepts the token.
pub open spec fn accepts(reply: ReplyView) -> bool {
    reply matches ReplyView::Response { status, .. } && status == 200
}

/// The ticket count that a reply gives.
pub open spec fn reply_ticket_count(reply: ReplyView) -> Result<i64, QueryError> {
    match reply {
        ReplyView::Response { body, .. } => body_ticket_count(body),
        ReplyView::Unreachable => Err(QueryError::UpstreamUnreachable),
    }
}

/// The answer to a request for the ticket count, from the reply to the query
/// and the origin of the request. Only a count comes with CORS headers.
pub open spec fn ticket_count_answer(reply: ReplyView, origin: Option<Seq<char>>) -> ResponseView {
    match reply_ticket_count(reply) {
        Ok(count) => count_answer(count, cors_headers(origin)),
        Err(_) => failure_answer(Status::BadCount),
    }
}

/// Answers a request for the ticket count, once the provider has replied.
pub fn get_ticket_count(reply: &UpstreamReply, origin: Option<&str>) -> (response: HttpResponse)
    ensures
        response@ == ticket_count_answer(reply@, optional_text(origin)),
{
    match GetUpcomingEventTicketCount::run(reply) {
        Ok(count) => {
            let headers = cors_response_header(origin, "https://nhrc.uk");
            HttpResponse::count(count, headers)
        },
        Err(_) => HttpResponse::failure(Status::BadCount),
    }
}

/// The states of the handler.
#[derive(Debug)]
pub enum Handler {
    /// Nothing is known yet.
    ConfigValidating,
    /// The token is being put to the test.
    TokenChecking(State),
    /// The configuration stands; the request is to be routed.
    Routing(State),
    /// The provider is being queried, for a request of the given origin.
    Handling(Option<String>),
    /// The answer is out. Nothing follows.
    Responding,
}

/// What a `Handler` says.
pub enum HandlerView {
    ConfigValidating,
    TokenChecking(StateView),
    Routing(StateView),
    Handling(Option<Seq<char>>),
    Responding,
}

impl View for Handler {
    type V = HandlerView;

    open spec fn view(&self) -> HandlerView {
        match self {
            Handler::ConfigValidating => HandlerView::ConfigValidating,
            Handler::TokenChecking(state) => HandlerView::TokenChecking(state@),
            Handler::Routing(state) => HandlerView::Routing(state@),
            Handler::Handling(origin) => HandlerView::Handling(optional_string(*origin)),
            Handler::Responding => HandlerView::Responding,
        }
    }
}

/// What the handler is told.
#[derive(Debug)]
pub enum Event {
    /// The environment was read.
    Environment(Environment),
    /// The request of the last `Dispatch` was sent, with this outcome.
    Reply(UpstreamReply),
    /// The inbound request was read.
    Inbound(Inbound),
}

/// What an `Event` says.
pub enum EventView {
    Environment(EnvironmentView),
    Reply(ReplyView),
    Inbound(InboundView),
}

impl View for Event {
    type V = EventView;

    open spec fn view(&self) -> EventView {
        match self {
            Event::Environment(env) => EventView::Environment(env@),
            Event::Reply(reply) => EventView::Reply(reply@),
            Event::Inbound(inbound) => EventView::Inbound(inbound@),
        }
    }
}

/// What the handler asks for.
#[derive(Debug)]
pub enum Action {
    /// Send the request to the provider and report the reply.
    Dispatch(UpstreamRequest),
    /// Read address, host and origin of the inbound request and report them.
    ReadInbound,
    /// Answer the inbound request. This is the last action.
    Respond(HttpResponse),
}

/// What an `Action` says.
pub enum ActionView {
    Dispatch(RequestView),
    ReadInbound,
    Respond(ResponseView),
}

impl View for Action {
    type V = ActionView;

    open spec fn view(&self) -> ActionView {
        match self {
            Action::Dispatch(request) => ActionView::Dispatch(request@),
            Action::ReadInbound => ActionView::ReadInbound,
            Action::Respond(response) => ActionView::Respond(response@),
        }
    }
}

/// The request that puts a token to the test.
pub open spec fn token_check_request(state: StateView) -> RequestView {
    authorized_request("hello"@, state.token)
}

/// The request for the events of the account.
pub open spec fn events_request(state: StateView) -> RequestView {
    authorized_request(events_resource(state.account_slug), state.token)
}

/// The step that the handler takes in `state` on `event`: the next state and
/// the action to carry out. `None` where the state does not await the event.
pub open spec fn transition(state: HandlerView, event: EventView) -> Option<
    (HandlerView, ActionView),
> {
    match (state, event) {
        (HandlerView::ConfigValidating, EventView::Environment(env)) => Some(
            match configuration(env) {
                Err(_) => (
                    HandlerView::Responding,
                    ActionView::Respond(failure_answer(Status::BadConf)),
                ),
                Ok(config) => if config.token_check_enabled {
                    (
                        HandlerView::TokenChecking(config.state),
                        ActionView::Dispatch(token_check_request(config.state)),
                    )
                } else {
                    (HandlerView::Routing(config.state), ActionView::ReadInbound)
                },
            },
        ),
        (HandlerView::TokenChecking(state), EventView::Reply(reply)) => Some(
            if accepts(reply) {
                (HandlerView::Routing(state), ActionView::ReadInbound)
            } else {
                (HandlerView::Responding, ActionView::Respond(failure_answer(Status::BadConf)))
            },
        ),
        (HandlerView::Routing(state), EventView::Inbound(inbound)) => Some(
            match route_of(path_of(inbound.url, inbound.host)) {
                Route::TicketCount => (
                    HandlerView::Handling(inbound.origin),
                    ActionView::Dispatch(events_request(state)),
                ),
                Route::NotFound => (
                    HandlerView::Responding,
                    ActionView::Respond(failure_answer(Status::NotFound)),
                ),
            },
        ),
        (HandlerView::Handling(origin), EventView::Reply(reply)) => Some(
            (HandlerView::Responding, ActionView::Respond(ticket_count_answer(reply, origin))),
        ),
        _ => None,
    }
}

/// The view of a step.
pub open spec fn step_view(step: Option<(Handler, Action)>) -> Option<(HandlerView, ActionView)> {
    match step {
        Some((handler, action)) => Some((handler@, action@)),
        None => None,
    }
}

impl Handler {
    /// The handler of a request that has just come in.
    pub fn new() -> (handler: Handler)
        ensures
            handler@ == HandlerView::ConfigValidating,
    {
        Handler::ConfigValidating
    }

    /// Whether the answer is out.
    pub fn is_done(&self) -> (done: bool)
        ensures
            done == (self@ == HandlerView::Responding),
    {
        match self {
            Handler::Responding => true,
            _ => false,
        }
    }

    /// Takes one step: from this state and the event to the next state and
    /// the action to carry out.
    pub fn step(self, event: Event) -> (next: Option<(Handler, Action)>)
        ensures
            step_view(next) == transition(self@, event@),
    {
        match (self, event) {
            (Handler::ConfigValidating, Event::Environment(env)) => {
                match Configuration::validate(env) {
                    Err(_) => {
                        let response = HttpResponse::failure(Status::BadConf);
                        Some((Handler::Responding, Action::Respond(response)))
                    },
                    Ok(config) => {
                        if config.token_check_enabled {
                            let request = TestTitoToken::request(config.state.token.as_str());
                            Some((Handler::TokenChecking(config.state), Action::Dispatch(request)))
                        } else {
                            Some((Handler::Routing(config.state), Action::ReadInbound))
                        }
                    },
                }
            },
            (Handler::TokenChecking(state), Event::Reply(reply)) => {
                if TestTitoToken::run(&reply) {
                    Some((Handler::Routing(state), Action::ReadInbound))
                } else {
                    let response = HttpResponse::failure(Status::BadConf);
                    Some((Handler::Responding, Action::Respond(response)))
                }
            },
            (Handler::Routing(state), Event::Inbound(inbound)) => {
                match route(inbound.url.as_str(), inbound.host.as_str()) {
                    Route::TicketCount => {
                        let request = GetUpcomingEventTicketCount::request(
                            state.token.as_str(),
                            state.account_slug.as_str(),
                        );
                        Some((Handler::Handling(inbound.origin), Action::Dispatch(request)))
                    },
                    Route::NotFound => {
                        let response = HttpResponse::failure(Status::NotFound);
                        Some((Handler::Responding, Action::Respond(response)))
                    },
                }
            },
            (Handler::Handling(origin), Event::Reply(reply)) => {
                let response = match &origin {
                    Some(origin) => get_ticket_count(&reply, Some(origin.as_str())),
                    None => get_ticket_count(&reply, None),
                };
                Some((Handler::Responding, Action::Respond(response)))
            },
            _ => None,
        }
    }
}

/// A request is routed by its path alone: `/tickets/count` sends the query
/// for the events of the account, and every other path is answered at once
/// with 404 and the status `NOT_FOUND`.
pub proof fn lemma_routing_goes_by_path(state: StateView, inbound: InboundView)
    ensures
        path_of(inbound.url, inbound.host) == "/tickets/count"@ ==> transition(
            HandlerView::Routing(state),
            EventView::Inbound(inbound),
        ) == Some(
            (HandlerView::Handling(inbound.origin), ActionView::Dispatch(events_request(state))),
        ),
        path_of(inbound.url, inbound.host) != "/tickets/count"@ ==> transition(
            HandlerView::Routing(state),
            EventView::Inbound(inbound),
        ) == Some(
            (HandlerView::Responding, ActionView::Respond(failure_answer(Status::NotFound))),
        ),
        failure_answer(Status::NotFound).status == 404,
        failure_answer(Status::NotFound).body == status_text(Status::NotFound),
{
}

/// Where the provider cannot be reached, the request for the ticket count is
/// answered with 500 and the status `BAD_COUNT`, whatever its origin.
pub proof fn lemma_unreachable_is_bad_count(origin: Option<Seq<char>>)
    ensures
        ticket_count_answer(ReplyView::Unreachable, origin) == failure_answer(Status::BadCount),
        failure_answer(Status::BadCount).status == 500,
        failure_answer(Status::BadCount).body == status_text(Status::BadCount),
{
}

/// A reply whose body holds a count is answered with 200 and the body
/// `{"count":N}`, whatever the status of the reply.
pub proof fn lemma_count_is_answered(
    status: u16,
    body: Seq<char>,
    origin: Option<Seq<char>>,
    count: i64,
)
    requires
        json_text(body) matches Some(doc) && ticket_count(doc) == Ok::<i64, Malformation>(count),
    ensures
        ticket_count_answer(ReplyView::Response { status, body }, origin) == count_answer(
            count,
            cors_headers(origin),
        ),
        count_answer(count, cors_headers(origin)).status == 200,
        count_answer(count, cors_headers(origin)).body == count_text(count),
{
}

/// A reply whose body holds no count, be it no JSON at all or a document
/// with an empty array of events, is answered with 500 and the status
/// `BAD_COUNT`, without any header.
pub proof fn lemma_no_count_is_bad_count(status: u16, body: Seq<char>, origin: Option<Seq<char>>)
    requires
        json_text(body) matches Some(doc) ==> ticket_count(doc) is Err,
    ensures
        ticket_count_answer(ReplyView::Response { status, body }, origin) == failure_answer(
            Status::BadCount,
        ),
        failure_answer(Status::BadCount).status == 500,
        failure_answer(Status::BadCount).body == status_text(Status::BadCount),
        failure_answer(Status::BadCount).headers == Map::<Seq<char>, Seq<char>>::empty(),
{
}

/// With the token check on, a reply other than status 200 ends the request:
/// the handler asks for the check, answers 500 with the status `BAD_CONF`, and
/// takes no further step, so the query for the ticket count is never sent.
pub proof fn lemma_rejected_token_ends_in_bad_conf(env: EnvironmentView, reply: ReplyView)
    requires
        env.token is Some,
        env.account_slug is Some,
        env.token_check == Some("true"@),
        !accepts(reply),
    ensures
        ({
            let state = StateView { token: env.token->0, account_slug: env.account_slug->0 };
            &&& transition(HandlerView::ConfigValidating, EventView::Environment(env)) == Some(
                (
                    HandlerView::TokenChecking(state),
                    ActionView::Dispatch(token_check_request(state)),
                ),
            )
            &&& transition(HandlerView::TokenChecking(state), EventView::Reply(reply)) == Some(
                (HandlerView::Responding, ActionView::Respond(failure_answer(Status::BadConf))),
            )
        }),
        forall|event: EventView| transition(HandlerView::Responding, event) is None,
        failure_answer(Status::BadConf).status == 500,
        failure_answer(Status::BadConf).body == status_text(Status::BadConf),
{
}

/// Unless the variable of the token check is `true`, no check is made: the
/// first step sends nothing and does not wait for a check, and a complete
/// configuration goes straight to routing.
pub proof fn lemma_token_check_is_skipped(env: EnvironmentView)
    requires
        env.token_check != Some("true"@),
    ensures
        transition(HandlerView::ConfigValidating, EventView::Environment(env)) matches Some(
            (next, action),
        ) && !(next is TokenChecking) && !(action is Dispatch),
        configuration(env) matches Ok(config) ==> transition(
            HandlerView::ConfigValidating,
            EventView::Environment(env),
        ) == Some((HandlerView::Routing(config.state), ActionView::ReadInbound)),
{
}

/// The handler waits for a token check only after it has read an environment
/// in which the variable of the token check is `true`.
pub proof fn lemma_token_check_needs_the_flag(state: HandlerView, event: EventView)
    requires
        transition(state, event) matches Some((next, _)) && next is TokenChecking,
    ensures
        state is ConfigValidating,
        event matches EventView::Environment(env) && env.token_check == Some("true"@),
{
}

/// A count is answered with the CORS headers of the request's origin: with
/// an origin, `Access-Control-Allow-Methods: GET` and `Vary: Origin` are
/// among them; without one, the answer has no header.
pub proof fn lemma_count_answer_carries_cors(reply: ReplyView, origin: Option<Seq<char>>)
    requires
        reply_ticket_count(reply) is Ok,
    ensures
        ticket_count_answer(reply, origin).status == 200,
        ticket_count_answer(reply, origin).headers == cors_headers(origin),
        origin is None ==> ticket_count_answer(reply, origin).headers == Map::<
            Seq<char>,
            Seq<char>,
        >::empty(),
        origin is Some ==> {
            let headers = ticket_count_answer(reply, origin).headers;
            &&& headers.contains_key("Access-Control-Allow-Methods"@)
            &&& headers["Access-Control-Allow-Methods"@] == "GET"@
            &&& headers.contains_key("Vary"@)
            &&& headers["Vary"@] == "Origin"@
        },
{
    lemma_cors_headers_follow_origin(origin);
}

} // verus!
