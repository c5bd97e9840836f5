use tito_tickets::client::{UpstreamReply, UpstreamRequest, UpstreamResponse};
use tito_tickets::handler::{
    get_ticket_count, start, Action, Configuration, Environment, Event, Handler, Inbound,
    LogLevel, Variable,
};
use tito_tickets::response::HttpResponse;

const WELL_FORMED: &str = "{\"events\":[{\"releases\":[{\"tickets_count\":42}]}]}";

fn environment(check: Option<&str>) -> Environment {
    Environment {
        token: Some("secret".to_string()),
        account_slug: Some("acme".to_string()),
        token_check: check.map(|c| c.to_string()),
    }
}

fn inbound(path: &str, origin: Option<&str>) -> Inbound {
    Inbound {
        url: format!("https://tickets.example{path}"),
        host: "tickets.example".to_string(),
        origin: origin.map(|o| o.to_string()),
    }
}

fn answer(status: u16, body: &str) -> UpstreamReply {
    UpstreamReply::Response(UpstreamResponse { status, body: body.to_string() })
}

fn take(step: Option<(Handler, Action)>) -> (Handler, Action) {
    match step {
        Some(step) => step,
        None => panic!("the handler did not await the event"),
    }
}

fn dispatched(action: Action) -> UpstreamRequest {
    match action {
        Action::Dispatch(request) => request,
        other => panic!("expected a dispatch, got {other:?}"),
    }
}

fn responded(handler: &Handler, action: Action) -> HttpResponse {
    assert!(handler.is_done());
    match action {
        Action::Respond(response) => response,
        other => panic!("expected a response, got {other:?}"),
    }
}

/// Drives the handler to the point where it has sent the query for the count.
fn until_query(check: Option<&str>, path: &str, origin: Option<&str>) -> Handler {
    let (handler, action) = take(Handler::new().step(Event::Environment(environment(check))));
    assert!(matches!(action, Action::ReadInbound));
    let (handler, action) = take(handler.step(Event::Inbound(inbound(path, origin))));
    let request = dispatched(action);
    assert_eq!(request.uri, "https://api.tito.io/v3/acme/events?view=extended");
    assert_eq!(request.headers.get("Authorization"), Some("Token token=secret"));
    assert!(matches!(handler, Handler::Handling(_)));
    handler
}

#[test]
fn start_logs_at_info() {
    assert_eq!(start(), LogLevel::Info);
}

#[test]
fn variables_have_their_names() {
    assert_eq!(Variable::Token.name(), "TITO_TOKEN");
    assert_eq!(Variable::AccountSlug.name(), "TITO_ACCOUNT_SLUG");
    assert_eq!(Variable::TokenCheck.name(), "TITO_TOKEN_CHECK");
}

#[test]
fn validate_takes_a_complete_environment() {
    let config = Configuration::validate(environment(Some("true"))).unwrap();
    assert_eq!(config.state.token, "secret");
    assert_eq!(config.state.account_slug, "acme");
    assert!(config.token_check_enabled);
}

#[test]
fn validate_enables_the_check_for_true_only() {
    for value in ["false", "TRUE", "True", "1", "yes", "", " true", "true "] {
        let config = Configuration::validate(environment(Some(value))).unwrap();
        assert!(!config.token_check_enabled, "value {value:?}");
    }
}

#[test]
fn validate_names_the_first_missing_variable() {
    let mut env = environment(Some("true"));
    env.token = None;
    assert_eq!(Configuration::validate(env).unwrap_err(), Variable::Token);
    let mut env = environment(Some("true"));
    env.account_slug = None;
    assert_eq!(Configuration::validate(env).unwrap_err(), Variable::AccountSlug);
    assert_eq!(Configuration::validate(environment(None)).unwrap_err(), Variable::TokenCheck);
    let env = Environment { token: None, account_slug: None, token_check: None };
    assert_eq!(Configuration::validate(env).unwrap_err(), Variable::Token);
    let env = Environment { token: Some("t".to_string()), account_slug: None, token_check: None };
    assert_eq!(Configuration::validate(env).unwrap_err(), Variable::AccountSlug);
}

#[test]
fn get_ticket_count_answers_a_well_formed_body_with_the_count() {
    let response = get_ticket_count(&answer(200, WELL_FORMED), None);
    assert_eq!(response.status, 200);
    assert_eq!(response.body, "{\"count\":42}");
    assert!(response.headers.is_empty());
}

#[test]
fn get_ticket_count_answers_an_empty_events_array_with_bad_count() {
    let response = get_ticket_count(&answer(200, "{\"events\":[]}"), Some("https://a.example"));
    assert_eq!(response.status, 500);
    assert_eq!(response.body, "{\"status\":\"BAD_COUNT\"}");
    assert!(response.headers.is_empty());
}

#[test]
fn get_ticket_count_answers_a_transport_failure_with_bad_count() {
    let response = get_ticket_count(&UpstreamReply::Unreachable, None);
    assert_eq!(response.status, 500);
    assert_eq!(response.body, "{\"status\":\"BAD_COUNT\"}");
    assert!(response.headers.is_empty());
    let response = get_ticket_count(&UpstreamReply::Unreachable, Some("https://a.example"));
    assert_eq!(response.status, 500);
    assert_eq!(response.body, "{\"status\":\"BAD_COUNT\"}");
    assert!(response.headers.is_empty());
}

#[test]
fn get_ticket_count_adds_cors_headers_for_an_origin() {
    let response = get_ticket_count(&answer(200, WELL_FORMED), Some("https://a.example"));
    assert_eq!(response.status, 200);
    assert_eq!(response.body, "{\"count\":42}");
    assert_eq!(response.headers.get("Access-Control-Allow-Methods"), Some("GET"));
    assert_eq!(response.headers.get("Vary"), Some("Origin"));
    assert_eq!(response.headers.get("Access-Control-Allow-Headers"), Some("Content-Type"));
    assert_eq!(response.headers.get("Access-Control-Allow-Origin"), Some("https://a.example"));
    assert_eq!(response.headers.get("Access-Control-Max-Age"), Some("86400"));
    assert_eq!(response.headers.entries().len(), 5);
}

#[test]
fn a_new_handler_validates_the_configuration() {
    let handler = Handler::new();
    assert!(matches!(handler, Handler::ConfigValidating));
    assert!(!handler.is_done());
}

#[test]
fn flow_answers_the_ticket_count() {
    let handler = until_query(Some("false"), "/tickets/count", None);
    let (handler, action) = take(handler.step(Event::Reply(answer(200, WELL_FORMED))));
    let response = responded(&handler, action);
    assert_eq!(response.status, 200);
    assert_eq!(response.body, "{\"count\":42}");
    assert!(response.headers.is_empty());
}

#[test]
fn flow_answers_in_any_case_of_the_path() {
    let handler = until_query(Some("false"), "/Tickets/COUNT", None);
    let (handler, action) = take(handler.step(Event::Reply(answer(200, WELL_FORMED))));
    let response = responded(&handler, action);
    assert_eq!(response.status, 200);
    assert_eq!(response.body, "{\"count\":42}");
}

#[test]
fn flow_answers_with_cors_headers_for_an_origin() {
    let handler = until_query(Some("false"), "/tickets/count", Some("https://a.example"));
    let (handler, action) = take(handler.step(Event::Reply(answer(200, WELL_FORMED))));
    let response = responded(&handler, action);
    assert_eq!(response.status, 200);
    assert_eq!(response.body, "{\"count\":42}");
    assert_eq!(response.headers.get("Access-Control-Allow-Methods"), Some("GET"));
    assert_eq!(response.headers.get("Vary"), Some("Origin"));
    assert_eq!(response.headers.get("Access-Control-Allow-Origin"), Some("https://a.example"));
}

#[test]
fn flow_answers_an_empty_events_array_with_bad_count() {
    let handler = until_query(Some("false"), "/tickets/count", None);
    let (handler, action) = take(handler.step(Event::Reply(answer(200, "{\"events\":[]}"))));
    let response = responded(&handler, action);
    assert_eq!(response.status, 500);
    assert_eq!(response.body, "{\"status\":\"BAD_COUNT\"}");
}

#[test]
fn flow_answers_a_transport_failure_with_bad_count() {
    let handler = until_query(Some("false"), "/tickets/count", Some("https://a.example"));
    let (handler, action) = take(handler.step(Event::Reply(UpstreamReply::Unreachable)));
    let response = responded(&handler, action);
    assert_eq!(response.status, 500);
    assert_eq!(response.body, "{\"status\":\"BAD_COUNT\"}");
    assert!(response.headers.is_empty());
}

#[test]
fn flow_answers_other_paths_with_not_found() {
    for path in ["/events/next", "/", "", "/tickets", "/tickets/count/", "/tickets/count?x=1"] {
        let (handler, _) = take(Handler::new().step(Event::Environment(environment(Some("no")))));
        let origin = Some("https://a.example");
        let (handler, action) = take(handler.step(Event::Inbound(inbound(path, origin))));
        let response = responded(&handler, action);
        assert_eq!(response.status, 404, "path {path:?}");
        assert_eq!(response.body, "{\"status\":\"NOT_FOUND\"}");
        assert!(response.headers.is_empty());
    }
}

#[test]
fn flow_checks_the_token_when_asked_to() {
    let env = environment(Some("true"));
    let (handler, action) = take(Handler::new().step(Event::Environment(env)));
    assert!(matches!(handler, Handler::TokenChecking(_)));
    let request = dispatched(action);
    assert_eq!(request.uri, "https://api.tito.io/v3/hello");
    assert_eq!(request.headers.get("Authorization"), Some("Token token=secret"));
    assert_eq!(request.headers.get("Accept"), Some("application/json"));
    assert_eq!(request.headers.get("Content-Type"), Some("application/json"));
    let (handler, action) = take(handler.step(Event::Reply(answer(200, "{}"))));
    assert!(matches!(handler, Handler::Routing(_)));
    assert!(matches!(action, Action::ReadInbound));
    let (handler, action) = take(handler.step(Event::Inbound(inbound("/tickets/count", None))));
    let request = dispatched(action);
    assert_eq!(request.uri, "https://api.tito.io/v3/acme/events?view=extended");
    let (handler, action) = take(handler.step(Event::Reply(answer(200, WELL_FORMED))));
    let response = responded(&handler, action);
    assert_eq!(response.status, 200);
    assert_eq!(response.body, "{\"count\":42}");
}

#[test]
fn flow_answers_a_rejected_token_with_bad_conf() {
    let replies =
        [answer(401, ""), answer(500, WELL_FORMED), answer(204, ""), UpstreamReply::Unreachable];
    for reply in replies {
        let env = environment(Some("true"));
        let (handler, action) = take(Handler::new().step(Event::Environment(env)));
        assert_eq!(dispatched(action).uri, "https://api.tito.io/v3/hello");
        let (handler, action) = take(handler.step(Event::Reply(reply)));
        let response = responded(&handler, action);
        assert_eq!(response.status, 500);
        assert_eq!(response.body, "{\"status\":\"BAD_CONF\"}");
        assert!(response.headers.is_empty());
        assert!(handler.step(Event::Inbound(inbound("/tickets/count", None))).is_none());
    }
}

#[test]
fn flow_skips_the_token_check_unless_it_is_true() {
    for value in ["false", "TRUE", "", "0"] {
        let env = environment(Some(value));
        let (handler, action) = take(Handler::new().step(Event::Environment(env)));
        assert!(matches!(handler, Handler::Routing(_)), "value {value:?}");
        assert!(matches!(action, Action::ReadInbound));
    }
}

#[test]
fn flow_answers_a_missing_variable_with_bad_conf() {
    let mut without_token = environment(Some("true"));
    without_token.token = None;
    let mut without_slug = environment(Some("false"));
    without_slug.account_slug = None;
    for env in [without_token, without_slug, environment(None)] {
        let (handler, action) = take(Handler::new().step(Event::Environment(env)));
        let response = responded(&handler, action);
        assert_eq!(response.status, 500);
        assert_eq!(response.body, "{\"status\":\"BAD_CONF\"}");
        assert!(response.headers.is_empty());
    }
}

#[test]
fn step_refuses_an_event_that_the_state_does_not_await() {
    assert!(Handler::new().step(Event::Reply(answer(200, WELL_FORMED))).is_none());
    assert!(Handler::new().step(Event::Inbound(inbound("/tickets/count", None))).is_none());
    let (handler, _) = take(Handler::new().step(Event::Environment(environment(Some("true")))));
    assert!(handler.step(Event::Inbound(inbound("/tickets/count", None))).is_none());
    let (handler, _) = take(Handler::new().step(Event::Environment(environment(Some("false")))));
    assert!(handler.step(Event::Reply(answer(200, WELL_FORMED))).is_none());
    let (handler, _) = take(Handler::new().step(Event::Environment(environment(Some("false")))));
    assert!(handler.step(Event::Environment(environment(Some("false")))).is_none());
    let handler = until_query(Some("false"), "/tickets/count", None);
    assert!(handler.step(Event::Inbound(inbound("/tickets/count", None))).is_none());
    assert!(Handler::Responding.step(Event::Environment(environment(None))).is_none());
    assert!(Handler::Responding.step(Event::Reply(UpstreamReply::Unreachable)).is_none());
}
