use rocketchat_client::api::http::{Method, Outcome, Request, Response};
use rocketchat_client::api::methods::base::{call_result, credential, decode_login, login_result};
use rocketchat_client::methods::{
    APIMethod, AuthData, CallState, ChannelCreateMethod, PostMessageMethod, Transition,
};
use rocketchat_client::{AuthSettings, Error, LoginSettings, RocketChatAPI, Settings};

fn login_settings() -> Settings {
    Settings::Login(LoginSettings {
        username: "u".to_string(),
        password: "p".to_string(),
        domain: "http://chat.example".to_string(),
    })
}

fn token_settings() -> Settings {
    Settings::Auth(AuthSettings {
        auth_token: "token".to_string(),
        user_id: "uid".to_string(),
        domain: "http://chat.example".to_string(),
    })
}

fn ok(body: &str) -> Outcome {
    Outcome::Response(Response { status: 200, body: Some(body.to_string()) })
}

fn status(status: u16) -> Outcome {
    Outcome::Response(Response { status, body: Some("ignored".to_string()) })
}

fn header(name: &str, value: &str) -> (String, String) {
    (name.to_string(), value.to_string())
}

/// Runs a call against `server` and returns its result with the requests
/// that were sent, in order.
fn run<M: APIMethod>(
    method: &M,
    server: &mut dyn FnMut(&Request) -> Outcome,
) -> (Result<String, Error>, Vec<Request>) {
    go_on(method, method.call(), server)
}

/// Goes on with a call that was started, as `run` does.
fn go_on<M: APIMethod>(
    method: &M,
    first: Transition,
    server: &mut dyn FnMut(&Request) -> Outcome,
) -> (Result<String, Error>, Vec<Request>) {
    let mut sent = Vec::new();
    let mut transition = first;
    loop {
        match transition.request {
            Some(request) => {
                assert!(sent.len() < 2, "a call asks for two requests at most");
                let outcome = server(&request);
                sent.push(request);
                transition = method.resume(transition.state, outcome);
            }
            None => {
                let result = transition.state.result().expect("a call without a request has ended");
                return (result, sent);
            }
        }
    }
}

#[test]
fn unset_settings_fail_before_any_request() {
    let settings = Settings::Unset;
    let method = PostMessageMethod::new(&settings, "hello".to_string(), "room1".to_string());
    assert_eq!(
        method.call(),
        Transition { state: CallState::Failed(Error::MissingSettings), request: None }
    );
    let (result, sent) = run(&method, &mut |_request: &Request| ok("never"));
    assert_eq!(result, Err(Error::MissingSettings));
    assert!(sent.is_empty());
    let channel = ChannelCreateMethod::new(&settings, "general".to_string());
    let (result, sent) = run(&channel, &mut |_request: &Request| ok("never"));
    assert_eq!(result, Err(Error::MissingSettings));
    assert!(sent.is_empty());
}

#[test]
fn token_settings_skip_the_login_and_carry_the_token() {
    let settings = token_settings();
    let method = PostMessageMethod::new(&settings, "hello".to_string(), "room1".to_string());
    let transition = method.call();
    assert_eq!(transition.state, CallState::Sent);
    assert_eq!(
        transition.request,
        Some(Request {
            url: "http://chat.example/api/v1/chat.postMessage".to_string(),
            method: Method::Post,
            headers: vec![header("x-auth-token", "token"), header("x-user-id", "uid")],
            body: "{\"roomId\":\"room1\",\"text\":\"hello\"}".to_string(),
        })
    );
    let (result, sent) = run(&method, &mut |_request: &Request| ok("{\"success\":true}"));
    assert_eq!(result, Ok("{\"success\":true}".to_string()));
    assert_eq!(sent.len(), 1);
    assert!(!sent[0].url.ends_with("/api/v1/login"));
}

#[test]
fn login_settings_log_in_first() {
    let settings = login_settings();
    let method = PostMessageMethod::new(&settings, "hello".to_string(), "room1".to_string());
    let transition = method.call();
    assert_eq!(transition.state, CallState::ResolvingAuth);
    assert_eq!(
        transition.request,
        Some(Request {
            url: "http://chat.example/api/v1/login".to_string(),
            method: Method::Post,
            headers: Vec::new(),
            body: "{\"user\":\"u\",\"password\":\"p\"}".to_string(),
        })
    );
}

#[test]
fn login_success_proceeds_with_the_returned_credential() {
    let settings = login_settings();
    let method = ChannelCreateMethod::new(&settings, "general".to_string());
    let transition = method.resume(
        CallState::ResolvingAuth,
        ok("{\"status\":\"success\",\"data\":{\"userId\":\"u1\",\"authToken\":\"t1\",\"me\":{}}}"),
    );
    assert_eq!(transition.state, CallState::Sent);
    assert_eq!(
        transition.request,
        Some(Request {
            url: "http://chat.example/api/v1/channels.create".to_string(),
            method: Method::Post,
            headers: vec![header("x-auth-token", "t1"), header("x-user-id", "u1")],
            body: "{\"name\":\"general\",\"readOnly\":false}".to_string(),
        })
    );
}

#[test]
fn login_is_repeated_on_every_call() {
    let settings = login_settings();
    let api = RocketChatAPI::new(settings);
    let mut logins = 0;
    for _ in 0..3 {
        let (method, first) = api.send_message("hello", "room1");
        let (result, sent) = go_on(&method, first, &mut |request: &Request| {
            if request.url.ends_with("/api/v1/login") {
                logins += 1;
                ok("{\"data\":{\"userId\":\"u1\",\"authToken\":\"t1\"}}")
            } else {
                ok("OK")
            }
        });
        assert_eq!(result, Ok("OK".to_string()));
        assert_eq!(sent.len(), 2);
    }
    assert_eq!(logins, 3);
}

#[test]
fn failure_status_at_the_login_ends_the_call() {
    let settings = login_settings();
    let method = PostMessageMethod::new(&settings, "hello".to_string(), "room1".to_string());
    let (result, sent) = run(&method, &mut |_request: &Request| status(401));
    assert_eq!(result, Err(Error::RequestFailed("HTTP status 401".to_string())));
    assert_eq!(sent.len(), 1);
    assert_eq!(sent[0].url, "http://chat.example/api/v1/login");
}

#[test]
fn failure_status_at_the_endpoint_ends_the_call() {
    let settings = login_settings();
    let method = PostMessageMethod::new(&settings, "hello".to_string(), "room1".to_string());
    let (result, sent) = run(&method, &mut |request: &Request| {
        if request.url.ends_with("/api/v1/login") {
            ok("{\"data\":{\"userId\":\"u1\",\"authToken\":\"t1\"}}")
        } else {
            status(500)
        }
    });
    assert_eq!(result, Err(Error::RequestFailed("HTTP status 500".to_string())));
    assert_eq!(sent.len(), 2);
    let token = token_settings();
    let method = PostMessageMethod::new(&token, "hello".to_string(), "room1".to_string());
    let (result, sent) = run(&method, &mut |_request: &Request| status(302));
    assert_eq!(result, Err(Error::RequestFailed("HTTP status 302".to_string())));
    assert_eq!(sent.len(), 1);
}

#[test]
fn transport_failure_ends_the_call_with_its_reason() {
    let settings = login_settings();
    let method = PostMessageMethod::new(&settings, "hello".to_string(), "room1".to_string());
    let (result, sent) = run(&method, &mut |_request: &Request| {
        Outcome::TransportFailure("dns error".to_string())
    });
    assert_eq!(result, Err(Error::RequestFailed("dns error".to_string())));
    assert_eq!(sent.len(), 1);
    let token = token_settings();
    let method = PostMessageMethod::new(&token, "hello".to_string(), "room1".to_string());
    let (result, sent) = run(&method, &mut |_request: &Request| {
        Outcome::TransportFailure("timed out".to_string())
    });
    assert_eq!(result, Err(Error::RequestFailed("timed out".to_string())));
    assert_eq!(sent.len(), 1);
}

#[test]
fn login_response_without_token_is_a_decode_error() {
    let settings = login_settings();
    let method = PostMessageMethod::new(&settings, "hello".to_string(), "room1".to_string());
    let (result, sent) = run(&method, &mut |_request: &Request| {
        ok("{\"data\":{\"userId\":\"u1\"}}")
    });
    assert_eq!(
        result,
        Err(Error::JsonDecodeError("missing string field `data.authToken`".to_string()))
    );
    assert_eq!(sent.len(), 1);
    assert_eq!(sent[0].url, "http://chat.example/api/v1/login");
}

#[test]
fn login_response_that_is_no_json_is_a_decode_error() {
    let settings = login_settings();
    let method = PostMessageMethod::new(&settings, "hello".to_string(), "room1".to_string());
    let (result, sent) = run(&method, &mut |_request: &Request| ok("<html>"));
    assert!(matches!(result, Err(Error::JsonDecodeError(_))));
    assert_eq!(sent.len(), 1);
}

#[test]
fn send_message_with_login_settings_end_to_end() {
    let api = RocketChatAPI::new(login_settings());
    let (method, first) = api.send_message("hello", "room1");
    let (result, sent) = go_on(&method, first, &mut |request: &Request| {
        if request.url == "http://chat.example/api/v1/login" {
            ok("{\"data\":{\"userId\":\"u1\",\"authToken\":\"t1\"}}")
        } else if request.url == "http://chat.example/api/v1/chat.postMessage" {
            ok("OK")
        } else {
            status(404)
        }
    });
    assert_eq!(result, Ok("OK".to_string()));
    assert_eq!(sent.len(), 2);
    assert_eq!(sent[0].method, Method::Post);
    assert_eq!(sent[0].headers, Vec::new());
    assert_eq!(sent[0].body, "{\"user\":\"u\",\"password\":\"p\"}");
    assert_eq!(sent[1].method, Method::Post);
    assert_eq!(sent[1].headers, vec![header("x-auth-token", "t1"), header("x-user-id", "u1")]);
    assert_eq!(sent[1].body, "{\"roomId\":\"room1\",\"text\":\"hello\"}");
}

#[test]
fn send_message_starts_the_call_of_a_message_with_only_a_text() {
    let api = RocketChatAPI::new(token_settings());
    let (method, first) = api.send_message("hello \"world\"", "room1");
    assert_eq!(first, method.call());
    assert_eq!(first.state, CallState::Sent);
    assert_eq!(method.room_id, "room1");
    assert_eq!(method.text, Some("hello \"world\"".to_string()));
    assert_eq!(method.alias, None);
    assert_eq!(method.emoji, None);
    assert_eq!(method.avatar, None);
    assert_eq!(
        method.json_payload().serialize(),
        Ok("{\"roomId\":\"room1\",\"text\":\"hello \\\"world\\\"\"}".to_string())
    );
}

#[test]
fn send_message_without_settings_fails_at_once() {
    let api = RocketChatAPI::new(Settings::Unset);
    let (_method, first) = api.send_message("hello", "room1");
    assert_eq!(
        first,
        Transition { state: CallState::Failed(Error::MissingSettings), request: None }
    );
}

#[test]
fn unreadable_body_of_the_endpoint_is_a_text_error() {
    let token = token_settings();
    let method = PostMessageMethod::new(&token, "hello".to_string(), "room1".to_string());
    let (result, sent) = run(&method, &mut |_request: &Request| {
        Outcome::Response(Response { status: 200, body: None })
    });
    assert_eq!(result, Err(Error::ResponseTextError));
    assert_eq!(sent.len(), 1);
}

#[test]
fn unreadable_body_of_the_login_is_a_decode_error() {
    let settings = login_settings();
    let method = PostMessageMethod::new(&settings, "hello".to_string(), "room1".to_string());
    let (result, sent) = run(&method, &mut |_request: &Request| {
        Outcome::Response(Response { status: 200, body: None })
    });
    assert_eq!(
        result,
        Err(Error::JsonDecodeError("the response body could not be read".to_string()))
    );
    assert_eq!(sent.len(), 1);
}

#[test]
fn ended_call_stays_as_it_is() {
    let settings = token_settings();
    let method = PostMessageMethod::new(&settings, "hello".to_string(), "room1".to_string());
    assert_eq!(
        method.resume(CallState::Success("done".to_string()), ok("more")),
        Transition { state: CallState::Success("done".to_string()), request: None }
    );
    assert_eq!(
        method.resume(CallState::Failed(Error::ResponseTextError), ok("more")),
        Transition { state: CallState::Failed(Error::ResponseTextError), request: None }
    );
}

#[test]
fn resume_of_a_call_that_was_not_started_starts_it() {
    let settings = token_settings();
    let method = PostMessageMethod::new(&settings, "hello".to_string(), "room1".to_string());
    assert_eq!(method.resume(CallState::Init, status(500)), method.call());
}

#[test]
fn result_is_there_once_the_call_has_ended() {
    assert_eq!(CallState::Init.result(), None);
    assert_eq!(CallState::ResolvingAuth.result(), None);
    assert_eq!(CallState::Sent.result(), None);
    assert_eq!(CallState::Success("text".to_string()).result(), Some(Ok("text".to_string())));
    assert_eq!(
        CallState::Failed(Error::MissingSettings).result(),
        Some(Err(Error::MissingSettings))
    );
}

#[test]
fn domain_is_the_base_url_of_both_usable_settings() {
    assert_eq!(login_settings().domain(), Ok("http://chat.example"));
    assert_eq!(token_settings().domain(), Ok("http://chat.example"));
    assert_eq!(Settings::Unset.domain(), Err(Error::MissingSettings));
    let settings = token_settings();
    let method = PostMessageMethod::new(&settings, "hello".to_string(), "room1".to_string());
    assert_eq!(method.domain(), Ok("http://chat.example"));
}

#[test]
fn build_endpoint_joins_base_url_and_path_as_they_are() {
    let settings = token_settings();
    let method = PostMessageMethod::new(&settings, "hello".to_string(), "room1".to_string());
    assert_eq!(
        method.build_endpoint("/api/v1/info"),
        Ok("http://chat.example/api/v1/info".to_string())
    );
    assert_eq!(method.build_endpoint("no-slash"), Ok("http://chat.exampleno-slash".to_string()));
    assert_eq!(method.build_endpoint(""), Ok("http://chat.example".to_string()));
    let unset = Settings::Unset;
    let method = PostMessageMethod::new(&unset, "hello".to_string(), "room1".to_string());
    assert_eq!(method.build_endpoint("/api/v1/info"), Err(Error::MissingSettings));
}

#[test]
fn request_sets_the_two_headers_only_with_a_credential() {
    let settings = Settings::Unset;
    let method = PostMessageMethod::new(&settings, "hello".to_string(), "room1".to_string());
    let payload = method.login_payload("u", "p");
    let plain = method.request("http://x/y".to_string(), Method::Get, &payload, None).unwrap();
    assert_eq!(plain.headers, Vec::new());
    assert_eq!(plain.url, "http://x/y");
    assert_eq!(plain.method, Method::Get);
    assert_eq!(plain.body, "{\"user\":\"u\",\"password\":\"p\"}");
    let auth = AuthData { user_id: "u1".to_string(), auth_token: "t1".to_string() };
    let signed = method.request("http://x/y".to_string(), Method::Put, &payload, Some(auth));
    assert_eq!(
        signed,
        Ok(Request {
            url: "http://x/y".to_string(),
            method: Method::Put,
            headers: vec![header("x-auth-token", "t1"), header("x-user-id", "u1")],
            body: "{\"user\":\"u\",\"password\":\"p\"}".to_string(),
        })
    );
}

#[test]
fn login_without_settings_is_missing_settings() {
    let settings = Settings::Unset;
    let method = PostMessageMethod::new(&settings, "hello".to_string(), "room1".to_string());
    assert_eq!(method.login("u", "p"), Err(Error::MissingSettings));
    let auth = AuthData { user_id: "u1".to_string(), auth_token: "t1".to_string() };
    assert_eq!(method.authenticated(auth), Err(Error::MissingSettings));
}

#[test]
fn decode_login_reads_the_credential() {
    assert_eq!(
        decode_login("{\"data\":{\"userId\":\"u1\",\"authToken\":\"t1\"}}"),
        Ok(AuthData { user_id: "u1".to_string(), auth_token: "t1".to_string() })
    );
    assert_eq!(
        decode_login(" { \"data\" : { \"authToken\" : \"t\\\"1\", \"userId\" : \"\" } } "),
        Ok(AuthData { user_id: String::new(), auth_token: "t\"1".to_string() })
    );
}

#[test]
fn decode_login_names_what_is_missing() {
    assert_eq!(
        decode_login("{}"),
        Err(Error::JsonDecodeError("missing field `data`".to_string()))
    );
    assert_eq!(
        decode_login("[]"),
        Err(Error::JsonDecodeError("missing field `data`".to_string()))
    );
    assert_eq!(
        decode_login("{\"data\":{\"authToken\":\"t1\"}}"),
        Err(Error::JsonDecodeError("missing string field `data.userId`".to_string()))
    );
    assert_eq!(
        decode_login("{\"data\":{\"userId\":7,\"authToken\":\"t1\"}}"),
        Err(Error::JsonDecodeError("missing string field `data.userId`".to_string()))
    );
    assert_eq!(
        decode_login("{\"data\":{\"userId\":\"u1\",\"authToken\":null}}"),
        Err(Error::JsonDecodeError("missing string field `data.authToken`".to_string()))
    );
    assert_eq!(
        decode_login("{\"data\":\"u1\"}"),
        Err(Error::JsonDecodeError("missing string field `data.userId`".to_string()))
    );
}

#[test]
fn credential_reads_a_parsed_document() {
    let mut data = serde_json::Map::new();
    data.insert("userId".to_string(), serde_json::Value::String("u1".to_string()));
    data.insert("authToken".to_string(), serde_json::Value::String("t1".to_string()));
    let mut document = serde_json::Map::new();
    document.insert("data".to_string(), serde_json::Value::Object(data));
    assert_eq!(
        credential(&serde_json::Value::Object(document)),
        Ok(AuthData { user_id: "u1".to_string(), auth_token: "t1".to_string() })
    );
    assert_eq!(
        credential(&serde_json::Value::Null),
        Err(Error::JsonDecodeError("missing field `data`".to_string()))
    );
}

#[test]
fn login_result_judges_status_before_body() {
    assert_eq!(
        login_result(Outcome::Response(Response {
            status: 403,
            body: Some("{\"data\":{\"userId\":\"u1\",\"authToken\":\"t1\"}}".to_string()),
        })),
        Err(Error::RequestFailed("HTTP status 403".to_string()))
    );
    assert_eq!(
        login_result(ok("{\"data\":{\"userId\":\"u1\",\"authToken\":\"t1\"}}")),
        Ok(AuthData { user_id: "u1".to_string(), auth_token: "t1".to_string() })
    );
    assert_eq!(
        login_result(Outcome::TransportFailure("tls".to_string())),
        Err(Error::RequestFailed("tls".to_string()))
    );
}

#[test]
fn call_result_returns_the_text_as_it_came() {
    assert_eq!(call_result(ok("not json at all")), Ok("not json at all".to_string()));
    assert_eq!(call_result(ok("")), Ok(String::new()));
    assert_eq!(call_result(status(404)), Err(Error::RequestFailed("HTTP status 404".to_string())));
}
