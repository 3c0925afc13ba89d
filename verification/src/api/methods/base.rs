//! What all endpoints share: how a call authenticates, which requests it
//! asks for, and how it judges what comes back.
//!
//! A call never sends anything itself. [`APIMethod::call`] starts it and
//! [`APIMethod::resume`] continues it with the outcome of the request it
//! asked for, until no request is asked for any more:
//!
//! ```text
//! Init ---------------> ResolvingAuth   (credentials: the login is asked for)
//! Init ---------------> Sent            (token: the endpoint is asked for)
//! ResolvingAuth ------> Sent            (the login gave a credential)
//! Sent ---------------> Success         (the endpoint answered)
//! Init, ResolvingAuth,
//! Sent ---------------> Failed          (anything else)
//! ```
//!
//! Once the login gave a credential the call is authenticated and builds
//! the endpoint's request; both happen within the one move to `Sent`, so
//! neither is a state to wait in. A call logs in anew each time; it keeps
//! no credential and retries nothing. [`start`] and [`next`] define the
//! moves, and the laws beside this module state what follows from them.

use vstd::prelude::*;

use crate::api::http::{Method, Outcome, OutcomeView, Request, RequestView};
use crate::api::json::backend::{get_member, json_member};
use crate::api::json::{member_string, parse, parsed, string_member};
use crate::api::methods::payload::{
    payload_text, Payload, PayloadValue, PayloadValueView, PayloadView,
};
use crate::api::settings::{Settings, SettingsView};
use crate::errors::{result_view, Error, ErrorView};

verus! {

/// The credential that authenticates one call: made by the login or taken
/// from the settings, and dropped when the call ends.
#[derive(Debug, PartialEq, Eq)]
pub struct AuthData {
    pub user_id: String,
    pub auth_token: String,
}

pub struct AuthDataView {
    pub user_id: Seq<char>,
    pub auth_token: Seq<char>,
}

impl View for AuthData {
    type V = AuthDataView;

    open spec fn view(&self) -> AuthDataView {
        AuthDataView { user_id: self.user_id@, auth_token: self.auth_token@ }
    }
}

/// Where a call stands.
#[derive(Debug, PartialEq, Eq)]
pub enum CallState {
    /// Nothing was asked for yet.
    Init,
    /// The login request is out; its outcome is awaited.
    ResolvingAuth,
    /// The endpoint's request is out; its outcome is awaited.
    Sent,
    /// The call ended with the text of the response.
    Success(String),
    /// The call ended with a failure.
    Failed(Error),
}

pub enum CallStateView {
    Init,
    ResolvingAuth,
    Sent,
    Success(Seq<char>),
    Failed(ErrorView),
}

impl View for CallState {
    type V = CallStateView;

    open spec fn view(&self) -> CallStateView {
        match self {
            CallState::Init => CallStateView::Init,
            CallState::ResolvingAuth => CallStateView::ResolvingAuth,
            CallState::Sent => CallStateView::Sent,
            CallState::Success(text) => CallStateView::Success(text@),
            CallState::Failed(error) => CallStateView::Failed(error@),
        }
    }
}

/// One move of a call: the state it is in now and the request to send
/// next. Where there is no request, the call has ended.
#[derive(Debug, PartialEq, Eq)]
pub struct Transition {
    pub state: CallState,
    pub request: Option<Request>,
}

pub struct TransitionView {
    pub state: CallStateView,
    pub request: Option<RequestView>,
}

impl View for Transition {
    type V = TransitionView;

    open spec fn view(&self) -> TransitionView {
        TransitionView {
            state: self.state@,
            request: match self.request {
                Some(request) => Some(request@),
                None => None,
            },
        }
    }
}

/// What an endpoint is, as a mathematical value: the settings it works
/// with and the three things it supplies of its own.
pub struct MethodModel {
    pub settings: SettingsView,
    /// The path of the endpoint below the base URL, with its leading slash.
    pub endpoint: Seq<char>,
    pub method: Method,
    pub payload: PayloadView,
}

/// A base URL and a path below it, put together as they are.
pub open spec fn endpoint_url(settings: SettingsView, uri: Seq<char>) -> Result<
    Seq<char>,
    ErrorView,
> {
    match settings.domain() {
        Some(domain) => Ok(domain + uri),
        None => Err(ErrorView::MissingSettings),
    }
}

/// The two headers that carry a credential; none without one.
pub open spec fn auth_headers(auth: Option<AuthDataView>) -> Seq<(Seq<char>, Seq<char>)> {
    match auth {
        Some(data) => seq![("x-auth-token"@, data.auth_token), ("x-user-id"@, data.user_id)],
        None => Seq::empty(),
    }
}

/// The request for `endpoint` with the payload as its JSON body.
pub open spec fn request_for(
    endpoint: Seq<char>,
    method: Method,
    payload: PayloadView,
    auth: Option<AuthDataView>,
) -> Result<RequestView, ErrorView> {
    match payload_text(payload) {
        Ok(body) => Ok(RequestView { url: endpoint, method, headers: auth_headers(auth), body }),
        Err(e) => Err(e),
    }
}

/// The payload of the login: the user's name and the password.
pub open spec fn login_payload_of(username: Seq<char>, password: Seq<char>) -> PayloadView {
    seq![
        ("user"@, PayloadValueView::String(username)),
        ("password"@, PayloadValueView::String(password)),
    ]
}

/// The login request: a `POST` of the credentials to the login path, with
/// no credential in its headers.
pub open spec fn login_request(settings: SettingsView, username: Seq<char>, password: Seq<char>)
    -> Result<RequestView, ErrorView> {
    match endpoint_url(settings, "/api/v1/login"@) {
        Ok(url) => request_for(url, Method::Post, login_payload_of(username, password), None),
        Err(e) => Err(e),
    }
}

/// The request of the endpoint itself, authenticated with `auth`.
pub open spec fn endpoint_request(model: MethodModel, auth: AuthDataView) -> Result<
    RequestView,
    ErrorView,
> {
    match endpoint_url(model.settings, model.endpoint) {
        Ok(url) => request_for(url, model.method, model.payload, Some(auth)),
        Err(e) => Err(e),
    }
}

/// The credential in a login response: the strings `userId` and
/// `authToken` of the object `data`.
pub open spec fn login_fields(document: serde_json::Value) -> Result<AuthDataView, ErrorView> {
    match json_member(document, "data"@) {
        None => Err(ErrorView::JsonDecodeError("missing field `data`"@)),
        Some(data) => match string_member(data, "userId"@) {
            None => Err(ErrorView::JsonDecodeError("missing string field `data.userId`"@)),
            Some(user_id) => match string_member(data, "authToken"@) {
                None => Err(ErrorView::JsonDecodeError("missing string field `data.authToken`"@)),
                Some(auth_token) => Ok(AuthDataView { user_id, auth_token }),
            },
        },
    }
}

/// The credential in the text of a login response.
pub open spec fn decoded_login(text: Seq<char>) -> Result<AuthDataView, ErrorView> {
    match parsed(text) {
        Ok(document) => login_fields(document),
        Err(e) => Err(e),
    }
}

/// What the outcome of the login request means for the call.
pub open spec fn login_outcome(outcome: OutcomeView) -> Result<AuthDataView, ErrorView> {
    match outcome.success_body() {
        Err(e) => Err(e),
        Ok(None) => Err(ErrorView::JsonDecodeError("the response body could not be read"@)),
        Ok(Some(text)) => decoded_login(text),
    }
}

/// What the outcome of the endpoint's request means for the call.
pub open spec fn call_outcome(outcome: OutcomeView) -> Result<Seq<char>, ErrorView> {
    match outcome.success_body() {
        Err(e) => Err(e),
        Ok(None) => Err(ErrorView::ResponseTextError),
        Ok(Some(text)) => Ok(text),
    }
}

/// The end of a call in a failure.
pub open spec fn failed(error: ErrorView) -> TransitionView {
    TransitionView { state: CallStateView::Failed(error), request: None }
}

/// Asking for `request` and waiting for its outcome in `waiting`; where no
/// request could be built, the end of the call.
pub open spec fn sending(request: Result<RequestView, ErrorView>, waiting: CallStateView)
    -> TransitionView {
    match request {
        Ok(request) => TransitionView { state: waiting, request: Some(request) },
        Err(e) => failed(e),
    }
}

/// The first move of a call.
pub open spec fn start(model: MethodModel) -> TransitionView {
    match model.settings {
        SettingsView::Unset => failed(ErrorView::MissingSettings),
        SettingsView::Login(login) => sending(
            login_request(model.settings, login.username, login.password),
            CallStateView::ResolvingAuth,
        ),
        SettingsView::Auth(auth) => sending(
            endpoint_request(
                model,
                AuthDataView { user_id: auth.user_id, auth_token: auth.auth_token },
            ),
            CallStateView::Sent,
        ),
    }
}

/// The move of a call in `state` when `outcome` arrives. A call that was
/// not started starts; one that has ended stays as it is.
pub open spec fn next(model: MethodModel, state: CallStateView, outcome: OutcomeView)
    -> TransitionView {
    match state {
        CallStateView::Init => start(model),
        CallStateView::ResolvingAuth => match login_outcome(outcome) {
            Ok(auth) => sending(endpoint_request(model, auth), CallStateView::Sent),
            Err(e) => failed(e),
        },
        CallStateView::Sent => match call_outcome(outcome) {
            Ok(text) => TransitionView { state: CallStateView::Success(text), request: None },
            Err(e) => failed(e),
        },
        CallStateView::Success(text) => TransitionView {
            state: CallStateView::Success(text),
            request: None,
        },
        CallStateView::Failed(error) => failed(error),
    }
}

impl CallState {
    /// What the call returned, once it has ended.
    pub fn result(self) -> (r: Option<Result<String, Error>>)
        ensures
            match self@ {
                CallStateView::Success(text) => r matches Some(Ok(t)) && t@ == text,
                CallStateView::Failed(error) => r matches Some(Err(e)) && e@ == error,
                _ => r is None,
            },
    {
        match self {
            CallState::Success(text) => Some(Ok(text)),
            CallState::Failed(error) => Some(Err(error)),
            _ => None,
        }
    }
}

fn fail(error: Error) -> (t: Transition)
    ensures
        t@ == failed(error@),
{
    Transition { state: CallState::Failed(error), request: None }
}

fn send(request: Result<Request, Error>, waiting: CallState) -> (t: Transition)
    ensures
        t@ == sending(result_view(request), waiting@),
{
    match request {
        Ok(request) => Transition { state: waiting, request: Some(request) },
        Err(e) => fail(e),
    }
}

/// Reads the credential out of a parsed login response.
pub fn credential(document: &serde_json::Value) -> (r: Result<AuthData, Error>)
    ensures
        result_view(r) == login_fields(*document),
{
    let data = match get_member(document, "data") {
        Some(data) => data,
        None => {
            return Err(Error::JsonDecodeError(String::from_str("missing field `data`")));
        },
    };
    let user_id = match member_string(data, "userId") {
        Some(user_id) => user_id,
        None => {
            return Err(
                Error::JsonDecodeError(String::from_str("missing string field `data.userId`")),
            );
        },
    };
    let auth_token = match member_string(data, "authToken") {
        Some(auth_token) => auth_token,
        None => {
            return Err(
                Error::JsonDecodeError(String::from_str("missing string field `data.authToken`")),
            );
        },
    };
    Ok(AuthData { user_id, auth_token })
}

/// Decodes the text of a login response. Text that is no JSON document, and
/// a document without the credential, are both a `JsonDecodeError`.
pub fn decode_login(text: &str) -> (r: Result<AuthData, Error>)
    ensures
        result_view(r) == decoded_login(text@),
{
    match parse(text) {
        Ok(document) => credential(&document),
        Err(e) => Err(e),
    }
}

/// Judges the outcome of the login request: the credential, or why there is
/// none.
pub fn login_result(outcome: Outcome) -> (r: Result<AuthData, Error>)
    ensures
        result_view(r) == login_outcome(outcome@),
{
    match outcome.success_body() {
        Err(e) => Err(e),
        Ok(None) => Err(
            Error::JsonDecodeError(String::from_str("the response body could not be read")),
        ),
        Ok(Some(text)) => decode_login(text.as_str()),
    }
}

/// Judges the outcome of the endpoint's request: the text of the response as
/// it came, or why there is none.
pub fn call_result(outcome: Outcome) -> (r: Result<String, Error>)
    ensures
        result_view(r) == call_outcome(outcome@),
{
    match outcome.success_body() {
        Err(e) => Err(e),
        Ok(None) => Err(Error::ResponseTextError),
        Ok(Some(text)) => Ok(text),
    }
}

/// One endpoint of the server. An implementation supplies the settings, the
/// path, the verb and the payload; everything else is shared.
pub trait APIMethod {
    /// The endpoint as a mathematical value.
    spec fn model(&self) -> MethodModel;

    fn settings(&self) -> (s: &Settings)
        ensures
            s@ == self.model().settings,
    ;

    /// The path below the base URL, with its leading slash.
    fn endpoint(&self) -> (e: &str)
        ensures
            e@ == self.model().endpoint,
    ;

    fn method(&self) -> (m: Method)
        ensures
            m == self.model().method,
    ;

    /// The payload: the fields that are set and no others.
    fn json_payload(&self) -> (p: Payload<'_>)
        ensures
            p.wf(),
            p@ == self.model().payload,
    ;

    /// The base URL of the server.
    fn domain(&self) -> (r: Result<&str, Error>)
        ensures
            match self.model().settings.domain() {
                Some(domain) => r matches Ok(d) && d@ == domain,
                None => r matches Err(Error::MissingSettings),
            },
    {
        self.settings().domain()
    }

    /// The full URL of a path: the base URL and `uri` put together as they
    /// are. `uri` has to bring its leading slash.
    fn build_endpoint(&self, uri: &str) -> (r: Result<String, Error>)
        ensures
            result_view(r) == endpoint_url(self.model().settings, uri@),
    {
        match self.domain() {
            Ok(domain) => {
                let mut url = String::from_str(domain);
                url.append(uri);
                Ok(url)
            },
            Err(e) => Err(e),
        }
    }

    /// Builds one request. With a credential the request carries the headers
    /// `x-auth-token` and `x-user-id`; without one it carries none. The body
    /// is the payload as JSON.
    fn request(
        &self,
        endpoint: String,
        method: Method,
        json_map: &Payload,
        auth_data: Option<AuthData>,
    ) -> (r: Result<Request, Error>)
        ensures
            result_view(r) == request_for(
                endpoint@,
                method,
                json_map@,
                match auth_data {
                    Some(data) => Some(data@),
                    None => None,
                },
            ),
    {
        let mut headers: Vec<(String, String)> = Vec::new();
        if let Some(data) = auth_data {
            headers.push((String::from_str("x-auth-token"), data.auth_token));
            headers.push((String::from_str("x-user-id"), data.user_id));
        }
        match json_map.serialize() {
            Ok(body) => {
                let request = Request { url: endpoint, method, headers, body };
                assert(request@.headers =~= auth_headers(
                    match auth_data {
                        Some(data) => Some(data@),
                        None => None,
                    },
                ));
                Ok(request)
            },
            Err(e) => Err(e),
        }
    }

    /// The payload of the login request.
    fn login_payload<'a>(&'a self, username: &'a str, password: &'a str) -> (p: Payload<'a>)
        ensures
            p.wf(),
            p@ == login_payload_of(username@, password@),
    {
        let mut payload = Payload::new();
        payload.insert(String::from_str("user"), PayloadValue::String(username));
        proof {
            reveal_strlit("user");
            reveal_strlit("password");
            assert("user"@.len() != "password"@.len());
        }
        payload.insert(String::from_str("password"), PayloadValue::String(password));
        payload
    }

    /// The login request for the given credentials.
    fn login(&self, username: &str, password: &str) -> (r: Result<Request, Error>)
        ensures
            result_view(r) == login_request(self.model().settings, username@, password@),
    {
        let url = match self.build_endpoint("/api/v1/login") {
            Ok(url) => url,
            Err(e) => {
                return Err(e);
            },
        };
        let payload = self.login_payload(username, password);
        self.request(url, Method::Post, &payload, None)
    }

    /// The request of the endpoint itself, authenticated with `auth_data`.
    fn authenticated(&self, auth_data: AuthData) -> (r: Result<Request, Error>)
        ensures
            result_view(r) == endpoint_request(self.model(), auth_data@),
    {
        let url = match self.build_endpoint(self.endpoint()) {
            Ok(url) => url,
            Err(e) => {
                return Err(e);
            },
        };
        let payload = self.json_payload();
        self.request(url, self.method(), &payload, Some(auth_data))
    }

    /// Starts a call. Without settings it fails at once; with credentials
    /// it asks for the login request; with a token it asks for the
    /// endpoint's request, which carries the token.
    fn call(&self) -> (t: Transition)
        ensures
            t@ == start(self.model()),
    {
        match self.settings() {
            Settings::Unset => fail(Error::MissingSettings),
            Settings::Login(settings) => {
                let request = self.login(settings.username.as_str(), settings.password.as_str());
                send(request, CallState::ResolvingAuth)
            },
            Settings::Auth(settings) => {
                let auth_data = AuthData {
                    auth_token: settings.auth_token.clone(),
                    user_id: settings.user_id.clone(),
                };
                send(self.authenticated(auth_data), CallState::Sent)
            },
        }
    }

    /// Continues a call in `state` with the outcome of the request it asked
    /// for last.
    fn resume(&self, state: CallState, outcome: Outcome) -> (t: Transition)
        ensures
            t@ == next(self.model(), state@, outcome@),
    {
        match state {
            CallState::Init => self.call(),
            CallState::ResolvingAuth => match login_result(outcome) {
                Ok(auth_data) => send(self.authenticated(auth_data), CallState::Sent),
                Err(e) => fail(e),
            },
            CallState::Sent => match call_result(outcome) {
                Ok(text) => Transition { state: CallState::Success(text), request: None },
                Err(e) => fail(e),
            },
            CallState::Success(text) => Transition { state: CallState::Success(text), request: None },
            CallState::Failed(error) => fail(error),
        }
    }
}

} // verus!
