//! What holds of every call and of every payload, proved from the
//! definitions of [`start`], [`next`] and the payloads.

use vstd::prelude::*;

use crate::api::http::{is_success, status_message, Method, OutcomeView, ResponseView};
use crate::api::json::backend::json_member;
use crate::api::json::{lemma_collected_push, lemma_joined_push, member_of, string_member};
use crate::api::methods::base::{
    decoded_login, failed, login_fields, login_outcome, login_payload_of, next, start,
    CallStateView, MethodModel, TransitionView,
};
use crate::api::methods::channels::{channel_create_payload, lemma_channel_create_names};
use crate::api::methods::chat::{lemma_post_message_names, post_message_payload};
use crate::api::methods::payload::{
    distinct_keys, encoded_member, encoded_members, has_key, lemma_lookup_at, lookup,
    payload_text, PayloadValueView,
};
use crate::api::settings::{AuthSettingsView, LoginSettingsView, SettingsView};
use crate::errors::ErrorView;

verus! {

/// How many requests a call in `state` may still ask for.
pub open spec fn requests_left(state: CallStateView) -> nat {
    match state {
        CallStateView::Init => 2,
        CallStateView::ResolvingAuth => 1,
        _ => 0,
    }
}

/// Whether a call in `state` has ended.
pub open spec fn ended(state: CallStateView) -> bool {
    state is Success || state is Failed
}

/// Without settings a call fails with `MissingSettings` and asks for no
/// request, whatever the endpoint is.
pub proof fn lemma_unset_fails_without_request(model: MethodModel)
    requires
        model.settings is Unset,
    ensures
        start(model) == failed(ErrorView::MissingSettings),
        start(model).request is None,
{
}

/// With a token in the settings a call never waits for a login. The one
/// request it asks for goes to the endpoint and carries the token and the
/// user's id from the settings as its two headers.
pub proof fn lemma_token_call_goes_to_endpoint(model: MethodModel, auth: AuthSettingsView)
    requires
        model.settings == SettingsView::Auth(auth),
    ensures
        !(start(model).state is ResolvingAuth),
        match start(model).request {
            Some(request) => {
                &&& start(model).state is Sent
                &&& request.url == auth.domain + model.endpoint
                &&& request.method == model.method
                &&& request.headers == seq![
                    ("x-auth-token"@, auth.auth_token),
                    ("x-user-id"@, auth.user_id),
                ]
                &&& payload_text(model.payload) == Ok::<Seq<char>, ErrorView>(request.body)
            },
            None => {
                &&& payload_text(model.payload) matches Err(e)
                &&& start(model) == failed(e)
            },
        },
{
}

/// With credentials in the settings a call starts with the login: a `POST`
/// to the login path below the base URL, without a credential in its
/// headers, whose body holds the user's name and the password.
pub proof fn lemma_login_call_logs_in_first(model: MethodModel, login: LoginSettingsView)
    requires
        model.settings == SettingsView::Login(login),
    ensures
        !(start(model).state is Sent),
        match start(model).request {
            Some(request) => {
                &&& start(model).state is ResolvingAuth
                &&& request.url == login.domain + "/api/v1/login"@
                &&& request.method == Method::Post
                &&& request.headers.len() == 0
                &&& payload_text(login_payload_of(login.username, login.password)) == Ok::<
                    Seq<char>,
                    ErrorView,
                >(request.body)
            },
            None => {
                &&& payload_text(login_payload_of(login.username, login.password)) matches Err(e)
                &&& start(model) == failed(e)
            },
        },
{
}

/// The object of one member, or the failure of that member.
pub open spec fn object_of_one(member: Result<(Seq<char>, Seq<char>), ErrorView>) -> Result<
    Seq<char>,
    ErrorView,
> {
    match member {
        Err(e) => Err(e),
        Ok(only) => Ok("{"@ + member_of(only) + "}"@),
    }
}

/// The object of two members in their order, or the first failure among
/// them.
pub open spec fn object_of_two(
    first: Result<(Seq<char>, Seq<char>), ErrorView>,
    second: Result<(Seq<char>, Seq<char>), ErrorView>,
) -> Result<Seq<char>, ErrorView> {
    match first {
        Err(e) => Err(e),
        Ok(one) => match second {
            Err(e) => Err(e),
            Ok(two) => Ok("{"@ + (member_of(one) + ","@ + member_of(two)) + "}"@),
        },
    }
}

/// A payload with one field is sent as an object with one member.
pub proof fn lemma_single_field_text(entry: (Seq<char>, PayloadValueView))
    ensures
        payload_text(seq![entry]) == object_of_one(encoded_member(entry)),
{
    let results = encoded_members(seq![entry]);
    let none = Seq::<Result<(Seq<char>, Seq<char>), ErrorView>>::empty();
    assert(results =~= none.push(encoded_member(entry)));
    lemma_collected_push(none, encoded_member(entry));
    match encoded_member(entry) {
        Ok(only) => {
            lemma_joined_push(Seq::empty(), ","@, member_of(only));
        },
        Err(_) => {},
    }
}

/// A payload with two fields is sent as an object with two members, in the
/// order of the fields.
pub proof fn lemma_two_fields_text(
    first: (Seq<char>, PayloadValueView),
    second: (Seq<char>, PayloadValueView),
)
    ensures
        payload_text(seq![first, second]) == object_of_two(
            encoded_member(first),
            encoded_member(second),
        ),
{
    let results = encoded_members(seq![first, second]);
    let none = Seq::<Result<(Seq<char>, Seq<char>), ErrorView>>::empty();
    assert(results =~= none.push(encoded_member(first)).push(encoded_member(second)));
    lemma_collected_push(none, encoded_member(first));
    lemma_collected_push(none.push(encoded_member(first)), encoded_member(second));
    match (encoded_member(first), encoded_member(second)) {
        (Ok(one), Ok(two)) => {
            let members = Seq::<(Seq<char>, Seq<char>)>::empty().push(one).push(two);
            let parts = Seq::new(members.len(), |i: int| member_of(members[i]));
            let no_parts = Seq::<Seq<char>>::empty();
            assert(parts =~= no_parts.push(member_of(one)).push(member_of(two)));
            lemma_joined_push(no_parts, ","@, member_of(one));
            lemma_joined_push(no_parts.push(member_of(one)), ","@, member_of(two));
        },
        _ => {},
    }
}

/// The body of the login request is the object of `user` and `password`, in
/// this order, each name and value as a JSON string.
pub proof fn lemma_login_body(username: Seq<char>, password: Seq<char>)
    ensures
        payload_text(login_payload_of(username, password)) == object_of_two(
            encoded_member(("user"@, PayloadValueView::String(username))),
            encoded_member(("password"@, PayloadValueView::String(password))),
        ),
{
    lemma_two_fields_text(
        ("user"@, PayloadValueView::String(username)),
        ("password"@, PayloadValueView::String(password)),
    );
}

/// After the login the call goes on to the endpoint only where the login
/// gave a credential, and the request then carries that credential as its
/// two headers. Where the login gave none, the call ends with the login's
/// failure and asks for nothing more.
pub proof fn lemma_login_outcome_decides(model: MethodModel, outcome: OutcomeView)
    ensures
        match login_outcome(outcome) {
            Ok(auth) => match next(model, CallStateView::ResolvingAuth, outcome).request {
                Some(request) => {
                    &&& next(model, CallStateView::ResolvingAuth, outcome).state is Sent
                    &&& model.settings.domain() matches Some(domain)
                    &&& request.url == domain + model.endpoint
                    &&& request.method == model.method
                    &&& request.headers == seq![
                        ("x-auth-token"@, auth.auth_token),
                        ("x-user-id"@, auth.user_id),
                    ]
                    &&& payload_text(model.payload) == Ok::<Seq<char>, ErrorView>(request.body)
                },
                None => next(model, CallStateView::ResolvingAuth, outcome).state is Failed,
            },
            Err(e) => next(model, CallStateView::ResolvingAuth, outcome) == failed(e),
        },
{
}

/// A response whose status is outside 200..=299 ends the call with
/// `RequestFailed`, at the login as at the endpoint, and no further request
/// is asked for.
pub proof fn lemma_failure_status_ends_call(
    model: MethodModel,
    state: CallStateView,
    response: ResponseView,
)
    requires
        state is ResolvingAuth || state is Sent,
        !is_success(response.status),
    ensures
        next(model, state, OutcomeView::Response(response)) == failed(
            ErrorView::RequestFailed(status_message(response.status)),
        ),
        next(model, state, OutcomeView::Response(response)).request is None,
{
}

/// A request that the transport could not carry out ends the call with
/// `RequestFailed` and the transport's reason.
pub proof fn lemma_transport_failure_ends_call(
    model: MethodModel,
    state: CallStateView,
    reason: Seq<char>,
)
    requires
        state is ResolvingAuth || state is Sent,
    ensures
        next(model, state, OutcomeView::TransportFailure(reason)) == failed(
            ErrorView::RequestFailed(reason),
        ),
{
}

/// A login response with a success status whose body does not hold the
/// credential ends the call with `JsonDecodeError`: the endpoint is never
/// asked.
pub proof fn lemma_undecodable_login_ends_call(
    model: MethodModel,
    response: ResponseView,
    text: Seq<char>,
)
    requires
        is_success(response.status),
        response.body == Some(text),
        decoded_login(text) is Err,
    ensures
        decoded_login(text)->Err_0 is JsonDecodeError,
        next(model, CallStateView::ResolvingAuth, OutcomeView::Response(response)) == failed(
            decoded_login(text)->Err_0,
        ),
        next(model, CallStateView::ResolvingAuth, OutcomeView::Response(response)).request
            is None,
{
}

/// A document whose `data` has no string `authToken` holds no credential,
/// whatever else it holds.
pub proof fn lemma_missing_token_is_decode_error(
    document: serde_json::Value,
    data: serde_json::Value,
)
    requires
        json_member(document, "data"@) == Some(data),
        string_member(data, "authToken"@) is None,
    ensures
        login_fields(document) matches Err(e) && e is JsonDecodeError,
{
}

/// The text of a successful response is returned as it came.
pub proof fn lemma_success_returns_text(model: MethodModel, response: ResponseView, text: Seq<char>)
    requires
        is_success(response.status),
        response.body == Some(text),
    ensures
        next(model, CallStateView::Sent, OutcomeView::Response(response)) == (TransitionView {
            state: CallStateView::Success(text),
            request: None,
        }),
{
}

/// A call that has ended stays as it is and asks for nothing.
pub proof fn lemma_ended_call_stays(model: MethodModel, state: CallStateView, outcome: OutcomeView)
    requires
        ended(state),
    ensures
        next(model, state, outcome) == (TransitionView { state, request: None }),
{
}

/// Every move either asks for a request, and then fewer requests are left
/// than before, or ends the call. So a call asks for two requests at most,
/// one after the other, and a failure is never followed by a request.
pub proof fn lemma_call_is_bounded(model: MethodModel, state: CallStateView, outcome: OutcomeView)
    ensures
        match next(model, state, outcome).request {
            Some(_) => {
                &&& !ended(next(model, state, outcome).state)
                &&& requests_left(next(model, state, outcome).state) < requests_left(state)
            },
            None => ended(next(model, state, outcome).state),
        },
        start(model) == next(model, CallStateView::Init, outcome),
{
}

/// The payload of a new channel holds the name, and each optional field
/// exactly if it is set: a field that is not set is not there at all.
pub proof fn lemma_channel_create_fields(
    name: Seq<char>,
    members: Option<Seq<Seq<char>>>,
    read_only: Option<bool>,
)
    ensures
        distinct_keys(channel_create_payload(name, members, read_only)),
        channel_create_payload(name, members, read_only).len() == 1 + (if members is Some {
            1nat
        } else {
            0nat
        }) + (if read_only is Some {
            1nat
        } else {
            0nat
        }),
        lookup(channel_create_payload(name, members, read_only), "name"@) == Some(
            PayloadValueView::String(name),
        ),
        lookup(channel_create_payload(name, members, read_only), "members"@) == match members {
            Some(names) => Some(PayloadValueView::ListOfString(names)),
            None => None,
        },
        lookup(channel_create_payload(name, members, read_only), "readOnly"@) == match read_only {
            Some(flag) => Some(PayloadValueView::Bool(flag)),
            None => None,
        },
{
    lemma_channel_create_names();
    let payload = channel_create_payload(name, members, read_only);
    lemma_lookup_at(payload, 0);
    match members {
        Some(names) => {
            lemma_lookup_at(payload, 1);
            if read_only is Some {
                lemma_lookup_at(payload, 2);
            }
        },
        None => {
            if read_only is Some {
                lemma_lookup_at(payload, 1);
            }
        },
    }
}

/// A channel with nothing but a name is sent as the object of the one
/// member `name`.
pub proof fn lemma_channel_create_only_name(name: Seq<char>)
    ensures
        payload_text(channel_create_payload(name, None, None)) == object_of_one(
            encoded_member(("name"@, PayloadValueView::String(name))),
        ),
{
    assert(channel_create_payload(name, None, None) =~= seq![
        ("name"@, PayloadValueView::String(name)),
    ]);
    lemma_single_field_text(("name"@, PayloadValueView::String(name)));
}

/// A message with a room and a text and nothing else is sent as the object
/// of the two members `roomId` and `text`, in this order.
pub proof fn lemma_post_message_room_and_text(room_id: Seq<char>, text: Seq<char>)
    ensures
        payload_text(post_message_payload(room_id, Some(text), None, None, None))
            == object_of_two(
            encoded_member(("roomId"@, PayloadValueView::String(room_id))),
            encoded_member(("text"@, PayloadValueView::String(text))),
        ),
{
    assert(post_message_payload(room_id, Some(text), None, None, None) =~= seq![
        ("roomId"@, PayloadValueView::String(room_id)),
        ("text"@, PayloadValueView::String(text)),
    ]);
    lemma_two_fields_text(
        ("roomId"@, PayloadValueView::String(room_id)),
        ("text"@, PayloadValueView::String(text)),
    );
}

/// The payload of a message holds the room, and each optional field
/// exactly if it is set.
pub proof fn lemma_post_message_fields(
    room_id: Seq<char>,
    text: Option<Seq<char>>,
    alias: Option<Seq<char>>,
    emoji: Option<Seq<char>>,
    avatar: Option<Seq<char>>,
)
    ensures
        distinct_keys(post_message_payload(room_id, text, alias, emoji, avatar)),
        lookup(post_message_payload(room_id, text, alias, emoji, avatar), "roomId"@) == Some(
            PayloadValueView::String(room_id),
        ),
        has_key(post_message_payload(room_id, text, alias, emoji, avatar), "text"@)
            <==> text is Some,
        has_key(post_message_payload(room_id, text, alias, emoji, avatar), "alias"@)
            <==> alias is Some,
        has_key(post_message_payload(room_id, text, alias, emoji, avatar), "emoji"@)
            <==> emoji is Some,
        has_key(post_message_payload(room_id, text, alias, emoji, avatar), "avatar"@)
            <==> avatar is Some,
        forall|key: Seq<char>| #[trigger]
            has_key(post_message_payload(room_id, text, alias, emoji, avatar), key) ==> key
                == "roomId"@ || key == "text"@ || key == "alias"@ || key == "emoji"@ || key
                == "avatar"@,
{
    lemma_post_message_names();
    let payload = post_message_payload(room_id, text, alias, emoji, avatar);
    let t: int = if text is Some { 1 } else { 0 };
    let a: int = if alias is Some { 1 } else { 0 };
    let e: int = if emoji is Some { 1 } else { 0 };
    assert(text is Some ==> payload[1].0 == "text"@);
    assert(alias is Some ==> payload[1 + t].0 == "alias"@);
    assert(emoji is Some ==> payload[1 + t + a].0 == "emoji"@);
    assert(avatar is Some ==> payload[1 + t + a + e].0 == "avatar"@);
    lemma_lookup_at(payload, 0);
}

} // verus!
