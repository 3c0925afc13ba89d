//! Posting a message to a room.

use vstd::prelude::*;

use crate::api::http::Method;
use crate::api::methods::base::{APIMethod, MethodModel};
use crate::api::methods::payload::{
    has_key, Payload, PayloadValue, PayloadValueView, PayloadView,
};
use crate::api::settings::Settings;

verus! {

/// The endpoint `chat.postMessage`. Only the room is required.
#[derive(Debug)]
pub struct PostMessageMethod<'a> {
    pub settings: &'a Settings,
    pub room_id: String,
    pub text: Option<String>,
    pub alias: Option<String>,
    pub emoji: Option<String>,
    pub avatar: Option<String>,
}

/// The text of an optional string.
pub open spec fn text_of(value: Option<String>) -> Option<Seq<char>> {
    match value {
        Some(text) => Some(text@),
        None => None,
    }
}

/// The field `key` with a string, where there is one; nothing where there
/// is none.
pub open spec fn optional_text(key: Seq<char>, value: Option<Seq<char>>) -> PayloadView {
    match value {
        Some(text) => seq![(key, PayloadValueView::String(text))],
        None => Seq::empty(),
    }
}

/// The payload of a message: the room, then each optional field that is
/// set.
pub open spec fn post_message_payload(
    room_id: Seq<char>,
    text: Option<Seq<char>>,
    alias: Option<Seq<char>>,
    emoji: Option<Seq<char>>,
    avatar: Option<Seq<char>>,
) -> PayloadView {
    seq![("roomId"@, PayloadValueView::String(room_id))] + optional_text("text"@, text)
        + optional_text("alias"@, alias) + optional_text("emoji"@, emoji) + optional_text(
        "avatar"@,
        avatar,
    )
}

/// The five field names differ from each other.
pub proof fn lemma_post_message_names()
    ensures
        "roomId"@ != "text"@,
        "roomId"@ != "alias"@,
        "roomId"@ != "emoji"@,
        "roomId"@ != "avatar"@,
        "text"@ != "alias"@,
        "text"@ != "emoji"@,
        "text"@ != "avatar"@,
        "alias"@ != "emoji"@,
        "alias"@ != "avatar"@,
        "emoji"@ != "avatar"@,
{
    reveal_strlit("roomId");
    reveal_strlit("text");
    reveal_strlit("alias");
    reveal_strlit("emoji");
    reveal_strlit("avatar");
    assert("alias"@.len() == 5 && "emoji"@.len() == 5);
    assert("roomId"@[0] != "avatar"@[0]);
    assert("alias"@[0] != "emoji"@[0]);
}

/// Sets `key` to the string, where there is one.
fn put_text<'a>(payload: &mut Payload<'a>, key: &str, value: &'a Option<String>)
    requires
        old(payload).wf(),
        !has_key(old(payload)@, key@),
    ensures
        final(payload).wf(),
        final(payload)@ == old(payload)@ + optional_text(key@, text_of(*value)),
{
    match value {
        Some(text) => {
            payload.insert(String::from_str(key), PayloadValue::String(text.as_str()));
        },
        None => {},
    }
}

impl<'a> PostMessageMethod<'a> {
    /// A message with a text and nothing else that is optional.
    pub fn new(settings: &'a Settings, text: String, room_id: String) -> (m: Self)
        ensures
            m.settings == settings,
            m.room_id == room_id,
            m.text == Some(text),
            m.alias is None,
            m.emoji is None,
            m.avatar is None,
    {
        PostMessageMethod {
            settings,
            room_id,
            text: Some(text),
            alias: None,
            emoji: None,
            avatar: None,
        }
    }
}

impl<'a> APIMethod for PostMessageMethod<'a> {
    open spec fn model(&self) -> MethodModel {
        MethodModel {
            settings: self.settings@,
            endpoint: "/api/v1/chat.postMessage"@,
            method: Method::Post,
            payload: post_message_payload(
                self.room_id@,
                text_of(self.text),
                text_of(self.alias),
                text_of(self.emoji),
                text_of(self.avatar),
            ),
        }
    }

    fn settings(&self) -> (s: &Settings) {
        self.settings
    }

    fn endpoint(&self) -> (e: &str) {
        "/api/v1/chat.postMessage"
    }

    fn method(&self) -> (m: Method) {
        Method::Post
    }

    fn json_payload(&self) -> (p: Payload<'_>) {
        proof {
            lemma_post_message_names();
        }
        let mut payload = Payload::new();
        payload.insert(String::from_str("roomId"), PayloadValue::String(self.room_id.as_str()));
        put_text(&mut payload, "text", &self.text);
        put_text(&mut payload, "alias", &self.alias);
        put_text(&mut payload, "emoji", &self.emoji);
        put_text(&mut payload, "avatar", &self.avatar);
        payload
    }
}

} // verus!
