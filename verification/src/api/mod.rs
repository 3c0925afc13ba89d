//! The client: settings, the endpoints, and what is exchanged with the server.

pub mod http;
pub mod json;
pub mod methods;
pub mod settings;

pub use crate::api::settings::{AuthSettings, LoginSettings, Settings};

use vstd::prelude::*;

use crate::api::methods::base::{start, APIMethod, Transition};
use crate::api::methods::chat::{post_message_payload, PostMessageMethod};
use crate::api::settings::SettingsView;

verus! {

/// The client a caller holds. It owns the settings and never changes them,
/// so it can be used for any number of calls; none of them shares anything
/// with another.
#[derive(Debug)]
pub struct RocketChatAPI {
    settings: Settings,
}

impl View for RocketChatAPI {
    type V = SettingsView;

    closed spec fn view(&self) -> SettingsView {
        self.settings@
    }
}

impl RocketChatAPI {
    pub fn new(settings: Settings) -> (api: RocketChatAPI)
        ensures
            api@ == settings@,
    {
        RocketChatAPI { settings }
    }

    /// Starts the sending of `text` to the room `room_id`. Returns the method
    /// that was called, which works with the client's settings and whose
    /// payload holds the room and the text and nothing else, and the first
    /// move of its call. The call goes on with [`APIMethod::resume`] on that
    /// method.
    pub fn send_message(&self, text: &str, room_id: &str) -> (started: (
        PostMessageMethod<'_>,
        Transition,
    ))
        ensures
            started.0.model().settings == self@,
            started.0.model().payload == post_message_payload(
                room_id@,
                Some(text@),
                None,
                None,
                None,
            ),
            started.0.room_id@ == room_id@,
            started.0.text matches Some(t) && t@ == text@,
            started.0.alias is None,
            started.0.emoji is None,
            started.0.avatar is None,
            started.1@ == start(started.0.model()),
    {
        let method = PostMessageMethod::new(
            &self.settings,
            String::from_str(text),
            String::from_str(room_id),
        );
        let transition = method.call();
        (method, transition)
    }
}

} // verus!
