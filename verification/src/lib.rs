//! A client for the authenticated JSON endpoints of a chat server.
//!
//! The library never touches the network. A call is a small state machine:
//! it hands out the request to send next and takes back what came of it.
//! Whoever holds a transport runs it like this:
//!
//! ```text
//! let api = RocketChatAPI::new(settings);
//! let (method, mut transition) = api.send_message("hello", "room1");
//! while let Some(request) = transition.request {
//!     let outcome = transport(request);
//!     transition = method.resume(transition.state, outcome);
//! }
//! let text = transition.state.result();
//! ```
//!
//! What a call asks for and how it ends is stated in the contracts of
//! [`methods::APIMethod`] and proved; see [`api::methods::laws`] for what
//! follows for every call.

pub mod api;
pub mod errors;

pub use crate::api::methods;
pub use crate::api::settings::{AuthSettings, LoginSettings, Settings};
pub use crate::api::RocketChatAPI;
pub use crate::errors::Error;
