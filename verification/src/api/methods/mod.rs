//! The endpoints of the server, each as a method, and what they share.

pub mod base;
pub mod channels;
pub mod chat;
pub mod laws;
pub mod payload;

pub use base::{APIMethod, AuthData, CallState, Transition};
pub use channels::ChannelCreateMethod;
pub use chat::PostMessageMethod;
pub use payload::{Payload, PayloadValue};
