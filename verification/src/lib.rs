//! A framework for chat-response bots on an Urbit ship.
//!
//! A bot author supplies one function from an incoming [`AuthoredMessage`] to an
//! optional reply [`Message`]. The library filters the ship's graph-store updates
//! down to one chat, leaves out the bot's own posts, calls the function, and
//! decides what the polling loop does next.

pub mod batch;
pub mod bot_loop;
pub mod chatbot;
pub mod frame;
pub mod message;
pub mod updates;

pub use bot_loop::{Action, Event, LoopState};
pub use batch::{collect_replies, Outcome, Skip};
pub use chatbot::Chatbot;
pub use message::AuthoredMessage;
pub use urbit_http_api::Message;
