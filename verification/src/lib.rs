//! A scripted, multi-turn conversation driver for a chat-completion endpoint.
//!
//! The library owns the conversation state machine: it seeds a history with a
//! system message, appends each configured user prompt in order, builds the
//! request for each turn, and appends the first usable reply before the next
//! turn begins. The remote call itself, configuration loading, and logging are
//! left to the surrounding application; the library works on plain values and
//! is verified.

pub mod client;
pub mod error;
pub mod message;
pub mod orchestrator;

pub use client::Credentials;
pub use error::BotError;
pub use message::Message;
pub use message::MessageView;
pub use message::Role;
pub use orchestrator::ChatRequest;
pub use orchestrator::Conversation;
