//! Reactive actions for a chat bot.
//!
//! An [`Action`] reacts to one inbound [`Message`] by queueing outbound sends
//! on a [`BotAPI`] handle. The transport that delivers those sends lives
//! outside this library: it takes each queued send in order, performs it, and
//! reports the outcome back, which the handle then discards.
pub mod action;
pub mod bot;
pub mod message_action;

pub use action::Action;
pub use bot::{BotAPI, Message, OutboundMessage, OutboundView, SendOutcome};
pub use message_action::{MessageAction, REPLY_FLAG};
