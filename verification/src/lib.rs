//! Typed request core for a bot messaging platform's HTTP API.
//!
//! A request is described by a value type (its endpoint name and wire
//! parameters), handed to a transport adapter, and the raw reply envelope is
//! interpreted into either a typed result or a structured, classified error.


pub mod action;
pub mod chat;
pub mod dispatch;
pub mod error;
pub mod request;
pub mod wire;

pub use action::ChatAction;
pub use chat::{Chat, ChatId, ChatIdModel, ToChatId};
pub use dispatch::{complete, prepare, send, Envelope};
pub use error::{classify, contains_substr, DispatchError, TransportFailure};
pub use request::{CanSendChatAction, Request, SendChatAction};
pub use wire::{Params, WireValue};
