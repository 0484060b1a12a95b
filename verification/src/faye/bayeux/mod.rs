//! The Bayeux wire messages and the rules that read them.

use vstd::prelude::*;

pub mod advice;
pub mod message;
pub mod message_builder;

pub use crate::faye::bayeux::advice::{AdviceInterpreter, Decision, RetryPolicy, StopReason};
pub use crate::faye::bayeux::message::{
    Advice, ConnectionType, Message, MessageType, ReconnectType, TransportAdvice,
};
pub use crate::faye::bayeux::message_builder::MessageBuilder;

verus! {

/// The protocol version that every handshake announces.
pub const VERSION: &'static str = "1.0";

/// Every protocol control channel starts with this prefix.
pub const META_PREFIX: &'static str = "/meta/";

pub const HANDSHAKE_CHANNEL: &'static str = "/meta/handshake";

pub const CONNECT_CHANNEL: &'static str = "/meta/connect";

pub const DISCONNECT_CHANNEL: &'static str = "/meta/disconnect";

pub const SUBSCRIBE_CHANNEL: &'static str = "/meta/subscribe";

pub const UNSUBSCRIBE_CHANNEL: &'static str = "/meta/unsubscribe";

} // verus!
