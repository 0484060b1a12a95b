//! The Bayeux (Faye) client: wire messages and the session engine.

pub mod bayeux;
pub mod client;
pub mod error;
pub mod laws;
pub mod message_handler;
pub mod session;

pub use crate::faye::client::FayeClient;
pub use crate::faye::error::{FayeError, TransportFailure};
pub use crate::faye::message_handler::{FayeHandler, HandlerCall, MessageHandler};
pub use crate::faye::session::{Action, Event, Phase, SessionState, Stage, Step};
