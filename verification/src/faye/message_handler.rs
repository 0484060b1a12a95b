//! The callbacks through which a client's owner sees the messages of the
//! server, and the rule that picks the callback for a message.

use crate::faye::bayeux::message::{Message, MessageType, MessageView};
use vstd::prelude::*;

verus! {

/// The callbacks of a [`MessageHandler`].
#[derive(Debug, Clone, Copy, PartialEq, Eq, Structural)]
pub enum HandlerCall {
    OnHandshake,
    OnConnect,
    OnDisconnect,
    OnSubscribe,
    OnUnsubscribe,
    OnMessage,
    OnError,
}

impl MessageView {
    /// The callback that a message goes to. A message on an application
    /// channel is a delivery. A control message goes to the callback of its
    /// operation, but to `OnError` if its channel names no known operation
    /// or if it reports a failure.
    pub open spec fn handler_call(self) -> HandlerCall {
        if !self.is_meta() {
            HandlerCall::OnMessage
        } else if self.successful == Some(false) {
            HandlerCall::OnError
        } else {
            match self.message_type() {
                MessageType::Handshake => HandlerCall::OnHandshake,
                MessageType::Connect => HandlerCall::OnConnect,
                MessageType::Disconnect => HandlerCall::OnDisconnect,
                MessageType::Subscribe => HandlerCall::OnSubscribe,
                MessageType::Unsubscribe => HandlerCall::OnUnsubscribe,
                MessageType::Unknown => HandlerCall::OnError,
            }
        }
    }
}

/// Picks the callback for `msg`.
pub fn route(msg: &Message) -> (call: HandlerCall)
    ensures
        call == msg@.handler_call(),
{
    if !msg.is_meta() {
        return HandlerCall::OnMessage;
    }
    match msg.successful {
        Some(false) => {
            return HandlerCall::OnError;
        },
        _ => {},
    }
    match msg.get_type() {
        MessageType::Handshake => HandlerCall::OnHandshake,
        MessageType::Connect => HandlerCall::OnConnect,
        MessageType::Disconnect => HandlerCall::OnDisconnect,
        MessageType::Subscribe => HandlerCall::OnSubscribe,
        MessageType::Unsubscribe => HandlerCall::OnUnsubscribe,
        MessageType::Unknown => HandlerCall::OnError,
    }
}

/// What the owner of a client does with the messages of the server. Every
/// callback does nothing unless it is overridden.
pub trait MessageHandler {
    fn on_connect(&self, msg: &Message) {
    }

    fn on_disconnect(&self, msg: &Message) {
    }

    fn on_error(&self, msg: &Message) {
    }

    fn on_handshake(&self, msg: &Message) {
    }

    fn on_subscribe(&self, msg: &Message) {
    }

    fn on_unsubscribe(&self, msg: &Message) {
    }

    fn on_message(&self, msg: &Message) {
    }

    /// Hands `msg` to the one callback that [`route`] picks for it.
    fn process_message(&self, msg: &Message) {
        match route(msg) {
            HandlerCall::OnHandshake => self.on_handshake(msg),
            HandlerCall::OnConnect => self.on_connect(msg),
            HandlerCall::OnDisconnect => self.on_disconnect(msg),
            HandlerCall::OnSubscribe => self.on_subscribe(msg),
            HandlerCall::OnUnsubscribe => self.on_unsubscribe(msg),
            HandlerCall::OnMessage => self.on_message(msg),
            HandlerCall::OnError => self.on_error(msg),
        }
    }
}

/// The callbacks of an owner that only follows the life of the connection.
pub trait FayeHandler {
    fn on_connect(&self);

    fn on_disconnect(&self);

    fn on_message(&self);

    fn on_error(&self);
}

} // verus!
