//! The Bayeux message envelope and its classification.

use crate::faye::bayeux::{
    CONNECT_CHANNEL, DISCONNECT_CHANNEL, HANDSHAKE_CHANNEL, META_PREFIX, SUBSCRIBE_CHANNEL,
    UNSUBSCRIBE_CHANNEL,
};
use crate::text::{same_text, starts_with};
use crate::time::Timestamp;
use serde_json::Value;
use std::collections::HashMap;
use vstd::prelude::*;

verus! {

/// `serde_json::Value`, an arbitrary JSON document. The engine never looks
/// inside one: it only carries it from the caller to the wire and back.
#[verifier::external_type_specification]
#[verifier::external_body]
pub struct ExJsonValue(serde_json::Value);

/// `<serde_json::Value as Clone>::clone`: the derived clone, which rebuilds
/// the same document node by node, so the copy equals the document it was
/// made from.
pub assume_specification[ <serde_json::Value as Clone>::clone ](v: &serde_json::Value) -> (r:
    serde_json::Value)
    ensures
        r == *v,
;

/// Type of transport the client requires for communication.
#[derive(Debug, Clone, Copy, PartialEq, Eq, Structural)]
pub enum ConnectionType {
    LongPolling,
    CallbackPolling,
    Iframe,
    Flash,
    Websocket,
}

impl DeepView for ConnectionType {
    type V = ConnectionType;

    open spec fn deep_view(&self) -> ConnectionType {
        *self
    }
}

/// The reconnect advice field indicates how the client should act in the
/// case of a failure to connect.
#[derive(Debug, Clone, Copy, PartialEq, Eq, Structural)]
pub enum ReconnectType {
    /// The client may attempt to reconnect with a `/meta/connect` message
    /// after the interval, and with the same credentials.
    Retry,
    /// The server has terminated any prior connection status and the client
    /// must reconnect with a `/meta/handshake` message; it must not retry
    /// the connect by itself.
    Handshake,
    /// A hard failure for the connect attempt (`none` on the wire): the
    /// client must neither retry nor handshake by itself.
    Never,
}

/// Advice that applies to one named transport only.
#[derive(Debug, Clone, Copy, PartialEq, Eq)]
pub struct TransportAdvice {
    pub reconnect: Option<ReconnectType>,
    /// Milliseconds for which the server holds a `/meta/connect` request.
    pub timeout: Option<u32>,
    /// Minimum milliseconds between `/meta/connect` requests; a negative
    /// value means that the request should not be retried.
    pub interval: Option<i32>,
}

/// Operating parameters that one side states for the other.
#[derive(Debug, PartialEq, Eq)]
pub struct Advice {
    pub reconnect: Option<ReconnectType>,
    /// Milliseconds for which the server holds a `/meta/connect` request.
    pub timeout: Option<u32>,
    /// Minimum milliseconds between `/meta/connect` requests; a negative
    /// value means that the request should not be retried.
    pub interval: Option<i32>,
    /// Set when the server has seen several clients in one web client.
    pub multiple_clients: Option<bool>,
    /// Alternate servers that the client may connect to.
    pub hosts: Option<Vec<String>>,
    pub callback_polling: Option<TransportAdvice>,
    pub long_polling: Option<TransportAdvice>,
    pub websocket: Option<TransportAdvice>,
    pub flash: Option<TransportAdvice>,
    pub iframe: Option<TransportAdvice>,
}

/// What an [`Advice`] holds, with its host names as sequences of characters.
pub struct AdviceView {
    pub reconnect: Option<ReconnectType>,
    pub timeout: Option<u32>,
    pub interval: Option<i32>,
    pub multiple_clients: Option<bool>,
    pub hosts: Option<Seq<Seq<char>>>,
    pub callback_polling: Option<TransportAdvice>,
    pub long_polling: Option<TransportAdvice>,
    pub websocket: Option<TransportAdvice>,
    pub flash: Option<TransportAdvice>,
    pub iframe: Option<TransportAdvice>,
}

impl AdviceView {
    /// The advice that says nothing.
    pub open spec fn blank() -> AdviceView {
        AdviceView {
            reconnect: None,
            timeout: None,
            interval: None,
            multiple_clients: None,
            hosts: None,
            callback_polling: None,
            long_polling: None,
            websocket: None,
            flash: None,
            iframe: None,
        }
    }
}

impl View for Advice {
    type V = AdviceView;

    open spec fn view(&self) -> AdviceView {
        AdviceView {
            reconnect: self.reconnect,
            timeout: self.timeout,
            interval: self.interval,
            multiple_clients: self.multiple_clients,
            hosts: self.hosts.deep_view(),
            callback_polling: self.callback_polling,
            long_polling: self.long_polling,
            websocket: self.websocket,
            flash: self.flash,
            iframe: self.iframe,
        }
    }
}

impl DeepView for Advice {
    type V = AdviceView;

    open spec fn deep_view(&self) -> AdviceView {
        self@
    }
}

impl Default for Advice {
    fn default() -> (r: Advice)
        ensures
            r@ == AdviceView::blank(),
    {
        Advice {
            reconnect: None,
            timeout: None,
            interval: None,
            multiple_clients: None,
            hosts: None,
            callback_polling: None,
            long_polling: None,
            websocket: None,
            flash: None,
            iframe: None,
        }
    }
}

impl Clone for Advice {
    fn clone(&self) -> (r: Advice)
        ensures
            r@ == self@,
    {
        Advice {
            reconnect: self.reconnect,
            timeout: self.timeout,
            interval: self.interval,
            multiple_clients: self.multiple_clients,
            hosts: clone_texts(&self.hosts),
            callback_polling: self.callback_polling,
            long_polling: self.long_polling,
            websocket: self.websocket,
            flash: self.flash,
            iframe: self.iframe,
        }
    }
}

/// A copy of an optional list of strings.
pub fn clone_texts(texts: &Option<Vec<String>>) -> (r: Option<Vec<String>>)
    ensures
        r.deep_view() == texts.deep_view(),
{
    match texts {
        Some(list) => {
            let copy = list.clone();
            assert(copy.deep_view() =~= list.deep_view());
            Some(copy)
        },
        None => None,
    }
}

/// A copy of an optional string.
pub fn clone_text(text: &Option<String>) -> (r: Option<String>)
    ensures
        r.deep_view() == text.deep_view(),
{
    match text {
        Some(s) => Some(s.clone()),
        None => None,
    }
}

/// The protocol operation that a message belongs to, by its channel.
#[derive(Debug, Clone, Copy, PartialEq, Eq, Structural)]
pub enum MessageType {
    Handshake,
    Connect,
    Disconnect,
    Subscribe,
    Unsubscribe,
    Unknown,
}

/// Bayeux message
#[derive(Debug, PartialEq)]
pub struct Message {
    /// The source or destination of the message: in a request the
    /// destination, in a response the source.
    pub channel: String,
    /// The protocol version, on messages to and from `/meta/handshake`.
    pub version: Option<String>,
    /// The oldest protocol version that the sender can handle.
    pub minimum_version: Option<String>,
    /// The transports that the sender supports, in order of preference.
    pub supported_connection_types: Option<Vec<ConnectionType>>,
    /// Identifies the client to the server. On every request but the
    /// handshake; never passed on to other clients.
    pub client_id: Option<String>,
    pub advice: Option<Advice>,
    /// The transport of a `/meta/connect` request.
    pub connection_type: Option<ConnectionType>,
    /// Correlation id, echoed by the server on its responses.
    pub id: Option<String>,
    pub timestamp: Option<Timestamp>,
    /// The event information of a publish or a delivery.
    pub data: Option<Value>,
    /// Set on responses: whether the request succeeded.
    pub successful: Option<bool>,
    pub auth_successful: Option<bool>,
    /// The channels to subscribe to or unsubscribe from.
    pub subscriptions: Option<Vec<String>>,
    /// Why a request failed.
    pub error: Option<String>,
    /// Extension data by implementation name, passed through untouched.
    pub extensions: Option<HashMap<String, Value>>,
}

/// What a [`Message`] holds, with strings as sequences of characters and the
/// extensions as a map.
pub struct MessageView {
    pub channel: Seq<char>,
    pub version: Option<Seq<char>>,
    pub minimum_version: Option<Seq<char>>,
    pub supported_connection_types: Option<Seq<ConnectionType>>,
    pub client_id: Option<Seq<char>>,
    pub advice: Option<AdviceView>,
    pub connection_type: Option<ConnectionType>,
    pub id: Option<Seq<char>>,
    pub timestamp: Option<Timestamp>,
    pub data: Option<Value>,
    pub successful: Option<bool>,
    pub auth_successful: Option<bool>,
    pub subscriptions: Option<Seq<Seq<char>>>,
    pub error: Option<Seq<char>>,
    pub extensions: Option<Map<String, Value>>,
}

/// What an optional extension table holds.
pub open spec fn extensions_view(extensions: Option<HashMap<String, Value>>) -> Option<
    Map<String, Value>,
> {
    match extensions {
        Some(table) => Some(table@),
        None => None,
    }
}

/// A copy of an optional extension table.
pub fn clone_extensions(extensions: &Option<HashMap<String, Value>>) -> (r: Option<
    HashMap<String, Value>,
>)
    ensures
        extensions_view(r) == extensions_view(*extensions),
{
    match extensions {
        Some(table) => Some(table.clone()),
        None => None,
    }
}

impl MessageView {
    /// The message on `channel` with every optional field absent.
    pub open spec fn blank(channel: Seq<char>) -> MessageView {
        MessageView {
            channel,
            version: None,
            minimum_version: None,
            supported_connection_types: None,
            client_id: None,
            advice: None,
            connection_type: None,
            id: None,
            timestamp: None,
            data: None,
            successful: None,
            auth_successful: None,
            subscriptions: None,
            error: None,
            extensions: None,
        }
    }

    /// True iff the channel is a protocol control channel.
    pub open spec fn is_meta(self) -> bool {
        META_PREFIX@.is_prefix_of(self.channel)
    }

    /// The protocol operation named by the channel.
    pub open spec fn message_type(self) -> MessageType {
        channel_type(self.channel)
    }

    /// The response reports success.
    pub open spec fn is_successful(self) -> bool {
        self.successful == Some(true)
    }

    /// The error text, empty where there is none.
    pub open spec fn error_text(self) -> Seq<char> {
        match self.error {
            Some(text) => text,
            None => Seq::empty(),
        }
    }
}

/// The protocol operation named by a channel: the five control channels
/// by exact match, and `Unknown` for every other channel.
pub open spec fn channel_type(channel: Seq<char>) -> MessageType {
    if channel == HANDSHAKE_CHANNEL@ {
        MessageType::Handshake
    } else if channel == CONNECT_CHANNEL@ {
        MessageType::Connect
    } else if channel == DISCONNECT_CHANNEL@ {
        MessageType::Disconnect
    } else if channel == SUBSCRIBE_CHANNEL@ {
        MessageType::Subscribe
    } else if channel == UNSUBSCRIBE_CHANNEL@ {
        MessageType::Unsubscribe
    } else {
        MessageType::Unknown
    }
}

/// Every channel that names a protocol operation is a control channel.
pub proof fn lemma_typed_channels_are_meta(channel: Seq<char>)
    requires
        channel_type(channel) != MessageType::Unknown,
    ensures
        META_PREFIX@.is_prefix_of(channel),
{
    reveal_strlit("/meta/");
    reveal_strlit("/meta/handshake");
    reveal_strlit("/meta/connect");
    reveal_strlit("/meta/disconnect");
    reveal_strlit("/meta/subscribe");
    reveal_strlit("/meta/unsubscribe");
    assert(channel.subrange(0, 6) =~= META_PREFIX@);
}

impl View for Message {
    type V = MessageView;

    open spec fn view(&self) -> MessageView {
        MessageView {
            channel: self.channel@,
            version: self.version.deep_view(),
            minimum_version: self.minimum_version.deep_view(),
            supported_connection_types: self.supported_connection_types.deep_view(),
            client_id: self.client_id.deep_view(),
            advice: self.advice.deep_view(),
            connection_type: self.connection_type,
            id: self.id.deep_view(),
            timestamp: self.timestamp,
            data: self.data,
            successful: self.successful,
            auth_successful: self.auth_successful,
            subscriptions: self.subscriptions.deep_view(),
            error: self.error.deep_view(),
            extensions: extensions_view(self.extensions),
        }
    }
}

impl DeepView for Message {
    type V = MessageView;

    open spec fn deep_view(&self) -> MessageView {
        self@
    }
}

impl Default for Message {
    fn default() -> (r: Message)
        ensures
            r@ == MessageView::blank(Seq::empty()),
    {
        Message {
            channel: String::new(),
            version: None,
            minimum_version: None,
            supported_connection_types: None,
            client_id: None,
            advice: None,
            connection_type: None,
            id: None,
            timestamp: None,
            data: None,
            successful: None,
            auth_successful: None,
            subscriptions: None,
            error: None,
            extensions: None,
        }
    }
}

impl Clone for Message {
    fn clone(&self) -> (r: Message)
        ensures
            r@ == self@,
    {
        let supported_connection_types = match &self.supported_connection_types {
            Some(list) => {
                let copy = list.clone();
                assert(copy.deep_view() =~= list.deep_view());
                Some(copy)
            },
            None => None,
        };
        let advice = match &self.advice {
            Some(a) => Some(a.clone()),
            None => None,
        };
        let data = match &self.data {
            Some(d) => Some(d.clone()),
            None => None,
        };
        Message {
            channel: self.channel.clone(),
            version: clone_text(&self.version),
            minimum_version: clone_text(&self.minimum_version),
            supported_connection_types,
            client_id: clone_text(&self.client_id),
            advice,
            connection_type: self.connection_type,
            id: clone_text(&self.id),
            timestamp: self.timestamp,
            data,
            successful: self.successful,
            auth_successful: self.auth_successful,
            subscriptions: clone_texts(&self.subscriptions),
            error: clone_text(&self.error),
            extensions: clone_extensions(&self.extensions),
        }
    }
}

impl Message {
    /// True iff the channel starts with `/meta/`.
    pub fn is_meta(&self) -> (r: bool)
        ensures
            r == self@.is_meta(),
    {
        starts_with(self.channel.as_str(), META_PREFIX)
    }

    /// The protocol operation named by the channel.
    pub fn get_type(&self) -> (r: MessageType)
        ensures
            r == self@.message_type(),
    {
        let channel = self.channel.as_str();
        if same_text(channel, HANDSHAKE_CHANNEL) {
            MessageType::Handshake
        } else if same_text(channel, CONNECT_CHANNEL) {
            MessageType::Connect
        } else if same_text(channel, DISCONNECT_CHANNEL) {
            MessageType::Disconnect
        } else if same_text(channel, SUBSCRIBE_CHANNEL) {
            MessageType::Subscribe
        } else if same_text(channel, UNSUBSCRIBE_CHANNEL) {
            MessageType::Unsubscribe
        } else {
            MessageType::Unknown
        }
    }

    pub fn is_handshake(&self) -> (r: bool)
        ensures
            r == (self@.message_type() == MessageType::Handshake),
    {
        self.get_type() == MessageType::Handshake
    }

    pub fn is_connect(&self) -> (r: bool)
        ensures
            r == (self@.message_type() == MessageType::Connect),
    {
        self.get_type() == MessageType::Connect
    }

    pub fn is_disconnect(&self) -> (r: bool)
        ensures
            r == (self@.message_type() == MessageType::Disconnect),
    {
        self.get_type() == MessageType::Disconnect
    }

    pub fn is_subscribe(&self) -> (r: bool)
        ensures
            r == (self@.message_type() == MessageType::Subscribe),
    {
        self.get_type() == MessageType::Subscribe
    }

    pub fn is_unsubscribe(&self) -> (r: bool)
        ensures
            r == (self@.message_type() == MessageType::Unsubscribe),
    {
        self.get_type() == MessageType::Unsubscribe
    }

    /// Whether the response reports success; a response without the field
    /// does not.
    pub fn is_successful(&self) -> (r: bool)
        ensures
            r == self@.is_successful(),
    {
        match self.successful {
            Some(flag) => flag,
            None => false,
        }
    }

    /// The error text of a response, empty where it carries none.
    pub fn get_error(&self) -> (r: String)
        ensures
            r@ == self@.error_text(),
    {
        match &self.error {
            Some(text) => text.clone(),
            None => String::new(),
        }
    }
}

} // verus!
