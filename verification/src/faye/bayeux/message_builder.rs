//! The canonical request messages, one constructor for each operation.

use crate::faye::bayeux::message::{
    clone_extensions, extensions_view, lemma_typed_channels_are_meta, ConnectionType, Message,
    MessageType, MessageView,
};
use crate::faye::bayeux::{
    CONNECT_CHANNEL, DISCONNECT_CHANNEL, HANDSHAKE_CHANNEL, META_PREFIX, SUBSCRIBE_CHANNEL,
    UNSUBSCRIBE_CHANNEL, VERSION,
};
use serde_json::Value;
use std::collections::HashMap;
use vstd::prelude::*;

verus! {

/// Bayeux messages builder
pub struct MessageBuilder;

impl MessageBuilder {
    /// The HANDSHAKE request.
    pub open spec fn handshake(
        connection_types: Seq<ConnectionType>,
        extensions: Option<Map<String, Value>>,
    ) -> MessageView {
        MessageView {
            version: Some(VERSION@),
            supported_connection_types: Some(connection_types),
            extensions,
            ..MessageView::blank(HANDSHAKE_CHANNEL@)
        }
    }

    /// The CONNECT request.
    pub open spec fn connect(
        client_id: Seq<char>,
        connection_type: ConnectionType,
        extensions: Option<Map<String, Value>>,
    ) -> MessageView {
        MessageView {
            client_id: Some(client_id),
            connection_type: Some(connection_type),
            extensions,
            ..MessageView::blank(CONNECT_CHANNEL@)
        }
    }

    /// The DISCONNECT request.
    pub open spec fn disconnect(
        client_id: Seq<char>,
        extensions: Option<Map<String, Value>>,
    ) -> MessageView {
        MessageView {
            client_id: Some(client_id),
            extensions,
            ..MessageView::blank(DISCONNECT_CHANNEL@)
        }
    }

    /// The SUBSCRIBE request.
    pub open spec fn subscribe(
        client_id: Seq<char>,
        subscription: Seq<Seq<char>>,
        extensions: Option<Map<String, Value>>,
    ) -> MessageView {
        MessageView {
            client_id: Some(client_id),
            subscriptions: Some(subscription),
            extensions,
            ..MessageView::blank(SUBSCRIBE_CHANNEL@)
        }
    }

    /// The UNSUBSCRIBE request.
    pub open spec fn unsubscribe(
        client_id: Seq<char>,
        subscription: Seq<Seq<char>>,
        extensions: Option<Map<String, Value>>,
    ) -> MessageView {
        MessageView {
            client_id: Some(client_id),
            subscriptions: Some(subscription),
            extensions,
            ..MessageView::blank(UNSUBSCRIBE_CHANNEL@)
        }
    }

    /// The PUBLISH request.
    pub open spec fn publish(
        client_id: Seq<char>,
        channel: Seq<char>,
        data: Value,
        extensions: Option<Map<String, Value>>,
    ) -> MessageView {
        MessageView {
            client_id: Some(client_id),
            data: Some(data),
            extensions,
            ..MessageView::blank(channel)
        }
    }

    /// The event delivery from server to client.
    pub open spec fn delivery(
        channel: Seq<char>,
        data: Value,
        extensions: Option<Map<String, Value>>,
    ) -> MessageView {
        MessageView { data: Some(data), extensions, ..MessageView::blank(channel) }
    }

    /// Create HANDSHAKE message
    pub fn create_handshake(
        connection_types: Vec<ConnectionType>,
        extensions: &Option<HashMap<String, Value>>,
    ) -> (msg: Message)
        ensures
            msg@ == Self::handshake(connection_types@, extensions_view(*extensions)),
    {
        assert(connection_types.deep_view() =~= connection_types@);
        Message {
            channel: HANDSHAKE_CHANNEL.to_owned(),
            version: Some(VERSION.to_owned()),
            supported_connection_types: Some(connection_types),
            extensions: clone_extensions(extensions),
            ..Message::default()
        }
    }

    /// Create CONNECT message
    pub fn create_connect(
        client_id: String,
        connection_type: ConnectionType,
        extensions: &Option<HashMap<String, Value>>,
    ) -> (msg: Message)
        ensures
            msg@ == Self::connect(client_id@, connection_type, extensions_view(*extensions)),
    {
        Message {
            channel: CONNECT_CHANNEL.to_owned(),
            client_id: Some(client_id),
            connection_type: Some(connection_type),
            extensions: clone_extensions(extensions),
            ..Message::default()
        }
    }

    /// Create DISCONNECT message
    pub fn create_disconnect(
        client_id: String,
        extensions: &Option<HashMap<String, Value>>,
    ) -> (msg: Message)
        ensures
            msg@ == Self::disconnect(client_id@, extensions_view(*extensions)),
    {
        Message {
            channel: DISCONNECT_CHANNEL.to_owned(),
            client_id: Some(client_id),
            extensions: clone_extensions(extensions),
            ..Message::default()
        }
    }

    /// Create SUBSCRIBE message
    pub fn create_subscribe(
        client_id: String,
        subscription: &Vec<String>,
        extensions: &Option<HashMap<String, Value>>,
    ) -> (msg: Message)
        ensures
            msg@ == Self::subscribe(
                client_id@,
                subscription.deep_view(),
                extensions_view(*extensions),
            ),
    {
        let channels = subscription.clone();
        assert(channels.deep_view() =~= subscription.deep_view());
        Message {
            channel: SUBSCRIBE_CHANNEL.to_owned(),
            client_id: Some(client_id),
            subscriptions: Some(channels),
            extensions: clone_extensions(extensions),
            ..Message::default()
        }
    }

    /// Create UNSUBSCRIBE message
    pub fn create_unsubscribe(
        client_id: String,
        subscription: &Vec<String>,
        extensions: &Option<HashMap<String, Value>>,
    ) -> (msg: Message)
        ensures
            msg@ == Self::unsubscribe(
                client_id@,
                subscription.deep_view(),
                extensions_view(*extensions),
            ),
    {
        let channels = subscription.clone();
        assert(channels.deep_view() =~= subscription.deep_view());
        Message {
            channel: UNSUBSCRIBE_CHANNEL.to_owned(),
            client_id: Some(client_id),
            subscriptions: Some(channels),
            extensions: clone_extensions(extensions),
            ..Message::default()
        }
    }

    /// Create PUBLISH message
    pub fn create_publish(
        client_id: String,
        channel: String,
        data: Value,
        extensions: &Option<HashMap<String, Value>>,
    ) -> (msg: Message)
        ensures
            msg@ == Self::publish(client_id@, channel@, data, extensions_view(*extensions)),
    {
        Message {
            channel: channel,
            client_id: Some(client_id),
            data: Some(data),
            extensions: clone_extensions(extensions),
            ..Message::default()
        }
    }

    /// Create DELIVERY message
    pub fn create_delivery(
        channel: String,
        data: Value,
        extensions: &Option<HashMap<String, Value>>,
    ) -> (msg: Message)
        ensures
            msg@ == Self::delivery(channel@, data, extensions_view(*extensions)),
    {
        Message {
            channel: channel,
            data: Some(data),
            extensions: clone_extensions(extensions),
            ..Message::default()
        }
    }
}

/// Each request of a protocol operation is a control message of that
/// operation, and none of them but the handshake goes without the client's
/// name.
pub proof fn lemma_requests_are_typed(
    client_id: Seq<char>,
    connection_types: Seq<ConnectionType>,
    connection_type: ConnectionType,
    subscription: Seq<Seq<char>>,
    extensions: Option<Map<String, Value>>,
)
    ensures
        MessageBuilder::handshake(connection_types, extensions).message_type()
            == MessageType::Handshake,
        MessageBuilder::handshake(connection_types, extensions).is_meta(),
        MessageBuilder::handshake(connection_types, extensions).client_id is None,
        MessageBuilder::connect(client_id, connection_type, extensions).message_type()
            == MessageType::Connect,
        MessageBuilder::connect(client_id, connection_type, extensions).is_meta(),
        MessageBuilder::disconnect(client_id, extensions).message_type()
            == MessageType::Disconnect,
        MessageBuilder::disconnect(client_id, extensions).is_meta(),
        MessageBuilder::subscribe(client_id, subscription, extensions).message_type()
            == MessageType::Subscribe,
        MessageBuilder::subscribe(client_id, subscription, extensions).is_meta(),
        MessageBuilder::unsubscribe(client_id, subscription, extensions).message_type()
            == MessageType::Unsubscribe,
        MessageBuilder::unsubscribe(client_id, subscription, extensions).is_meta(),
{
    reveal_strlit("/meta/handshake");
    reveal_strlit("/meta/connect");
    reveal_strlit("/meta/disconnect");
    reveal_strlit("/meta/subscribe");
    reveal_strlit("/meta/unsubscribe");
    assert(SUBSCRIBE_CHANNEL@[6] != HANDSHAKE_CHANNEL@[6]);
    lemma_typed_channels_are_meta(HANDSHAKE_CHANNEL@);
    lemma_typed_channels_are_meta(CONNECT_CHANNEL@);
    lemma_typed_channels_are_meta(DISCONNECT_CHANNEL@);
    lemma_typed_channels_are_meta(SUBSCRIBE_CHANNEL@);
    lemma_typed_channels_are_meta(UNSUBSCRIBE_CHANNEL@);
}

/// A publish or a delivery is an application message exactly if its channel
/// is no control channel, whatever else it carries.
pub proof fn lemma_publish_is_classified_by_channel(
    client_id: Seq<char>,
    channel: Seq<char>,
    data: Value,
    extensions: Option<Map<String, Value>>,
)
    ensures
        MessageBuilder::publish(client_id, channel, data, extensions).is_meta()
            == META_PREFIX@.is_prefix_of(channel),
        MessageBuilder::delivery(channel, data, extensions).is_meta()
            == META_PREFIX@.is_prefix_of(channel),
        MessageBuilder::publish(client_id, channel, data, extensions).data == Some(data),
        MessageBuilder::publish(client_id, channel, data, extensions).client_id == Some(
            client_id,
        ),
        MessageBuilder::delivery(channel, data, extensions).client_id is None,
{
}

} // verus!
