//! The client: a session, the handler that sees its messages, and the
//! extension data that goes out with every request.

use crate::faye::bayeux::advice::RetryPolicy;
use crate::faye::bayeux::message::{extensions_view, MessageView};
use crate::faye::message_handler::MessageHandler;
use crate::faye::session::{
    listed, Action, Event, ExtensionsView, SessionState, SessionView,
};
use serde_json::Value;
use std::collections::HashMap;
use vstd::prelude::*;

verus! {

/// A Bayeux client that leaves the transport to its caller. Each of
/// `connect`, `disconnect`, `subscribe`, `unsubscribe` and `publish` starts an
/// operation and answers with the first [`Action`]. The caller performs the
/// action and passes what came of it to `handle`, which answers with the
/// next one, until an action ends the operation.
pub struct FayeClient<H> where H: MessageHandler {
    state: SessionState,
    handler: H,
    extensions: Option<HashMap<String, Value>>,
    delivered: Ghost<Seq<MessageView>>,
}

impl<H> FayeClient<H> where H: MessageHandler {
    /// The session of this client.
    pub closed spec fn session(&self) -> SessionView {
        self.state@
    }

    /// The extension data of this client.
    pub closed spec fn extensions(&self) -> ExtensionsView {
        extensions_view(self.extensions)
    }

    /// The messages that this client has handed to its handler so far, in
    /// that order.
    pub closed spec fn delivered(&self) -> Seq<MessageView> {
        self.delivered@
    }

    /// A client that has not connected yet.
    pub fn new(handler: H, extensions: Option<HashMap<String, Value>>) -> (client: FayeClient<H>)
        ensures
            client.session() == SessionView::fresh(RetryPolicy::standard()),
            client.extensions() == extensions_view(extensions),
            client.delivered() == Seq::<MessageView>::empty(),
            client.session().wf(),
    {
        FayeClient {
            state: SessionState::new(),
            handler: handler,
            extensions: extensions,
            delivered: Ghost(Seq::empty()),
        }
    }

    /// A client that has not connected yet, with a retry policy of its own.
    pub fn with_policy(
        handler: H,
        extensions: Option<HashMap<String, Value>>,
        policy: RetryPolicy,
    ) -> (client: FayeClient<H>)
        ensures
            client.session() == SessionView::fresh(policy),
            client.extensions() == extensions_view(extensions),
            client.delivered() == Seq::<MessageView>::empty(),
            client.session().wf(),
    {
        FayeClient {
            state: SessionState::with_policy(policy),
            handler: handler,
            extensions: extensions,
            delivered: Ghost(Seq::empty()),
        }
    }

    /// Connect to the Bayeux server at the address `url`
    pub fn connect(&mut self, url: String) -> (action: Action)
        ensures
            old(self).session().begin_connect(url@).next == final(self).session(),
            old(self).session().begin_connect(url@).action == action@,
            final(self).extensions() == old(self).extensions(),
            final(self).delivered() == old(self).delivered(),
            old(self).session().wf() ==> final(self).session().wf(),
    {
        self.state.begin_connect(url)
    }

    /// Disconnect from Bayeux server
    pub fn disconnect(&mut self) -> (action: Action)
        ensures
            old(self).session().begin_disconnect(old(self).extensions()).next
                == final(self).session(),
            old(self).session().begin_disconnect(old(self).extensions()).action == action@,
            final(self).extensions() == old(self).extensions(),
            final(self).delivered() == old(self).delivered(),
            old(self).session().wf() ==> final(self).session().wf(),
    {
        self.state.begin_disconnect(&self.extensions)
    }

    /// Subscribe to channels
    pub fn subscribe(&mut self, subscriptions: &Vec<String>) -> (action: Action)
        ensures
            old(self).session().begin_subscribe(
                subscriptions.deep_view(),
                old(self).extensions(),
            ).next == final(self).session(),
            old(self).session().begin_subscribe(
                subscriptions.deep_view(),
                old(self).extensions(),
            ).action == action@,
            final(self).extensions() == old(self).extensions(),
            final(self).delivered() == old(self).delivered(),
            old(self).session().wf() ==> final(self).session().wf(),
    {
        self.state.begin_subscribe(subscriptions, &self.extensions)
    }

    /// Unsubscribe from channels
    pub fn unsubscribe(&mut self, subscriptions: &Vec<String>) -> (action: Action)
        ensures
            old(self).session().begin_unsubscribe(
                subscriptions.deep_view(),
                old(self).extensions(),
            ).next == final(self).session(),
            old(self).session().begin_unsubscribe(
                subscriptions.deep_view(),
                old(self).extensions(),
            ).action == action@,
            final(self).extensions() == old(self).extensions(),
            final(self).delivered() == old(self).delivered(),
            old(self).session().wf() ==> final(self).session().wf(),
    {
        self.state.begin_unsubscribe(subscriptions, &self.extensions)
    }

    /// Publish `data` on `channel`
    pub fn publish(&mut self, channel: String, data: Value) -> (action: Action)
        ensures
            old(self).session().begin_publish(channel@, data, old(self).extensions()).next
                == final(self).session(),
            old(self).session().begin_publish(channel@, data, old(self).extensions()).action
                == action@,
            final(self).extensions() == old(self).extensions(),
            final(self).delivered() == old(self).delivered(),
            old(self).session().wf() ==> final(self).session().wf(),
    {
        self.state.begin_publish(channel, data, &self.extensions)
    }

    /// Takes in what came of the last action. A response that the engine
    /// marks for delivery goes through the handler's `process_message`
    /// before this function returns the next action, and is then the last
    /// of the messages delivered.
    pub fn handle(&mut self, event: Event) -> (action: Action)
        ensures
            old(self).session().advance(event@, old(self).extensions()).next
                == final(self).session(),
            old(self).session().advance(event@, old(self).extensions()).action == action@,
            final(self).extensions() == old(self).extensions(),
            final(self).delivered() == old(self).delivered() + listed(
                old(self).session().advance(event@, old(self).extensions()).deliver,
            ),
            old(self).session().wf() ==> final(self).session().wf(),
    {
        let step = self.state.advance(event, &self.extensions);
        match &step.deliver {
            Some(msg) => {
                self.handler.process_message(msg);
                self.delivered = Ghost(self.delivered@.push(msg@));
            },
            None => {},
        }
        assert(self.delivered@ =~= old(self).delivered@ + listed(step.deliver.deep_view()));
        step.action
    }

    /// Returns true if connection was established, or false
    pub fn is_connected(&self) -> (r: bool)
        ensures
            r == self.session().is_connected(),
    {
        self.state.is_connected()
    }

    /// Returns true while a transport is open for a session that is
    /// established or being set up, other way returns false
    pub fn is_opened(&self) -> (r: bool)
        ensures
            r == self.session().is_opened(),
    {
        self.state.is_opened()
    }

    /// The session of this client.
    pub fn state(&self) -> (r: &SessionState)
        ensures
            r@ == self.session(),
    {
        &self.state
    }

    /// The handler of this client.
    pub fn handler(&self) -> (r: &H)
        ensures
            *r == self.handler_of(),
    {
        &self.handler
    }

    /// The handler of this client.
    pub closed spec fn handler_of(&self) -> H {
        self.handler
    }
}

} // verus!
