//! What holds of the session engine over every run: the laws that its users
//! may rely on, each proved from the engine's model.

use crate::faye::bayeux::advice::RetryPolicy;
use crate::faye::bayeux::message::{MessageView, ReconnectType};
use crate::faye::bayeux::message_builder::MessageBuilder;
use crate::faye::bayeux::CONNECT_CHANNEL;
use crate::faye::error::FayeErrorView;
use crate::faye::session::{
    listed, ActionView, EventView, ExtensionsView, Outcome, SessionView, MISSING_CLIENT_ID,
    TRANSPORT,
};
use serde_json::Value;
use vstd::prelude::*;

verus! {

/// One thing that happens to a session: a call of its owner, or an event on
/// the transport.
pub enum Input {
    Connect(Seq<char>),
    Disconnect,
    Subscribe(Seq<Seq<char>>),
    Unsubscribe(Seq<Seq<char>>),
    Publish(Seq<char>, Value),
    Event(EventView),
}

/// What a run of the engine leaves behind: the session at its end, the
/// messages that were put on the wire, and the messages that the handler
/// saw, both in the order in which it happened.
pub struct Trace {
    pub end: SessionView,
    pub sent: Seq<MessageView>,
    pub delivered: Seq<MessageView>,
}

impl MessageView {
    /// A request on the connect channel that names its transport, as every
    /// CONNECT of the engine does.
    pub open spec fn is_connect_request(self) -> bool {
        self.channel == CONNECT_CHANNEL@ && self.connection_type is Some
    }
}

impl SessionView {
    /// What the engine does with one input.
    pub open spec fn take(self, input: Input, extensions: ExtensionsView) -> Outcome {
        match input {
            Input::Connect(url) => self.begin_connect(url),
            Input::Disconnect => self.begin_disconnect(extensions),
            Input::Subscribe(channels) => self.begin_subscribe(channels, extensions),
            Input::Unsubscribe(channels) => self.begin_unsubscribe(channels, extensions),
            Input::Publish(channel, data) => self.begin_publish(channel, data, extensions),
            Input::Event(event) => self.advance(event, extensions),
        }
    }

    /// What the engine does with a sequence of inputs, one after the other.
    pub open spec fn run(self, inputs: Seq<Input>, extensions: ExtensionsView) -> Trace
        decreases inputs.len(),
    {
        if inputs.len() == 0 {
            Trace { end: self, sent: Seq::empty(), delivered: Seq::empty() }
        } else {
            let first = self.take(inputs[0], extensions);
            let rest = first.next.run(inputs.subrange(1, inputs.len() as int), extensions);
            Trace {
                end: rest.end,
                sent: listed(first.action.sends()) + rest.sent,
                delivered: listed(first.deliver) + rest.delivered,
            }
        }
    }

    /// The client has no name, and the session waits for nothing that would
    /// be followed by a message other than a handshake.
    pub open spec fn before_handshake(self) -> bool {
        &&& self.client_id is None
        &&& (self.stage is Idle || self.stage is Failed || self.stage is Reopening
            || self.stage is Opening || self.stage is Disconnecting || self.stage is Closing)
    }
}

/// A client that has not connected yet has a well-formed session.
pub proof fn lemma_fresh_is_wf(policy: RetryPolicy)
    ensures
        SessionView::fresh(policy).wf(),
        !SessionView::fresh(policy).is_connected(),
        !SessionView::fresh(policy).is_opened(),
{
}

/// Whatever happens to a well-formed session leaves it well-formed.
pub proof fn lemma_step_keeps_wf(s: SessionView, input: Input, extensions: ExtensionsView)
    requires
        s.wf(),
    ensures
        s.take(input, extensions).next.wf(),
{
}

/// Every run from a well-formed session ends in a well-formed session.
pub proof fn lemma_run_keeps_wf(s: SessionView, inputs: Seq<Input>, extensions: ExtensionsView)
    requires
        s.wf(),
    ensures
        s.run(inputs, extensions).end.wf(),
    decreases inputs.len(),
{
    if inputs.len() > 0 {
        lemma_step_keeps_wf(s, inputs[0], extensions);
        lemma_run_keeps_wf(
            s.take(inputs[0], extensions).next,
            inputs.subrange(1, inputs.len() as int),
            extensions,
        );
    }
}

/// A session moves through its life only along these ways: from no session
/// to the handshake, from there to the connect, from there to the
/// established session; back to the handshake only from the connect; to the
/// end in an error from anywhere but no session; and to the caller's
/// disconnect from anywhere.
pub proof fn lemma_step_follows_the_phases(
    s: SessionView,
    input: Input,
    extensions: ExtensionsView,
)
    requires
        s.wf(),
    ensures
        s.stage.phase().may_become(s.take(input, extensions).next.stage.phase()),
{
}

/// The retry policy of a session never changes.
pub proof fn lemma_step_keeps_policy(s: SessionView, input: Input, extensions: ExtensionsView)
    ensures
        s.take(input, extensions).next.policy == s.policy,
{
}

/// The handshake is the only message that the engine sends without the
/// client's name. Every other message bears the name that the session has
/// when it is sent, and every message carries the client's extension data
/// as it stands.
pub proof fn lemma_requests_bear_the_name(s: SessionView, input: Input, extensions: ExtensionsView)
    requires
        s.take(input, extensions).action.sends() is Some,
    ensures
        ({
            let out = s.take(input, extensions);
            let msg = out.action.sends().unwrap();
            &&& msg.extensions == extensions
            &&& msg.client_id is None <==> msg == SessionView::handshake_request(extensions)
            &&& msg.client_id is Some ==> (if input is Disconnect {
                msg.client_id == s.client_id
            } else {
                msg.client_id == out.next.client_id
            })
        }),
{
}

/// A response to CONNECT that reports success establishes the session, and
/// the client's own delay and its count of failed attempts start afresh.
pub proof fn lemma_success_starts_afresh(s: SessionView, msg: MessageView, extensions: ExtensionsView)
    requires
        s.stage is Connecting,
        msg.is_successful(),
    ensures
        ({
            let out = s.advance(EventView::Response(msg), extensions);
            &&& out.next.stage is Connected
            &&& out.next.backoff_ms == s.policy.floor_ms
            &&& out.next.attempts == 0
            &&& out.next.client_id == s.client_id
            &&& out.action == ActionView::Finished(Ok(()))
            &&& out.deliver == Some(msg)
        }),
{
}

/// A failed connect attempt is followed by another try, be it after a wait
/// or through a new handshake, only while the policy has attempts left: each
/// such failure is counted, and the count stays below the policy's limit.
pub proof fn lemma_retries_are_counted(s: SessionView, event: EventView, extensions: ExtensionsView)
    requires
        s.stage is Connecting,
        s.advance(event, extensions).next.stage is Backoff || s.advance(
            event,
            extensions,
        ).next.stage is Handshaking,
    ensures
        s.advance(event, extensions).next.attempts == s.attempts + 1,
        s.advance(event, extensions).next.attempts < s.policy.max_attempts,
{
}

/// A wait that the engine asks for after a failed connect attempt is the
/// interval that the advice states for the transport, or else the client's
/// own delay, which then grows for the next time as the policy says.
pub proof fn lemma_wait_is_interval_or_backoff(
    s: SessionView,
    event: EventView,
    extensions: ExtensionsView,
)
    requires
        s.stage is Connecting,
        s.advance(event, extensions).action is Wait,
    ensures
        ({
            let out = s.advance(event, extensions);
            let heard = match event {
                EventView::Response(msg) => s.heard(msg),
                _ => s,
            };
            match heard.advice.effective_interval(TRANSPORT) {
                Some(interval) => {
                    &&& interval >= 0
                    &&& out.action == ActionView::Wait(interval as u32)
                    &&& out.next.backoff_ms == s.backoff_ms
                },
                None => {
                    &&& out.action == ActionView::Wait(s.backoff_ms)
                    &&& out.next.backoff_ms == s.policy.next_delay(s.backoff_ms)
                },
            }
        }),
{
}

/// A handshake response that reports success but names no client fails the
/// handshake: the session is not established and the handler sees nothing.
pub proof fn lemma_handshake_without_client_id(
    s: SessionView,
    msg: MessageView,
    extensions: ExtensionsView,
)
    requires
        s.stage is Handshaking,
        msg.is_successful(),
        msg.client_id is None,
    ensures
        ({
            let out = s.advance(EventView::Response(msg), extensions);
            &&& out.action == ActionView::Finished(
                Err(FayeErrorView::HandshakeFailed(MISSING_CLIENT_ID@)),
            )
            &&& out.next.stage is Failed
            &&& !out.next.is_connected()
            &&& out.deliver is None
        }),
{
}

/// The handshake goes on to CONNECT exactly when the response reports
/// success and names the client; the client then bears that name. Every
/// other response ends the operation with `HandshakeFailed`.
pub proof fn lemma_handshake_response(s: SessionView, msg: MessageView, extensions: ExtensionsView)
    requires
        s.stage is Handshaking,
    ensures
        ({
            let out = s.advance(EventView::Response(msg), extensions);
            if msg.is_successful() && msg.client_id is Some {
                &&& out.next.stage is Connecting
                &&& out.next.client_id == msg.client_id
                &&& out.action == ActionView::Exchange(
                    MessageBuilder::connect(msg.client_id.unwrap(), TRANSPORT, extensions),
                )
                &&& out.deliver == Some(msg)
            } else {
                &&& out.next.stage is Failed
                &&& out.action matches ActionView::Finished(
                    Err(FayeErrorView::HandshakeFailed(_)),
                )
                &&& out.deliver is None
            }
        }),
{
}

/// A session becomes established in one way only: by a response to CONNECT
/// that reports success.
pub proof fn lemma_established_by_connect_only(
    s: SessionView,
    input: Input,
    extensions: ExtensionsView,
)
    requires
        !s.stage.established(),
        s.take(input, extensions).next.stage.established(),
    ensures
        s.stage is Connecting,
        input matches Input::Event(EventView::Response(msg)) && msg.is_successful(),
        s.take(input, extensions).action == ActionView::Finished(Ok(())),
{
}

/// What a response says in its advice is merged into what the session
/// knows, by whatever operation the response came; a response without
/// advice changes nothing of it.
pub proof fn lemma_response_advice_is_merged(
    s: SessionView,
    msg: MessageView,
    extensions: ExtensionsView,
)
    requires
        s.stage is Handshaking || s.stage is Connecting || s.stage.established(),
    ensures
        s.advance(EventView::Response(msg), extensions).next.advice == (match msg.advice {
            Some(advice) => s.advice.merged(advice),
            None => s.advice,
        }),
{
}

/// Without an established and idle session, subscribe, unsubscribe and
/// publish fail at once with `NotConnected`: nothing is sent and the session
/// stays as it is.
pub proof fn lemma_not_connected_fails_fast(
    s: SessionView,
    input: Input,
    extensions: ExtensionsView,
)
    requires
        input is Subscribe || input is Unsubscribe || input is Publish,
        !(s.stage is Connected) || s.client_id is None,
    ensures
        s.take(input, extensions) == s.stay(Err(FayeErrorView::NotConnected)),
        s.take(input, extensions).action.sends() is None,
{
}

/// A refused subscription is reported with the server's reason and leaves
/// the session established; so does a refused unsubscription.
pub proof fn lemma_refusal_keeps_session(
    s: SessionView,
    msg: MessageView,
    extensions: ExtensionsView,
)
    requires
        s.wf(),
        s.stage is Subscribing || s.stage is Unsubscribing,
        !msg.is_successful(),
    ensures
        ({
            let out = s.advance(EventView::Response(msg), extensions);
            &&& out.next.is_connected()
            &&& out.next.stage is Connected
            &&& out.next.client_id == s.client_id
            &&& out.deliver is None
            &&& out.action == ActionView::Finished(
                Err(
                    if s.stage is Subscribing {
                        FayeErrorView::SubscribeFailed(msg.error_text())
                    } else {
                        FayeErrorView::UnsubscribeFailed(msg.error_text())
                    },
                ),
            )
        }),
{
}

/// While the session is not being set up, and `connect` is not called, the
/// engine sends no CONNECT and does not start to set a session up.
pub proof fn lemma_no_connect_outside_setup(
    s: SessionView,
    input: Input,
    extensions: ExtensionsView,
)
    requires
        !s.stage.setting_up(),
        !(input is Connect),
    ensures
        !s.take(input, extensions).next.stage.setting_up(),
        s.take(input, extensions).action.sends() matches Some(msg) ==> !msg.is_connect_request(),
{
}

/// The same over a whole run: as long as `connect` is not called, a session
/// that is not being set up never sends a CONNECT.
pub proof fn lemma_no_connect_without_setup(
    s: SessionView,
    inputs: Seq<Input>,
    extensions: ExtensionsView,
)
    requires
        !s.stage.setting_up(),
        forall|i: int| 0 <= i < inputs.len() ==> !(#[trigger] inputs[i] is Connect),
    ensures
        !s.run(inputs, extensions).end.stage.setting_up(),
        forall|k: int|
            0 <= k < s.run(inputs, extensions).sent.len() ==> !(#[trigger] s.run(
                inputs,
                extensions,
            ).sent[k]).is_connect_request(),
    decreases inputs.len(),
{
    if inputs.len() > 0 {
        let first = s.take(inputs[0], extensions);
        let tail = inputs.subrange(1, inputs.len() as int);
        lemma_no_connect_outside_setup(s, inputs[0], extensions);
        assert forall|i: int| 0 <= i < tail.len() implies !(#[trigger] tail[i] is Connect) by {
            assert(tail[i] == inputs[i + 1]);
        }
        lemma_no_connect_without_setup(first.next, tail, extensions);
    }
}

/// Once the advice that holds for the transport says never to reconnect, a
/// response to CONNECT ends the setting up, whether it reports success or
/// not, and no CONNECT is sent again until the caller calls `connect`.
pub proof fn lemma_never_reconnect(
    s: SessionView,
    msg: MessageView,
    later: Seq<Input>,
    extensions: ExtensionsView,
)
    requires
        s.stage is Connecting,
        s.heard(msg).advice.effective_reconnect(TRANSPORT) == ReconnectType::Never,
        forall|i: int| 0 <= i < later.len() ==> !(#[trigger] later[i] is Connect),
    ensures
        ({
            let out = s.advance(EventView::Response(msg), extensions);
            let trace = out.next.run(later, extensions);
            &&& out.action.sends() is None
            &&& !msg.is_successful() ==> out.next.client_id is None
            &&& forall|k: int|
                0 <= k < trace.sent.len() ==> !(#[trigger] trace.sent[k]).is_connect_request()
        }),
{
    let out = s.advance(EventView::Response(msg), extensions);
    lemma_no_connect_without_setup(out.next, later, extensions);
}

/// From a session that has no name and is not past the opening of its
/// transport, the first message that the engine sends, if it sends any, is
/// the handshake.
pub proof fn lemma_first_message_is_handshake(
    s: SessionView,
    inputs: Seq<Input>,
    extensions: ExtensionsView,
)
    requires
        s.before_handshake(),
    ensures
        s.run(inputs, extensions).sent.len() > 0 ==> s.run(inputs, extensions).sent[0]
            == SessionView::handshake_request(extensions),
        s.run(inputs, extensions).sent.len() == 0 ==> s.run(
            inputs,
            extensions,
        ).end.before_handshake(),
    decreases inputs.len(),
{
    if inputs.len() > 0 {
        let first = s.take(inputs[0], extensions);
        let tail = inputs.subrange(1, inputs.len() as int);
        if first.action.sends() is None {
            lemma_first_message_is_handshake(first.next, tail, extensions);
            assert(s.run(inputs, extensions).sent =~= first.next.run(tail, extensions).sent);
        }
    }
}

/// When a connect attempt fails and the advice that holds for the transport
/// asks for a handshake, the client forgets its name, and the next message
/// that the engine sends, now or after any later calls and events, is the
/// handshake.
pub proof fn lemma_rehandshake(
    s: SessionView,
    event: EventView,
    later: Seq<Input>,
    extensions: ExtensionsView,
)
    requires
        s.stage is Connecting,
        event matches EventView::Response(msg) ==> !msg.is_successful(),
        event is Response || event is SendFailed || event is ReceiveFailed,
        (match event {
            EventView::Response(msg) => s.heard(msg),
            _ => s,
        }).advice.effective_reconnect(TRANSPORT) == ReconnectType::Handshake,
    ensures
        ({
            let out = s.advance(event, extensions);
            let sent = listed(out.action.sends()) + out.next.run(later, extensions).sent;
            &&& out.next.client_id is None
            &&& out.action.sends() matches Some(msg) ==> msg == SessionView::handshake_request(
                extensions,
            )
            &&& sent.len() > 0 ==> sent[0] == SessionView::handshake_request(extensions)
            &&& SessionView::one_more(s.attempts) < s.policy.max_attempts ==> out.action
                == ActionView::Exchange(SessionView::handshake_request(extensions))
        }),
{
    let out = s.advance(event, extensions);
    if out.action.sends() is None {
        lemma_first_message_is_handshake(out.next, later, extensions);
    }
}

/// However a session stands, `disconnect` ends it: at once the session is
/// neither connected nor opened, and it stays so through whatever events
/// follow, until the operation ends well with the transport closed, even if
/// DISCONNECT could not be sent.
pub proof fn lemma_disconnect_always_ends(
    s: SessionView,
    first: EventView,
    second: EventView,
    extensions: ExtensionsView,
)
    ensures
        ({
            let begun = s.begin_disconnect(extensions);
            let closing = begun.next.advance(first, extensions);
            let closed = closing.next.advance(second, extensions);
            &&& !begun.next.is_connected() && !begun.next.is_opened()
            &&& begun.next.client_id is None
            &&& match begun.action {
                ActionView::Finished(result) => {
                    &&& result == Ok::<(), FayeErrorView>(())
                    &&& !s.opened
                    &&& begun.next.stage is Idle
                },
                ActionView::Close => {
                    &&& s.opened && s.client_id is None
                    &&& closing.action == ActionView::Finished(Ok(()))
                    &&& closing.next.stage is Idle
                    &&& !closing.next.opened
                    &&& !closing.next.is_connected() && !closing.next.is_opened()
                },
                ActionView::Send(msg) => {
                    &&& s.opened && s.client_id is Some
                    &&& msg == MessageBuilder::disconnect(s.client_id.unwrap(), extensions)
                    &&& closing.action == ActionView::Close
                    &&& !closing.next.is_connected() && !closing.next.is_opened()
                    &&& closed.action == ActionView::Finished(Ok(()))
                    &&& closed.next.stage is Idle
                    &&& !closed.next.opened
                    &&& !closed.next.is_connected() && !closed.next.is_opened()
                },
                _ => false,
            }
        }),
{
}

/// A subscribe or unsubscribe call together with the response that the
/// server gives to it.
pub struct Call {
    pub unsubscribe: bool,
    pub channels: Seq<Seq<char>>,
    pub response: MessageView,
}

impl Call {
    /// The call as an input of the engine.
    pub open spec fn input(self) -> Input {
        if self.unsubscribe {
            Input::Unsubscribe(self.channels)
        } else {
            Input::Subscribe(self.channels)
        }
    }

    /// The request that the call puts on the wire for the client `id`.
    pub open spec fn request(self, id: Seq<char>, extensions: ExtensionsView) -> MessageView {
        if self.unsubscribe {
            MessageBuilder::unsubscribe(id, self.channels, extensions)
        } else {
            MessageBuilder::subscribe(id, self.channels, extensions)
        }
    }
}

/// The inputs of a run in which each call is followed by its response.
pub open spec fn script(calls: Seq<Call>) -> Seq<Input>
    decreases calls.len(),
{
    if calls.len() == 0 {
        Seq::empty()
    } else {
        seq![calls[0].input(), Input::Event(EventView::Response(calls[0].response))] + script(
            calls.subrange(1, calls.len() as int),
        )
    }
}

/// The requests of the calls, in the order of the calls.
pub open spec fn requests(calls: Seq<Call>, id: Seq<char>, extensions: ExtensionsView) -> Seq<
    MessageView,
>
    decreases calls.len(),
{
    if calls.len() == 0 {
        Seq::empty()
    } else {
        seq![calls[0].request(id, extensions)] + requests(
            calls.subrange(1, calls.len() as int),
            id,
            extensions,
        )
    }
}

/// The responses that report success, in the order of the calls.
pub open spec fn accepted(calls: Seq<Call>) -> Seq<MessageView>
    decreases calls.len(),
{
    if calls.len() == 0 {
        Seq::empty()
    } else {
        (if calls[0].response.is_successful() {
            seq![calls[0].response]
        } else {
            Seq::empty()
        }) + accepted(calls.subrange(1, calls.len() as int))
    }
}

/// While a request waits for its response, another call is turned down
/// without a message being sent: the engine never has two requests under
/// way.
pub proof fn lemma_one_request_at_a_time(s: SessionView, input: Input, extensions: ExtensionsView)
    requires
        s.stage is Subscribing || s.stage is Unsubscribing || s.stage is Publishing,
        input is Subscribe || input is Unsubscribe || input is Publish,
    ensures
        s.take(input, extensions).action.sends() is None,
        s.take(input, extensions).next == s,
{
}

/// On an established session, any sequence of subscribe and unsubscribe
/// calls, each followed by its response, puts the requests on the wire in
/// the order of the calls and hands the handler the successful responses in
/// that same order; the session stays established under the same name.
pub proof fn lemma_responses_in_call_order(
    s: SessionView,
    calls: Seq<Call>,
    extensions: ExtensionsView,
)
    requires
        s.stage is Connected,
        s.client_id is Some,
    ensures
        ({
            let trace = s.run(script(calls), extensions);
            &&& trace.sent == requests(calls, s.client_id.unwrap(), extensions)
            &&& trace.delivered == accepted(calls)
            &&& trace.end.stage is Connected
            &&& trace.end.client_id == s.client_id
        }),
    decreases calls.len(),
{
    if calls.len() > 0 {
        let id = s.client_id.unwrap();
        let call = calls[0];
        let rest = calls.subrange(1, calls.len() as int);
        let inputs = script(calls);
        let reply = Input::Event(EventView::Response(call.response));
        let asked = s.take(call.input(), extensions);
        let answered = asked.next.take(reply, extensions);
        let after_first = inputs.subrange(1, inputs.len() as int);
        assert(inputs[0] == call.input());
        assert(after_first =~= seq![reply] + script(rest));
        assert(after_first[0] == reply);
        assert(after_first.subrange(1, after_first.len() as int) =~= script(rest));
        lemma_responses_in_call_order(answered.next, rest, extensions);
        let tail = answered.next.run(script(rest), extensions);
        let middle = asked.next.run(after_first, extensions);
        assert(middle.sent =~= tail.sent);
        assert(middle.delivered =~= listed(answered.deliver) + tail.delivered);
        let trace = s.run(inputs, extensions);
        assert(trace.sent =~= seq![call.request(id, extensions)] + tail.sent);
        assert(trace.delivered =~= listed(answered.deliver) + tail.delivered);
        assert(trace.end == tail.end);
    }
}

} // verus!
