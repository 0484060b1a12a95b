//! The session engine: a state machine that decides, for each call of the
//! client and for each event on the transport, what the session becomes and
//! what has to happen next. It performs no input or output itself.
//!
//! The caller performs each [`Action`] and reports the [`Event`] that came
//! of it, until the engine answers with an action that ends the operation.

use crate::faye::bayeux::advice::{AdviceInterpreter, Decision, RetryPolicy};
use crate::faye::bayeux::message::{
    clone_text, extensions_view, Advice, AdviceView, ConnectionType, Message, MessageView,
};
use crate::faye::bayeux::message_builder::MessageBuilder;
use crate::faye::error::{
    outcome_view, FayeError, FayeErrorView, TransportFailure, TransportFailureView,
};
use serde_json::Value;
use std::collections::HashMap;
use vstd::prelude::*;

verus! {

/// The reason given when the server's handshake response names no client.
pub const MISSING_CLIENT_ID: &'static str = "missing client id";

/// The reason given when `connect` is called on a session that is in use.
pub const SESSION_IN_USE: &'static str = "session already in use";

/// The one transport that this client speaks.
pub const TRANSPORT: ConnectionType = ConnectionType::Websocket;

/// What an optional extension table holds.
pub type ExtensionsView = Option<Map<String, Value>>;

/// What the caller has to do next.
#[derive(Debug, PartialEq)]
pub enum Action {
    /// Open a transport to the endpoint with this address; report `Opened`
    /// or `OpenFailed`.
    Open(String),
    /// Close the transport, which cannot fail; report `Closed`.
    Close,
    /// Send the request and read one response; report `Response`,
    /// `SendFailed`, `ReceiveFailed` or `Malformed`.
    Exchange(Message),
    /// Send the message without waiting for a response; report `Sent` or
    /// `SendFailed`.
    Send(Message),
    /// Wait this many milliseconds; report `Waited`.
    Wait(u32),
    /// The operation has ended with this result.
    Finished(Result<(), FayeError>),
    /// The publish has ended, and this is the server's response to it.
    Published(Message),
}

/// What an [`Action`] holds.
pub enum ActionView {
    Open(Seq<char>),
    Close,
    Exchange(MessageView),
    Send(MessageView),
    Wait(u32),
    Finished(Result<(), FayeErrorView>),
    Published(MessageView),
}

impl View for Action {
    type V = ActionView;

    open spec fn view(&self) -> ActionView {
        match self {
            Action::Open(url) => ActionView::Open(url@),
            Action::Close => ActionView::Close,
            Action::Exchange(msg) => ActionView::Exchange(msg@),
            Action::Send(msg) => ActionView::Send(msg@),
            Action::Wait(ms) => ActionView::Wait(*ms),
            Action::Finished(result) => ActionView::Finished(outcome_view(*result)),
            Action::Published(msg) => ActionView::Published(msg@),
        }
    }
}

impl ActionView {
    /// The message that this action puts on the wire, if it does.
    pub open spec fn sends(self) -> Option<MessageView> {
        match self {
            ActionView::Exchange(msg) => Some(msg),
            ActionView::Send(msg) => Some(msg),
            _ => None,
        }
    }
}

/// What came of the last action.
#[derive(Debug, PartialEq)]
pub enum Event {
    /// The transport is open.
    Opened,
    /// The transport could not be opened; the text says why.
    OpenFailed(String),
    /// The transport is closed.
    Closed,
    /// The message was written.
    Sent,
    /// The message could not be written.
    SendFailed,
    /// No response could be read.
    ReceiveFailed,
    /// A response was read that is no Bayeux message.
    Malformed,
    /// The server's response.
    Response(Message),
    /// The wait is over.
    Waited,
}

/// What an [`Event`] holds.
pub enum EventView {
    Opened,
    OpenFailed(Seq<char>),
    Closed,
    Sent,
    SendFailed,
    ReceiveFailed,
    Malformed,
    Response(MessageView),
    Waited,
}

impl View for Event {
    type V = EventView;

    open spec fn view(&self) -> EventView {
        match self {
            Event::Opened => EventView::Opened,
            Event::OpenFailed(why) => EventView::OpenFailed(why@),
            Event::Closed => EventView::Closed,
            Event::Sent => EventView::Sent,
            Event::SendFailed => EventView::SendFailed,
            Event::ReceiveFailed => EventView::ReceiveFailed,
            Event::Malformed => EventView::Malformed,
            Event::Response(msg) => EventView::Response(msg@),
            Event::Waited => EventView::Waited,
        }
    }
}

/// Where the session stands, and with it what event it is waiting for.
#[derive(Debug, PartialEq)]
pub enum Stage {
    /// No session and no operation.
    Idle,
    /// The last session ended in an error; `connect` may start another.
    Failed,
    /// `connect` found a transport still open: waiting for it to close,
    /// to open the endpoint with this address after that.
    Reopening(String),
    /// Waiting for the transport to open.
    Opening,
    /// Waiting for the response to HANDSHAKE.
    Handshaking,
    /// Waiting for the response to CONNECT.
    Connecting,
    /// Waiting out the delay before the next CONNECT.
    Backoff,
    /// The session is established and no operation is under way.
    Connected,
    /// Waiting for the response to SUBSCRIBE.
    Subscribing,
    /// Waiting for the response to UNSUBSCRIBE.
    Unsubscribing,
    /// Waiting for the response to a publish.
    Publishing,
    /// Waiting for DISCONNECT to be written, or to fail.
    Disconnecting,
    /// Waiting for the transport to close; the operation then ends with
    /// this error, or well if there is none.
    Closing(Option<FayeError>),
}

/// What a [`Stage`] holds.
pub enum StageView {
    Idle,
    Failed,
    Reopening(Seq<char>),
    Opening,
    Handshaking,
    Connecting,
    Backoff,
    Connected,
    Subscribing,
    Unsubscribing,
    Publishing,
    Disconnecting,
    Closing(Option<FayeErrorView>),
}

impl View for Stage {
    type V = StageView;

    open spec fn view(&self) -> StageView {
        match self {
            Stage::Idle => StageView::Idle,
            Stage::Failed => StageView::Failed,
            Stage::Reopening(url) => StageView::Reopening(url@),
            Stage::Opening => StageView::Opening,
            Stage::Handshaking => StageView::Handshaking,
            Stage::Connecting => StageView::Connecting,
            Stage::Backoff => StageView::Backoff,
            Stage::Connected => StageView::Connected,
            Stage::Subscribing => StageView::Subscribing,
            Stage::Unsubscribing => StageView::Unsubscribing,
            Stage::Publishing => StageView::Publishing,
            Stage::Disconnecting => StageView::Disconnecting,
            Stage::Closing(error) => StageView::Closing(
                match error {
                    Some(e) => Some(e@),
                    None => None,
                },
            ),
        }
    }
}

impl StageView {
    /// The stages in which a session is established.
    pub open spec fn established(self) -> bool {
        self is Connected || self is Subscribing || self is Unsubscribing || self is Publishing
    }

    /// The stages in which a session is being set up.
    pub open spec fn setting_up(self) -> bool {
        self is Reopening || self is Opening || self is Handshaking || self is Connecting
            || self is Backoff
    }

    /// The stages in which the server has named the client.
    pub open spec fn named(self) -> bool {
        self.established() || self is Connecting || self is Backoff
    }
}

/// The life of a session in six states.
#[derive(Debug, Clone, Copy, PartialEq, Eq, Structural)]
pub enum Phase {
    /// No session.
    Idle,
    /// The transport is being opened or the handshake is under way.
    Handshaking,
    /// The client has its name and waits for the server to accept a CONNECT.
    Connecting,
    /// The session is established.
    Connected,
    /// The session is being ended on the caller's request.
    Disconnecting,
    /// The session has ended in an error, or is being torn down after one.
    Failed,
}

impl StageView {
    /// The state of the session's life that the stage belongs to.
    pub open spec fn phase(self) -> Phase {
        match self {
            StageView::Idle => Phase::Idle,
            StageView::Failed => Phase::Failed,
            StageView::Reopening(_) => Phase::Handshaking,
            StageView::Opening => Phase::Handshaking,
            StageView::Handshaking => Phase::Handshaking,
            StageView::Connecting => Phase::Connecting,
            StageView::Backoff => Phase::Connecting,
            StageView::Connected => Phase::Connected,
            StageView::Subscribing => Phase::Connected,
            StageView::Unsubscribing => Phase::Connected,
            StageView::Publishing => Phase::Connected,
            StageView::Disconnecting => Phase::Disconnecting,
            StageView::Closing(None) => Phase::Disconnecting,
            StageView::Closing(Some(_)) => Phase::Failed,
        }
    }
}

impl Phase {
    /// The changes of state that a session can make in one step.
    pub open spec fn may_become(self, next: Phase) -> bool {
        ||| next == self
        ||| next == Phase::Disconnecting
        ||| match self {
            Phase::Idle => next == Phase::Handshaking,
            Phase::Failed => next == Phase::Handshaking || next == Phase::Idle,
            Phase::Handshaking => next == Phase::Connecting || next == Phase::Failed || next
                == Phase::Idle,
            Phase::Connecting => next == Phase::Connected || next == Phase::Handshaking || next
                == Phase::Failed,
            Phase::Connected => next == Phase::Failed,
            Phase::Disconnecting => next == Phase::Idle,
        }
    }
}

/// What the engine answers to a call or an event.
#[derive(Debug, PartialEq)]
pub struct Step {
    /// What the caller has to do next.
    pub action: Action,
    /// The response to hand to the message handler before that.
    pub deliver: Option<Message>,
}

/// What a session holds.
pub struct SessionView {
    pub stage: StageView,
    /// Whether a transport is open.
    pub opened: bool,
    /// The name that the server gave to this client.
    pub client_id: Option<Seq<char>>,
    /// All the advice received in this session, merged.
    pub advice: AdviceView,
    pub policy: RetryPolicy,
    /// The client's own delay before the next connect attempt.
    pub backoff_ms: u32,
    /// How many connect attempts in a row have failed.
    pub attempts: u32,
}

/// The message, if there is one, as a sequence.
pub open spec fn listed(item: Option<MessageView>) -> Seq<MessageView> {
    match item {
        Some(msg) => seq![msg],
        None => Seq::empty(),
    }
}

/// What the engine decides: the session after the step, the next action, and
/// the response that the message handler is to see.
pub struct Outcome {
    pub next: SessionView,
    pub action: ActionView,
    pub deliver: Option<MessageView>,
}

impl Outcome {
    /// Whether an executed step did what this outcome says.
    pub open spec fn describes(self, next: SessionView, step: Step) -> bool {
        &&& self.next == next
        &&& self.action == step.action@
        &&& self.deliver == step.deliver.deep_view()
    }
}

impl SessionView {
    /// The session of a client that has not connected yet.
    pub open spec fn fresh(policy: RetryPolicy) -> SessionView {
        SessionView {
            stage: StageView::Idle,
            opened: false,
            client_id: None,
            advice: AdviceView::blank(),
            policy,
            backoff_ms: policy.floor_ms,
            attempts: 0,
        }
    }

    /// What holds of every session that the engine has produced: the client
    /// has a name exactly in the stages that follow a handshake, and a
    /// transport is open exactly in the stages that need one (after a failure
    /// it may be either).
    pub open spec fn wf(self) -> bool {
        &&& self.client_id is Some <==> self.stage.named()
        &&& match self.stage {
            StageView::Idle => !self.opened,
            StageView::Opening => !self.opened,
            StageView::Failed => true,
            _ => self.opened,
        }
    }

    /// A session is being set up.
    pub open spec fn connecting(self) -> bool {
        self.stage.setting_up()
    }

    /// The server has accepted the connect.
    pub open spec fn connected(self) -> bool {
        self.stage.established()
    }

    /// The server has accepted the handshake.
    pub open spec fn handshake(self) -> bool {
        self.client_id is Some
    }

    /// The session is established.
    pub open spec fn is_connected(self) -> bool {
        self.connected() && self.handshake()
    }

    /// A transport is open for a session that is established or being set up.
    pub open spec fn is_opened(self) -> bool {
        self.opened && (self.connected() || self.connecting())
    }

    /// How many milliseconds the response that the session waits for may
    /// take: for a CONNECT the timeout that the advice states for the
    /// transport and the policy's grace on top; no limit for anything else.
    pub open spec fn deadline_ms(self) -> Option<u64> {
        if self.stage is Connecting {
            Some(
                ((match self.advice.effective_timeout(TRANSPORT) {
                    Some(timeout) => timeout,
                    None => 0,
                }) + self.policy.grace_ms) as u64,
            )
        } else {
            None
        }
    }

    /// The session after it has taken in the advice of a response.
    pub open spec fn heard(self, msg: MessageView) -> SessionView {
        match msg.advice {
            Some(advice) => SessionView { advice: self.advice.merged(advice), ..self },
            None => self,
        }
    }

    /// The operation ends at once and the session stays as it is.
    pub open spec fn stay(self, result: Result<(), FayeErrorView>) -> Outcome {
        Outcome { next: self, action: ActionView::Finished(result), deliver: None }
    }

    /// An event came that the session was not waiting for.
    pub open spec fn unexpected(self) -> Outcome {
        self.stay(Err(FayeErrorView::ProtocolError))
    }

    /// The session ends in `error`: the client forgets its name, and an open
    /// transport is closed before the error is reported.
    pub open spec fn abort(self, error: FayeErrorView) -> Outcome {
        if self.opened {
            Outcome {
                next: SessionView {
                    stage: StageView::Closing(Some(error)),
                    client_id: None,
                    ..self
                },
                action: ActionView::Close,
                deliver: None,
            }
        } else {
            Outcome {
                next: SessionView { stage: StageView::Failed, client_id: None, ..self },
                action: ActionView::Finished(Err(error)),
                deliver: None,
            }
        }
    }

    /// The handshake request of this client.
    pub open spec fn handshake_request(extensions: ExtensionsView) -> MessageView {
        MessageBuilder::handshake(seq![TRANSPORT], extensions)
    }

    /// The attempts counted with one more failure.
    pub open spec fn one_more(attempts: u32) -> u32 {
        if attempts < u32::MAX {
            (attempts + 1) as u32
        } else {
            attempts
        }
    }

    /// A connect attempt has failed with `error`, and the advice decides.
    /// Where it says stop, the session ends with `Terminal`. Else the session
    /// ends with `error` once the policy's attempts are used up. Else the
    /// client starts again at the handshake, without its name, or waits and
    /// then connects again.
    pub open spec fn connect_failed(
        self,
        error: FayeErrorView,
        extensions: ExtensionsView,
    ) -> Outcome {
        let counted = SessionView { attempts: Self::one_more(self.attempts), ..self };
        match AdviceInterpreter::decision(self.advice, TRANSPORT, self.backoff_ms) {
            Decision::Stop(why) => counted.abort(FayeErrorView::Terminal(why)),
            Decision::Handshake => if counted.attempts >= self.policy.max_attempts {
                counted.abort(error)
            } else {
                Outcome {
                    next: SessionView {
                        stage: StageView::Handshaking,
                        client_id: None,
                        ..counted
                    },
                    action: ActionView::Exchange(Self::handshake_request(extensions)),
                    deliver: None,
                }
            },
            Decision::Retry(delay_ms) => if counted.attempts >= self.policy.max_attempts {
                counted.abort(error)
            } else {
                Outcome {
                    next: SessionView {
                        stage: StageView::Backoff,
                        backoff_ms: if self.advice.effective_interval(TRANSPORT) is None {
                            self.policy.next_delay(self.backoff_ms)
                        } else {
                            self.backoff_ms
                        },
                        ..counted
                    },
                    action: ActionView::Wait(delay_ms),
                    deliver: None,
                }
            },
        }
    }

    /// The response to HANDSHAKE has come. The session goes on to CONNECT
    /// only if the response reports success and names the client.
    pub open spec fn on_handshake_response(
        self,
        msg: MessageView,
        extensions: ExtensionsView,
    ) -> Outcome {
        let heard = self.heard(msg);
        let failed = SessionView { stage: StageView::Failed, client_id: None, ..heard };
        if !msg.is_successful() {
            failed.stay(Err(FayeErrorView::HandshakeFailed(msg.error_text())))
        } else {
            match msg.client_id {
                None => failed.stay(Err(FayeErrorView::HandshakeFailed(MISSING_CLIENT_ID@))),
                Some(id) => Outcome {
                    next: SessionView {
                        stage: StageView::Connecting,
                        client_id: Some(id),
                        ..heard
                    },
                    action: ActionView::Exchange(MessageBuilder::connect(id, TRANSPORT, extensions)),
                    deliver: Some(msg),
                },
            }
        }
    }

    /// The response to CONNECT has come.
    pub open spec fn on_connect_response(
        self,
        msg: MessageView,
        extensions: ExtensionsView,
    ) -> Outcome {
        let heard = self.heard(msg);
        if msg.is_successful() {
            Outcome {
                next: SessionView {
                    stage: StageView::Connected,
                    attempts: 0,
                    backoff_ms: self.policy.floor_ms,
                    ..heard
                },
                action: ActionView::Finished(Ok(())),
                deliver: Some(msg),
            }
        } else {
            heard.connect_failed(FayeErrorView::ConnectFailed(msg.error_text()), extensions)
        }
    }

    /// The delay before the next CONNECT is over.
    pub open spec fn on_waited(self, extensions: ExtensionsView) -> Outcome {
        match self.client_id {
            Some(id) => Outcome {
                next: SessionView { stage: StageView::Connecting, ..self },
                action: ActionView::Exchange(MessageBuilder::connect(id, TRANSPORT, extensions)),
                deliver: None,
            },
            None => self.abort(FayeErrorView::NotConnected),
        }
    }

    /// The response to SUBSCRIBE or UNSUBSCRIBE has come; `refusal` is the
    /// error to report if the server refused. Either way the session stays
    /// established.
    pub open spec fn on_reply(self, msg: MessageView, refusal: FayeErrorView) -> Outcome {
        let next = SessionView { stage: StageView::Connected, ..self.heard(msg) };
        if msg.is_successful() {
            Outcome { next, action: ActionView::Finished(Ok(())), deliver: Some(msg) }
        } else {
            Outcome { next, action: ActionView::Finished(Err(refusal)), deliver: None }
        }
    }

    /// The response to a publish has come: the caller gets it whatever it
    /// says, the message handler only if it reports success.
    pub open spec fn on_publish_reply(self, msg: MessageView) -> Outcome {
        Outcome {
            next: SessionView { stage: StageView::Connected, ..self.heard(msg) },
            action: ActionView::Published(msg),
            deliver: if msg.is_successful() {
                Some(msg)
            } else {
                None
            },
        }
    }

    /// A message has come that answers no request.
    pub open spec fn on_unsolicited(self, msg: MessageView) -> Outcome {
        Outcome {
            next: self.heard(msg),
            action: ActionView::Finished(Ok(())),
            deliver: Some(msg),
        }
    }

    /// An exchange has ended without a response: the session ends in the
    /// matching error. Any other event was not waited for.
    pub open spec fn on_no_response(self, event: EventView) -> Outcome {
        match event {
            EventView::SendFailed => self.abort(
                FayeErrorView::TransportError(TransportFailureView::Send),
            ),
            EventView::ReceiveFailed => self.abort(
                FayeErrorView::TransportError(TransportFailureView::Receive),
            ),
            EventView::Malformed => self.abort(FayeErrorView::ProtocolError),
            _ => self.unexpected(),
        }
    }

    /// What the engine does when `event` comes.
    pub open spec fn advance(self, event: EventView, extensions: ExtensionsView) -> Outcome {
        match self.stage {
            StageView::Idle => self.unexpected(),
            StageView::Failed => self.unexpected(),
            StageView::Reopening(url) => Outcome {
                next: SessionView { stage: StageView::Opening, opened: false, ..self },
                action: ActionView::Open(url),
                deliver: None,
            },
            StageView::Opening => match event {
                EventView::Opened => Outcome {
                    next: SessionView { stage: StageView::Handshaking, opened: true, ..self },
                    action: ActionView::Exchange(Self::handshake_request(extensions)),
                    deliver: None,
                },
                EventView::OpenFailed(why) => SessionView {
                    stage: StageView::Failed,
                    opened: false,
                    ..self
                }.stay(Err(FayeErrorView::TransportError(TransportFailureView::Open(why)))),
                _ => self.unexpected(),
            },
            StageView::Handshaking => match event {
                EventView::Response(msg) => self.on_handshake_response(msg, extensions),
                _ => self.on_no_response(event),
            },
            StageView::Connecting => match event {
                EventView::Response(msg) => self.on_connect_response(msg, extensions),
                EventView::SendFailed => self.connect_failed(
                    FayeErrorView::TransportError(TransportFailureView::Send),
                    extensions,
                ),
                EventView::ReceiveFailed => self.connect_failed(
                    FayeErrorView::TransportError(TransportFailureView::Receive),
                    extensions,
                ),
                _ => self.on_no_response(event),
            },
            StageView::Backoff => match event {
                EventView::Waited => self.on_waited(extensions),
                _ => self.unexpected(),
            },
            StageView::Connected => match event {
                EventView::Response(msg) => self.on_unsolicited(msg),
                _ => self.unexpected(),
            },
            StageView::Subscribing => match event {
                EventView::Response(msg) => self.on_reply(
                    msg,
                    FayeErrorView::SubscribeFailed(msg.error_text()),
                ),
                _ => self.on_no_response(event),
            },
            StageView::Unsubscribing => match event {
                EventView::Response(msg) => self.on_reply(
                    msg,
                    FayeErrorView::UnsubscribeFailed(msg.error_text()),
                ),
                _ => self.on_no_response(event),
            },
            StageView::Publishing => match event {
                EventView::Response(msg) => self.on_publish_reply(msg),
                _ => self.on_no_response(event),
            },
            StageView::Disconnecting => Outcome {
                next: SessionView { stage: StageView::Closing(None), ..self },
                action: ActionView::Close,
                deliver: None,
            },
            StageView::Closing(error) => match error {
                None => SessionView { stage: StageView::Idle, opened: false, ..self }.stay(Ok(())),
                Some(e) => SessionView { stage: StageView::Failed, opened: false, ..self }.stay(
                    Err(e),
                ),
            },
        }
    }

    /// What the engine does when the caller asks for a session with the
    /// server at `url`. Only a client without a session may ask: it starts
    /// afresh, closes a transport that a failure has left open, and opens
    /// the endpoint.
    pub open spec fn begin_connect(self, url: Seq<char>) -> Outcome {
        if self.stage is Idle || self.stage is Failed {
            let afresh = SessionView {
                client_id: None,
                advice: AdviceView::blank(),
                backoff_ms: self.policy.floor_ms,
                attempts: 0,
                ..self
            };
            if self.opened {
                Outcome {
                    next: SessionView { stage: StageView::Reopening(url), ..afresh },
                    action: ActionView::Close,
                    deliver: None,
                }
            } else {
                Outcome {
                    next: SessionView { stage: StageView::Opening, ..afresh },
                    action: ActionView::Open(url),
                    deliver: None,
                }
            }
        } else {
            self.stay(Err(FayeErrorView::ConnectFailed(SESSION_IN_USE@)))
        }
    }

    /// What the engine does when the caller ends the session: the client
    /// forgets its name at once; DISCONNECT is sent if the client had a name
    /// and a transport, and the transport is closed whatever comes of that.
    pub open spec fn begin_disconnect(self, extensions: ExtensionsView) -> Outcome {
        let ended = SessionView { client_id: None, ..self };
        if !self.opened {
            SessionView { stage: StageView::Idle, ..ended }.stay(Ok(()))
        } else {
            match self.client_id {
                Some(id) => Outcome {
                    next: SessionView { stage: StageView::Disconnecting, ..ended },
                    action: ActionView::Send(MessageBuilder::disconnect(id, extensions)),
                    deliver: None,
                },
                None => Outcome {
                    next: SessionView { stage: StageView::Closing(None), ..ended },
                    action: ActionView::Close,
                    deliver: None,
                },
            }
        }
    }

    /// The client's name, if the session is established and idle.
    pub open spec fn ready(self) -> Option<Seq<char>> {
        if self.stage is Connected {
            self.client_id
        } else {
            None
        }
    }

    /// What the engine does when the caller subscribes to `channels`.
    pub open spec fn begin_subscribe(
        self,
        channels: Seq<Seq<char>>,
        extensions: ExtensionsView,
    ) -> Outcome {
        match self.ready() {
            Some(id) => Outcome {
                next: SessionView { stage: StageView::Subscribing, ..self },
                action: ActionView::Exchange(MessageBuilder::subscribe(id, channels, extensions)),
                deliver: None,
            },
            None => self.stay(Err(FayeErrorView::NotConnected)),
        }
    }

    /// What the engine does when the caller unsubscribes from `channels`.
    pub open spec fn begin_unsubscribe(
        self,
        channels: Seq<Seq<char>>,
        extensions: ExtensionsView,
    ) -> Outcome {
        match self.ready() {
            Some(id) => Outcome {
                next: SessionView { stage: StageView::Unsubscribing, ..self },
                action: ActionView::Exchange(
                    MessageBuilder::unsubscribe(id, channels, extensions),
                ),
                deliver: None,
            },
            None => self.stay(Err(FayeErrorView::NotConnected)),
        }
    }

    /// What the engine does when the caller publishes `data` on `channel`.
    pub open spec fn begin_publish(
        self,
        channel: Seq<char>,
        data: Value,
        extensions: ExtensionsView,
    ) -> Outcome {
        match self.ready() {
            Some(id) => Outcome {
                next: SessionView { stage: StageView::Publishing, ..self },
                action: ActionView::Exchange(
                    MessageBuilder::publish(id, channel, data, extensions),
                ),
                deliver: None,
            },
            None => self.stay(Err(FayeErrorView::NotConnected)),
        }
    }
}

/// The state of one client session. Every change of it is decided by the
/// engine's functions below.
#[derive(Debug)]
pub struct SessionState {
    stage: Stage,
    opened: bool,
    client_id: Option<String>,
    advice: Advice,
    policy: RetryPolicy,
    backoff_ms: u32,
    attempts: u32,
}

impl View for SessionState {
    type V = SessionView;

    closed spec fn view(&self) -> SessionView {
        SessionView {
            stage: self.stage@,
            opened: self.opened,
            client_id: self.client_id.deep_view(),
            advice: self.advice@,
            policy: self.policy,
            backoff_ms: self.backoff_ms,
            attempts: self.attempts,
        }
    }
}

/// The step that only names the next action.
fn only(action: Action) -> (step: Step)
    ensures
        step.action == action,
        step.deliver is None,
{
    Step { action, deliver: None }
}

impl SessionState {
    /// A session that has not connected yet, with the standard retry policy.
    pub fn new() -> (r: SessionState)
        ensures
            r@ == SessionView::fresh(RetryPolicy::standard()),
            r@.wf(),
    {
        Self::with_policy(RetryPolicy::new())
    }

    /// A session that has not connected yet, with the given retry policy.
    pub fn with_policy(policy: RetryPolicy) -> (r: SessionState)
        ensures
            r@ == SessionView::fresh(policy),
            r@.wf(),
    {
        SessionState {
            stage: Stage::Idle,
            opened: false,
            client_id: None,
            advice: Advice::default(),
            policy,
            backoff_ms: policy.first_delay(),
            attempts: 0,
        }
    }

    /// Where the session stands.
    pub fn stage(&self) -> (r: &Stage)
        ensures
            r@ == self@.stage,
    {
        &self.stage
    }

    /// Whether a transport is open.
    pub fn opened(&self) -> (r: bool)
        ensures
            r == self@.opened,
    {
        self.opened
    }

    /// The name that the server gave to this client.
    pub fn client_id(&self) -> (r: &Option<String>)
        ensures
            r.deep_view() == self@.client_id,
    {
        &self.client_id
    }

    /// All the advice received in this session, merged.
    pub fn advice(&self) -> (r: &Advice)
        ensures
            r@ == self@.advice,
    {
        &self.advice
    }

    /// The retry policy of this client.
    pub fn policy(&self) -> (r: RetryPolicy)
        ensures
            r == self@.policy,
    {
        self.policy
    }

    /// The client's own delay before the next connect attempt.
    pub fn backoff_ms(&self) -> (r: u32)
        ensures
            r == self@.backoff_ms,
    {
        self.backoff_ms
    }

    /// How many connect attempts in a row have failed.
    pub fn attempts(&self) -> (r: u32)
        ensures
            r == self@.attempts,
    {
        self.attempts
    }

    /// The state of the session's life.
    pub fn phase(&self) -> (r: Phase)
        ensures
            r == self@.stage.phase(),
    {
        match &self.stage {
            Stage::Idle => Phase::Idle,
            Stage::Failed => Phase::Failed,
            Stage::Reopening(_) => Phase::Handshaking,
            Stage::Opening => Phase::Handshaking,
            Stage::Handshaking => Phase::Handshaking,
            Stage::Connecting => Phase::Connecting,
            Stage::Backoff => Phase::Connecting,
            Stage::Connected => Phase::Connected,
            Stage::Subscribing => Phase::Connected,
            Stage::Unsubscribing => Phase::Connected,
            Stage::Publishing => Phase::Connected,
            Stage::Disconnecting => Phase::Disconnecting,
            Stage::Closing(None) => Phase::Disconnecting,
            Stage::Closing(Some(_)) => Phase::Failed,
        }
    }

    /// How many milliseconds the response that the session waits for may
    /// take, if there is a limit.
    pub fn deadline_ms(&self) -> (r: Option<u64>)
        ensures
            r == self@.deadline_ms(),
    {
        match &self.stage {
            Stage::Connecting => {
                let timeout: u32 = match self.advice.effective_timeout(TRANSPORT) {
                    Some(timeout) => timeout,
                    None => 0,
                };
                Some(timeout as u64 + self.policy.grace_ms as u64)
            },
            _ => None,
        }
    }

    /// Whether a session is being set up.
    pub fn connecting(&self) -> (r: bool)
        ensures
            r == self@.connecting(),
    {
        match &self.stage {
            Stage::Reopening(_) => true,
            Stage::Opening => true,
            Stage::Handshaking => true,
            Stage::Connecting => true,
            Stage::Backoff => true,
            _ => false,
        }
    }

    /// Whether the server has accepted the connect.
    pub fn connected(&self) -> (r: bool)
        ensures
            r == self@.connected(),
    {
        match &self.stage {
            Stage::Connected => true,
            Stage::Subscribing => true,
            Stage::Unsubscribing => true,
            Stage::Publishing => true,
            _ => false,
        }
    }

    /// Whether the server has accepted the handshake.
    pub fn handshake(&self) -> (r: bool)
        ensures
            r == self@.handshake(),
    {
        self.client_id.is_some()
    }

    /// Whether the session is established.
    pub fn is_connected(&self) -> (r: bool)
        ensures
            r == self@.is_connected(),
    {
        self.connected() && self.handshake()
    }

    /// Whether a transport is open for a session that is established or
    /// being set up.
    pub fn is_opened(&self) -> (r: bool)
        ensures
            r == self@.is_opened(),
    {
        self.opened && (self.connected() || self.connecting())
    }

    fn hear(&mut self, msg: &Message)
        ensures
            final(self)@ == old(self)@.heard(msg@),
    {
        match &msg.advice {
            Some(advice) => {
                self.advice.merge(advice.clone());
            },
            None => {},
        }
    }

    fn unexpected(&self) -> (step: Step)
        ensures
            self@.unexpected().describes(self@, step),
    {
        only(Action::Finished(Err(FayeError::ProtocolError)))
    }

    fn abort(&mut self, error: FayeError) -> (step: Step)
        ensures
            old(self)@.abort(error@).describes(final(self)@, step),
    {
        self.client_id = None;
        if self.opened {
            self.stage = Stage::Closing(Some(error));
            only(Action::Close)
        } else {
            self.stage = Stage::Failed;
            only(Action::Finished(Err(error)))
        }
    }

    fn handshake_request(extensions: &Option<HashMap<String, Value>>) -> (msg: Message)
        ensures
            msg@ == SessionView::handshake_request(extensions_view(*extensions)),
    {
        let transports = vec![TRANSPORT];
        assert(transports@ =~= seq![TRANSPORT]);
        MessageBuilder::create_handshake(transports, extensions)
    }

    fn connect_failed(
        &mut self,
        error: FayeError,
        extensions: &Option<HashMap<String, Value>>,
    ) -> (step: Step)
        ensures
            old(self)@.connect_failed(error@, extensions_view(*extensions)).describes(
                final(self)@,
                step,
            ),
    {
        if self.attempts < u32::MAX {
            self.attempts = self.attempts + 1;
        }
        let exhausted = self.attempts >= self.policy.max_attempts;
        match AdviceInterpreter::decide(&self.advice, TRANSPORT, self.backoff_ms) {
            Decision::Stop(why) => self.abort(FayeError::Terminal(why)),
            Decision::Handshake => {
                if exhausted {
                    self.abort(error)
                } else {
                    self.stage = Stage::Handshaking;
                    self.client_id = None;
                    only(Action::Exchange(Self::handshake_request(extensions)))
                }
            },
            Decision::Retry(delay_ms) => {
                if exhausted {
                    self.abort(error)
                } else {
                    self.stage = Stage::Backoff;
                    if self.advice.effective_interval(TRANSPORT).is_none() {
                        self.backoff_ms = self.policy.advance(self.backoff_ms);
                    }
                    only(Action::Wait(delay_ms))
                }
            },
        }
    }

    fn on_handshake_response(
        &mut self,
        msg: Message,
        extensions: &Option<HashMap<String, Value>>,
    ) -> (step: Step)
        ensures
            old(self)@.on_handshake_response(msg@, extensions_view(*extensions)).describes(
                final(self)@,
                step,
            ),
    {
        self.hear(&msg);
        self.client_id = None;
        if !msg.is_successful() {
            self.stage = Stage::Failed;
            return only(Action::Finished(Err(FayeError::HandshakeFailed(msg.get_error()))));
        }
        match &msg.client_id {
            None => {
                self.stage = Stage::Failed;
                only(
                    Action::Finished(
                        Err(FayeError::HandshakeFailed(MISSING_CLIENT_ID.to_owned())),
                    ),
                )
            },
            Some(id) => {
                let request = MessageBuilder::create_connect(id.clone(), TRANSPORT, extensions);
                self.client_id = Some(id.clone());
                self.stage = Stage::Connecting;
                Step { action: Action::Exchange(request), deliver: Some(msg) }
            },
        }
    }

    fn on_connect_response(
        &mut self,
        msg: Message,
        extensions: &Option<HashMap<String, Value>>,
    ) -> (step: Step)
        ensures
            old(self)@.on_connect_response(msg@, extensions_view(*extensions)).describes(
                final(self)@,
                step,
            ),
    {
        self.hear(&msg);
        if msg.is_successful() {
            self.stage = Stage::Connected;
            self.attempts = 0;
            self.backoff_ms = self.policy.first_delay();
            Step { action: Action::Finished(Ok(())), deliver: Some(msg) }
        } else {
            self.connect_failed(FayeError::ConnectFailed(msg.get_error()), extensions)
        }
    }

    fn on_waited(&mut self, extensions: &Option<HashMap<String, Value>>) -> (step: Step)
        ensures
            old(self)@.on_waited(extensions_view(*extensions)).describes(final(self)@, step),
    {
        match &self.client_id {
            Some(id) => {
                let request = MessageBuilder::create_connect(id.clone(), TRANSPORT, extensions);
                self.stage = Stage::Connecting;
                only(Action::Exchange(request))
            },
            None => self.abort(FayeError::NotConnected),
        }
    }

    fn on_reply(&mut self, msg: Message, refusal: FayeError) -> (step: Step)
        ensures
            old(self)@.on_reply(msg@, refusal@).describes(final(self)@, step),
    {
        self.hear(&msg);
        self.stage = Stage::Connected;
        if msg.is_successful() {
            Step { action: Action::Finished(Ok(())), deliver: Some(msg) }
        } else {
            only(Action::Finished(Err(refusal)))
        }
    }

    fn on_publish_reply(&mut self, msg: Message) -> (step: Step)
        ensures
            old(self)@.on_publish_reply(msg@).describes(final(self)@, step),
    {
        self.hear(&msg);
        self.stage = Stage::Connected;
        if msg.is_successful() {
            Step { action: Action::Published(msg.clone()), deliver: Some(msg) }
        } else {
            only(Action::Published(msg))
        }
    }

    fn on_unsolicited(&mut self, msg: Message) -> (step: Step)
        ensures
            old(self)@.on_unsolicited(msg@).describes(final(self)@, step),
    {
        self.hear(&msg);
        Step { action: Action::Finished(Ok(())), deliver: Some(msg) }
    }

    fn on_no_response(&mut self, event: Event) -> (step: Step)
        ensures
            old(self)@.on_no_response(event@).describes(final(self)@, step),
    {
        match event {
            Event::SendFailed => self.abort(FayeError::TransportError(TransportFailure::Send)),
            Event::ReceiveFailed => self.abort(
                FayeError::TransportError(TransportFailure::Receive),
            ),
            Event::Malformed => self.abort(FayeError::ProtocolError),
            _ => self.unexpected(),
        }
    }

    fn on_reopening(&mut self) -> (step: Step)
        requires
            old(self).stage is Reopening,
        ensures
            final(self)@ == (SessionView {
                stage: StageView::Opening,
                opened: false,
                ..old(self)@
            }),
            step.deliver is None,
            step.action@ == ActionView::Open(old(self)@.stage->Reopening_0),
    {
        let mut stage = Stage::Opening;
        core::mem::swap(&mut self.stage, &mut stage);
        self.opened = false;
        match stage {
            Stage::Reopening(url) => only(Action::Open(url)),
            _ => only(Action::Close),
        }
    }

    fn on_closing(&mut self) -> (step: Step)
        requires
            old(self).stage is Closing,
        ensures
            old(self)@.advance(EventView::Closed, None).describes(final(self)@, step),
    {
        let mut stage = Stage::Idle;
        core::mem::swap(&mut self.stage, &mut stage);
        self.opened = false;
        match stage {
            Stage::Closing(Some(error)) => {
                self.stage = Stage::Failed;
                only(Action::Finished(Err(error)))
            },
            _ => only(Action::Finished(Ok(()))),
        }
    }

    fn on_opening(&mut self, event: Event, extensions: &Option<HashMap<String, Value>>) -> (step:
        Step)
        requires
            old(self).stage is Opening,
        ensures
            old(self)@.advance(event@, extensions_view(*extensions)).describes(
                final(self)@,
                step,
            ),
    {
        match event {
            Event::Opened => {
                self.stage = Stage::Handshaking;
                self.opened = true;
                only(Action::Exchange(Self::handshake_request(extensions)))
            },
            Event::OpenFailed(why) => {
                self.stage = Stage::Failed;
                self.opened = false;
                only(
                    Action::Finished(
                        Err(FayeError::TransportError(TransportFailure::Open(why))),
                    ),
                )
            },
            _ => self.unexpected(),
        }
    }

    fn on_connecting(
        &mut self,
        event: Event,
        extensions: &Option<HashMap<String, Value>>,
    ) -> (step: Step)
        requires
            old(self).stage is Connecting,
        ensures
            old(self)@.advance(event@, extensions_view(*extensions)).describes(
                final(self)@,
                step,
            ),
    {
        match event {
            Event::Response(msg) => self.on_connect_response(msg, extensions),
            Event::SendFailed => self.connect_failed(
                FayeError::TransportError(TransportFailure::Send),
                extensions,
            ),
            Event::ReceiveFailed => self.connect_failed(
                FayeError::TransportError(TransportFailure::Receive),
                extensions,
            ),
            other => self.on_no_response(other),
        }
    }

    /// Takes in what came of the last action, and says what the message
    /// handler is to see and what has to happen next.
    pub fn advance(&mut self, event: Event, extensions: &Option<HashMap<String, Value>>) -> (step:
        Step)
        ensures
            old(self)@.advance(event@, extensions_view(*extensions)).describes(
                final(self)@,
                step,
            ),
            old(self)@.wf() ==> final(self)@.wf(),
    {
        match &self.stage {
            Stage::Idle => self.unexpected(),
            Stage::Failed => self.unexpected(),
            Stage::Reopening(_) => self.on_reopening(),
            Stage::Opening => self.on_opening(event, extensions),
            Stage::Handshaking => match event {
                Event::Response(msg) => self.on_handshake_response(msg, extensions),
                other => self.on_no_response(other),
            },
            Stage::Connecting => self.on_connecting(event, extensions),
            Stage::Backoff => match event {
                Event::Waited => self.on_waited(extensions),
                _ => self.unexpected(),
            },
            Stage::Connected => match event {
                Event::Response(msg) => self.on_unsolicited(msg),
                _ => self.unexpected(),
            },
            Stage::Subscribing => match event {
                Event::Response(msg) => {
                    let refusal = FayeError::SubscribeFailed(msg.get_error());
                    self.on_reply(msg, refusal)
                },
                other => self.on_no_response(other),
            },
            Stage::Unsubscribing => match event {
                Event::Response(msg) => {
                    let refusal = FayeError::UnsubscribeFailed(msg.get_error());
                    self.on_reply(msg, refusal)
                },
                other => self.on_no_response(other),
            },
            Stage::Publishing => match event {
                Event::Response(msg) => self.on_publish_reply(msg),
                other => self.on_no_response(other),
            },
            Stage::Disconnecting => {
                self.stage = Stage::Closing(None);
                only(Action::Close)
            },
            Stage::Closing(_) => self.on_closing(),
        }
    }

    /// Starts a session with the server at `url`.
    pub fn begin_connect(&mut self, url: String) -> (action: Action)
        ensures
            old(self)@.begin_connect(url@).next == final(self)@,
            old(self)@.begin_connect(url@).action == action@,
            old(self)@.wf() ==> final(self)@.wf(),
    {
        let free = match &self.stage {
            Stage::Idle => true,
            Stage::Failed => true,
            _ => false,
        };
        if !free {
            return Action::Finished(Err(FayeError::ConnectFailed(SESSION_IN_USE.to_owned())));
        }
        self.client_id = None;
        self.advice = Advice::default();
        self.backoff_ms = self.policy.first_delay();
        self.attempts = 0;
        if self.opened {
            self.stage = Stage::Reopening(url);
            Action::Close
        } else {
            self.stage = Stage::Opening;
            Action::Open(url)
        }
    }

    /// Ends the session.
    pub fn begin_disconnect(&mut self, extensions: &Option<HashMap<String, Value>>) -> (action:
        Action)
        ensures
            old(self)@.begin_disconnect(extensions_view(*extensions)).next == final(self)@,
            old(self)@.begin_disconnect(extensions_view(*extensions)).action == action@,
            old(self)@.wf() ==> final(self)@.wf(),
    {
        let name = self.client_id.take();
        if !self.opened {
            self.stage = Stage::Idle;
            return Action::Finished(Ok(()));
        }
        match name {
            Some(id) => {
                self.stage = Stage::Disconnecting;
                Action::Send(MessageBuilder::create_disconnect(id, extensions))
            },
            None => {
                self.stage = Stage::Closing(None);
                Action::Close
            },
        }
    }

    /// A copy of the client's name, if the session is established and idle.
    fn ready(&self) -> (r: Option<String>)
        ensures
            r.deep_view() == self@.ready(),
    {
        match &self.stage {
            Stage::Connected => clone_text(&self.client_id),
            _ => None,
        }
    }

    /// Starts a subscription to `channels`.
    pub fn begin_subscribe(
        &mut self,
        channels: &Vec<String>,
        extensions: &Option<HashMap<String, Value>>,
    ) -> (action: Action)
        ensures
            old(self)@.begin_subscribe(
                channels.deep_view(),
                extensions_view(*extensions),
            ).next == final(self)@,
            old(self)@.begin_subscribe(
                channels.deep_view(),
                extensions_view(*extensions),
            ).action == action@,
            old(self)@.wf() ==> final(self)@.wf(),
    {
        match self.ready() {
            Some(id) => {
                self.stage = Stage::Subscribing;
                Action::Exchange(MessageBuilder::create_subscribe(id, channels, extensions))
            },
            None => Action::Finished(Err(FayeError::NotConnected)),
        }
    }

    /// Starts the end of a subscription to `channels`.
    pub fn begin_unsubscribe(
        &mut self,
        channels: &Vec<String>,
        extensions: &Option<HashMap<String, Value>>,
    ) -> (action: Action)
        ensures
            old(self)@.begin_unsubscribe(
                channels.deep_view(),
                extensions_view(*extensions),
            ).next == final(self)@,
            old(self)@.begin_unsubscribe(
                channels.deep_view(),
                extensions_view(*extensions),
            ).action == action@,
            old(self)@.wf() ==> final(self)@.wf(),
    {
        match self.ready() {
            Some(id) => {
                self.stage = Stage::Unsubscribing;
                Action::Exchange(MessageBuilder::create_unsubscribe(id, channels, extensions))
            },
            None => Action::Finished(Err(FayeError::NotConnected)),
        }
    }

    /// Starts the publication of `data` on `channel`.
    pub fn begin_publish(
        &mut self,
        channel: String,
        data: Value,
        extensions: &Option<HashMap<String, Value>>,
    ) -> (action: Action)
        ensures
            old(self)@.begin_publish(channel@, data, extensions_view(*extensions)).next
                == final(self)@,
            old(self)@.begin_publish(channel@, data, extensions_view(*extensions)).action
                == action@,
            old(self)@.wf() ==> final(self)@.wf(),
    {
        match self.ready() {
            Some(id) => {
                self.stage = Stage::Publishing;
                Action::Exchange(MessageBuilder::create_publish(id, channel, data, extensions))
            },
            None => Action::Finished(Err(FayeError::NotConnected)),
        }
    }
}

} // verus!
