use gitter::faye::bayeux::advice::{RetryPolicy, StopReason};
use gitter::faye::bayeux::message::{
    Advice, ConnectionType, Message, ReconnectType, TransportAdvice,
};
use gitter::faye::{
    Action, Event, FayeClient, FayeError, MessageHandler, Phase, SessionState, Stage,
    TransportFailure,
};
use std::cell::RefCell;

/// Remembers which callback saw which channel.
struct Recorder {
    seen: RefCell<Vec<(String, String)>>,
}

impl Recorder {
    fn new() -> Recorder {
        Recorder { seen: RefCell::new(Vec::new()) }
    }

    fn note(&self, callback: &str, msg: &Message) {
        self.seen.borrow_mut().push((callback.to_string(), msg.channel.clone()));
    }
}

impl MessageHandler for Recorder {
    fn on_connect(&self, msg: &Message) {
        self.note("connect", msg);
    }

    fn on_disconnect(&self, msg: &Message) {
        self.note("disconnect", msg);
    }

    fn on_error(&self, msg: &Message) {
        self.note("error", msg);
    }

    fn on_handshake(&self, msg: &Message) {
        self.note("handshake", msg);
    }

    fn on_subscribe(&self, msg: &Message) {
        self.note("subscribe", msg);
    }

    fn on_unsubscribe(&self, msg: &Message) {
        self.note("unsubscribe", msg);
    }

    fn on_message(&self, msg: &Message) {
        self.note("message", msg);
    }
}

/// A handler that overrides nothing.
struct Silent;

impl MessageHandler for Silent {}

fn seen(client: &FayeClient<Recorder>) -> Vec<(String, String)> {
    client.handler().seen.borrow().clone()
}

fn pair(callback: &str, channel: &str) -> (String, String) {
    (callback.to_string(), channel.to_string())
}

fn reply(channel: &str, successful: bool) -> Message {
    Message { channel: channel.to_string(), successful: Some(successful), ..Message::default() }
}

fn refusal(channel: &str, error: &str) -> Message {
    Message { error: Some(error.to_string()), ..reply(channel, false) }
}

fn handshake_reply(client_id: &str) -> Message {
    Message { client_id: Some(client_id.to_string()), ..reply("/meta/handshake", true) }
}

fn with_reconnect(msg: Message, reconnect: ReconnectType) -> Message {
    Message { advice: Some(Advice { reconnect: Some(reconnect), ..Advice::default() }), ..msg }
}

fn endpoint() -> String {
    "wss://ws.example.org/bayeux".to_string()
}

fn sent(action: Action) -> Message {
    match action {
        Action::Exchange(msg) => msg,
        Action::Send(msg) => msg,
        other => panic!("no message in {:?}", other),
    }
}

/// A client that has opened its transport and sent the handshake.
fn handshaking() -> FayeClient<Recorder> {
    let mut client = FayeClient::new(Recorder::new(), None);
    assert_eq!(client.connect(endpoint()), Action::Open(endpoint()));
    let handshake = sent(client.handle(Event::Opened));
    assert_eq!(handshake.channel, "/meta/handshake");
    client
}

/// A client that has been named `C1` and has sent its CONNECT.
fn connecting() -> FayeClient<Recorder> {
    let mut client = handshaking();
    let connect = sent(client.handle(Event::Response(handshake_reply("C1"))));
    assert_eq!(connect.channel, "/meta/connect");
    client
}

/// A client with an established session under the name `C1`.
fn connected() -> FayeClient<Recorder> {
    let mut client = connecting();
    let done = client.handle(Event::Response(reply("/meta/connect", true)));
    assert_eq!(done, Action::Finished(Ok(())));
    client
}

#[test]
fn new_client_is_idle() {
    let client = FayeClient::new(Silent, None);
    assert!(!client.is_connected());
    assert!(!client.is_opened());
    assert_eq!(*client.state().stage(), Stage::Idle);
    assert_eq!(client.state().phase(), Phase::Idle);
    assert_eq!(*client.state().client_id(), None);
    assert_eq!(client.state().policy(), RetryPolicy::new());
    assert_eq!(client.state().backoff_ms(), 1000);
    assert_eq!(client.state().attempts(), 0);
}

#[test]
fn new_session_state_is_idle() {
    let state = SessionState::new();
    assert_eq!(*state.stage(), Stage::Idle);
    assert!(!state.opened());
    assert!(!state.connected());
    assert!(!state.connecting());
    assert!(!state.handshake());
    assert_eq!(*state.advice(), Advice::default());
    assert_eq!(state.deadline_ms(), None);
}

#[test]
fn connect_handshakes_then_connects() {
    let mut client = FayeClient::new(Recorder::new(), None);

    let open = client.connect(endpoint());
    assert_eq!(open, Action::Open(endpoint()));
    assert!(!client.is_connected());
    assert!(!client.is_opened());
    assert_eq!(client.state().phase(), Phase::Handshaking);

    let handshake = sent(client.handle(Event::Opened));
    assert_eq!(handshake.channel, "/meta/handshake");
    assert_eq!(handshake.version, Some("1.0".to_string()));
    assert_eq!(handshake.supported_connection_types, Some(vec![ConnectionType::Websocket]));
    assert_eq!(handshake.client_id, None);
    assert!(client.is_opened());

    let connect = sent(client.handle(Event::Response(handshake_reply("C1"))));
    assert_eq!(connect.channel, "/meta/connect");
    assert_eq!(connect.client_id, Some("C1".to_string()));
    assert_eq!(connect.connection_type, Some(ConnectionType::Websocket));
    assert!(!client.is_connected());
    assert_eq!(client.state().phase(), Phase::Connecting);
    assert_eq!(*client.state().client_id(), Some("C1".to_string()));

    let done = client.handle(Event::Response(reply("/meta/connect", true)));
    assert_eq!(done, Action::Finished(Ok(())));
    assert!(client.is_connected());
    assert!(client.is_opened());
    assert_eq!(client.state().phase(), Phase::Connected);
    assert_eq!(
        seen(&client),
        vec![pair("handshake", "/meta/handshake"), pair("connect", "/meta/connect")]
    );
}

#[test]
fn refused_subscription_keeps_the_session() {
    let mut client = connected();
    let request = sent(client.subscribe(&vec!["/chat/room1".to_string()]));
    assert_eq!(request.channel, "/meta/subscribe");
    assert_eq!(request.client_id, Some("C1".to_string()));
    assert_eq!(request.subscriptions, Some(vec!["/chat/room1".to_string()]));

    let done = client.handle(Event::Response(refusal("/meta/subscribe", "denied")));
    assert_eq!(done, Action::Finished(Err(FayeError::SubscribeFailed("denied".to_string()))));
    assert!(client.is_connected());
    assert_eq!(*client.state().stage(), Stage::Connected);
    assert_eq!(seen(&client).len(), 2);
}

#[test]
fn refused_unsubscription_keeps_the_session() {
    let mut client = connected();
    let request = sent(client.unsubscribe(&vec!["/chat/room1".to_string()]));
    assert_eq!(request.channel, "/meta/unsubscribe");
    let done = client.handle(Event::Response(refusal("/meta/unsubscribe", "unknown channel")));
    assert_eq!(
        done,
        Action::Finished(Err(FayeError::UnsubscribeFailed("unknown channel".to_string())))
    );
    assert!(client.is_connected());
}

#[test]
fn refusal_without_error_text_has_empty_reason() {
    let mut client = connected();
    sent(client.subscribe(&vec!["/a".to_string()]));
    let done = client.handle(Event::Response(reply("/meta/subscribe", false)));
    assert_eq!(done, Action::Finished(Err(FayeError::SubscribeFailed(String::new()))));
}

#[test]
fn response_without_success_flag_counts_as_refused() {
    let mut client = connected();
    sent(client.subscribe(&vec!["/a".to_string()]));
    let msg = Message { channel: "/meta/subscribe".to_string(), ..Message::default() };
    let done = client.handle(Event::Response(msg));
    assert_eq!(done, Action::Finished(Err(FayeError::SubscribeFailed(String::new()))));
}

#[test]
fn handshake_without_client_id_fails() {
    let mut client = handshaking();
    let done = client.handle(Event::Response(reply("/meta/handshake", true)));
    assert_eq!(
        done,
        Action::Finished(Err(FayeError::HandshakeFailed("missing client id".to_string())))
    );
    assert!(!client.is_connected());
    assert_eq!(*client.state().stage(), Stage::Failed);
    assert_eq!(client.state().phase(), Phase::Failed);
    assert!(seen(&client).is_empty());
}

#[test]
fn refused_handshake_fails_with_the_servers_reason() {
    let mut client = handshaking();
    let done = client.handle(Event::Response(refusal("/meta/handshake", "403::forbidden")));
    assert_eq!(
        done,
        Action::Finished(Err(FayeError::HandshakeFailed("403::forbidden".to_string())))
    );
    assert_eq!(*client.state().stage(), Stage::Failed);
    assert!(client.state().opened());
    assert!(!client.is_opened());
}

#[test]
fn refused_handshake_on_another_channel_fails_the_same_way() {
    let mut client = handshaking();
    let done = client.handle(Event::Response(refusal("/meta/connect", "out of order")));
    assert_eq!(
        done,
        Action::Finished(Err(FayeError::HandshakeFailed("out of order".to_string())))
    );
}

#[test]
fn connect_after_failed_handshake_closes_the_old_transport_first() {
    let mut client = handshaking();
    client.handle(Event::Response(refusal("/meta/handshake", "no")));
    assert_eq!(client.connect(endpoint()), Action::Close);
    assert_eq!(*client.state().stage(), Stage::Reopening(endpoint()));
    assert_eq!(client.handle(Event::Closed), Action::Open(endpoint()));
    assert!(!client.state().opened());
    let handshake = sent(client.handle(Event::Opened));
    assert_eq!(handshake.channel, "/meta/handshake");
}

#[test]
fn open_failure_is_reported() {
    let mut client = FayeClient::new(Silent, None);
    client.connect(endpoint());
    let done = client.handle(Event::OpenFailed("refused".to_string()));
    assert_eq!(
        done,
        Action::Finished(Err(FayeError::TransportError(TransportFailure::Open(
            "refused".to_string()
        ))))
    );
    assert_eq!(*client.state().stage(), Stage::Failed);
    assert!(!client.state().opened());
}

#[test]
fn connect_on_a_session_in_use_is_turned_down() {
    let mut client = connected();
    let done = client.connect(endpoint());
    assert_eq!(
        done,
        Action::Finished(Err(FayeError::ConnectFailed("session already in use".to_string())))
    );
    assert!(client.is_connected());
}

#[test]
fn operations_before_a_session_fail_fast() {
    let mut client = FayeClient::new(Silent, None);
    assert_eq!(
        client.subscribe(&vec!["/a".to_string()]),
        Action::Finished(Err(FayeError::NotConnected))
    );
    assert_eq!(
        client.unsubscribe(&vec!["/a".to_string()]),
        Action::Finished(Err(FayeError::NotConnected))
    );
    assert_eq!(
        client.publish("/a".to_string(), serde_json::Value::Null),
        Action::Finished(Err(FayeError::NotConnected))
    );
    assert_eq!(*client.state().stage(), Stage::Idle);
}

#[test]
fn operations_before_the_connect_response_fail_fast() {
    let mut client = connecting();
    assert_eq!(
        client.subscribe(&vec!["/a".to_string()]),
        Action::Finished(Err(FayeError::NotConnected))
    );
    assert_eq!(*client.state().stage(), Stage::Connecting);
}

#[test]
fn second_request_waits_for_the_first_response() {
    let mut client = connected();
    sent(client.subscribe(&vec!["/a".to_string()]));
    assert_eq!(
        client.unsubscribe(&vec!["/b".to_string()]),
        Action::Finished(Err(FayeError::NotConnected))
    );
    assert_eq!(*client.state().stage(), Stage::Subscribing);
}

#[test]
fn empty_subscription_list_is_sent() {
    let mut client = connected();
    let request = sent(client.subscribe(&Vec::new()));
    assert_eq!(request.channel, "/meta/subscribe");
    assert_eq!(request.subscriptions, Some(Vec::new()));
    let done = client.handle(Event::Response(reply("/meta/subscribe", true)));
    assert_eq!(done, Action::Finished(Ok(())));
}

#[test]
fn responses_reach_the_handler_in_call_order() {
    let mut client = connected();
    let calls = [true, false, false, true, true];
    let mut expected = vec![pair("handshake", "/meta/handshake"), pair("connect", "/meta/connect")];
    for (i, subscribe) in calls.iter().enumerate() {
        let channels = vec![format!("/room/{}", i)];
        let (request, channel, callback) = if *subscribe {
            (client.subscribe(&channels), "/meta/subscribe", "subscribe")
        } else {
            (client.unsubscribe(&channels), "/meta/unsubscribe", "unsubscribe")
        };
        let request = sent(request);
        assert_eq!(request.channel, channel);
        assert_eq!(request.subscriptions, Some(channels));
        let done = client.handle(Event::Response(reply(channel, true)));
        assert_eq!(done, Action::Finished(Ok(())));
        expected.push(pair(callback, channel));
        assert_eq!(seen(&client), expected);
    }
}

#[test]
fn publish_returns_the_response() {
    let mut client = connected();
    let data = serde_json::Value::from(7);
    let request = sent(client.publish("/foo".to_string(), data.clone()));
    assert_eq!(request.channel, "/foo");
    assert_eq!(request.client_id, Some("C1".to_string()));
    assert_eq!(request.data, Some(data));
    assert_eq!(*client.state().stage(), Stage::Publishing);

    let response = Message { id: Some("9".to_string()), ..reply("/foo", true) };
    let done = client.handle(Event::Response(response.clone()));
    assert_eq!(done, Action::Published(response));
    assert!(client.is_connected());
    assert_eq!(seen(&client).last(), Some(&pair("message", "/foo")));
}

#[test]
fn refused_publish_is_returned_and_not_delivered() {
    let mut client = connected();
    sent(client.publish("/foo".to_string(), serde_json::Value::Null));
    let response = refusal("/foo", "too large");
    let done = client.handle(Event::Response(response.clone()));
    assert_eq!(done, Action::Published(response));
    assert!(client.is_connected());
    assert_eq!(seen(&client).len(), 2);
}

#[test]
fn unsolicited_message_is_delivered() {
    let mut client = connected();
    let delivery = Message {
        channel: "/chat/room1".to_string(),
        data: Some(serde_json::Value::from("hello")),
        ..Message::default()
    };
    assert_eq!(client.handle(Event::Response(delivery)), Action::Finished(Ok(())));
    assert_eq!(seen(&client).last(), Some(&pair("message", "/chat/room1")));
    assert!(client.is_connected());
}

#[test]
fn unexpected_event_is_a_protocol_error() {
    let mut client = FayeClient::new(Silent, None);
    assert_eq!(client.handle(Event::Opened), Action::Finished(Err(FayeError::ProtocolError)));
    assert_eq!(*client.state().stage(), Stage::Idle);

    let mut client = connected();
    assert_eq!(client.handle(Event::Waited), Action::Finished(Err(FayeError::ProtocolError)));
    assert!(client.is_connected());
}

#[test]
fn malformed_response_ends_the_session() {
    let mut client = connected();
    sent(client.subscribe(&vec!["/a".to_string()]));
    assert_eq!(client.handle(Event::Malformed), Action::Close);
    assert_eq!(client.state().phase(), Phase::Failed);
    assert!(!client.is_connected());
    assert_eq!(
        client.handle(Event::Closed),
        Action::Finished(Err(FayeError::ProtocolError))
    );
    assert_eq!(*client.state().stage(), Stage::Failed);
    assert!(!client.state().opened());
    assert_eq!(*client.state().client_id(), None);
}

#[test]
fn lost_transport_ends_the_session() {
    let mut client = connected();
    sent(client.subscribe(&vec!["/a".to_string()]));
    assert_eq!(client.handle(Event::ReceiveFailed), Action::Close);
    assert_eq!(
        client.handle(Event::Closed),
        Action::Finished(Err(FayeError::TransportError(TransportFailure::Receive)))
    );

    let mut client = handshaking();
    assert_eq!(client.handle(Event::SendFailed), Action::Close);
    assert_eq!(
        client.handle(Event::Closed),
        Action::Finished(Err(FayeError::TransportError(TransportFailure::Send)))
    );
    assert_eq!(*client.state().stage(), Stage::Failed);
}

#[test]
fn disconnect_sends_and_closes() {
    let mut client = connected();
    let request = sent(client.disconnect());
    assert_eq!(request.channel, "/meta/disconnect");
    assert_eq!(request.client_id, Some("C1".to_string()));
    assert!(!client.is_connected());
    assert!(!client.is_opened());
    assert_eq!(client.state().phase(), Phase::Disconnecting);

    assert_eq!(client.handle(Event::Sent), Action::Close);
    assert_eq!(client.handle(Event::Closed), Action::Finished(Ok(())));
    assert!(!client.is_connected());
    assert!(!client.is_opened());
    assert_eq!(*client.state().stage(), Stage::Idle);
    assert_eq!(*client.state().client_id(), None);
}

#[test]
fn disconnect_ends_the_session_even_if_the_send_fails() {
    let mut client = connected();
    sent(client.disconnect());
    assert_eq!(client.handle(Event::SendFailed), Action::Close);
    assert_eq!(client.handle(Event::Closed), Action::Finished(Ok(())));
    assert!(!client.is_connected());
    assert!(!client.is_opened());
    assert!(!client.state().opened());
}

#[test]
fn disconnect_without_a_session_does_nothing() {
    let mut client = FayeClient::new(Silent, None);
    assert_eq!(client.disconnect(), Action::Finished(Ok(())));
    assert_eq!(*client.state().stage(), Stage::Idle);
}

#[test]
fn disconnect_during_the_handshake_only_closes() {
    let mut client = handshaking();
    assert_eq!(client.disconnect(), Action::Close);
    assert_eq!(client.handle(Event::Closed), Action::Finished(Ok(())));
    assert_eq!(*client.state().stage(), Stage::Idle);
}

#[test]
fn a_new_session_follows_a_disconnect() {
    let mut client = connected();
    sent(client.disconnect());
    client.handle(Event::Sent);
    client.handle(Event::Closed);
    assert_eq!(client.connect(endpoint()), Action::Open(endpoint()));
    sent(client.handle(Event::Opened));
    let connect = sent(client.handle(Event::Response(handshake_reply("C2"))));
    assert_eq!(connect.client_id, Some("C2".to_string()));
}

#[test]
fn reconnect_never_stops_for_good() {
    let mut client = connecting();
    let response = with_reconnect(refusal("/meta/connect", "gone"), ReconnectType::Never);
    assert_eq!(client.handle(Event::Response(response)), Action::Close);
    assert_eq!(
        client.handle(Event::Closed),
        Action::Finished(Err(FayeError::Terminal(StopReason::ReconnectNever)))
    );
    assert_eq!(*client.state().stage(), Stage::Failed);
    assert!(!client.is_connected());
    assert_eq!(*client.state().client_id(), None);
    assert_eq!(
        client.handle(Event::Waited),
        Action::Finished(Err(FayeError::ProtocolError))
    );
    assert_eq!(
        client.subscribe(&vec!["/a".to_string()]),
        Action::Finished(Err(FayeError::NotConnected))
    );
}

#[test]
fn reconnect_handshake_starts_over_without_the_old_name() {
    let mut client = connecting();
    let response = with_reconnect(refusal("/meta/connect", "unknown"), ReconnectType::Handshake);
    let handshake = sent(client.handle(Event::Response(response)));
    assert_eq!(handshake.channel, "/meta/handshake");
    assert_eq!(handshake.client_id, None);
    assert_eq!(*client.state().client_id(), None);
    assert_eq!(*client.state().stage(), Stage::Handshaking);
    assert_eq!(client.state().attempts(), 1);

    let connect = sent(client.handle(Event::Response(handshake_reply("C2"))));
    assert_eq!(connect.channel, "/meta/connect");
    assert_eq!(connect.client_id, Some("C2".to_string()));
}

#[test]
fn reconnect_retry_waits_for_the_interval() {
    let mut client = connecting();
    let advice = Advice {
        reconnect: Some(ReconnectType::Retry),
        interval: Some(2500),
        ..Advice::default()
    };
    let response = Message { advice: Some(advice), ..refusal("/meta/connect", "busy") };
    assert_eq!(client.handle(Event::Response(response)), Action::Wait(2500));
    assert_eq!(*client.state().stage(), Stage::Backoff);
    assert_eq!(client.state().backoff_ms(), 1000);

    let connect = sent(client.handle(Event::Waited));
    assert_eq!(connect.channel, "/meta/connect");
    assert_eq!(connect.client_id, Some("C1".to_string()));
    assert_eq!(*client.state().stage(), Stage::Connecting);
}

#[test]
fn retry_without_interval_backs_off() {
    let mut client = connecting();
    assert_eq!(
        client.handle(Event::Response(refusal("/meta/connect", "busy"))),
        Action::Wait(1000)
    );
    assert_eq!(client.state().backoff_ms(), 2000);
    sent(client.handle(Event::Waited));
    assert_eq!(client.handle(Event::ReceiveFailed), Action::Wait(2000));
    assert_eq!(client.state().backoff_ms(), 4000);
    sent(client.handle(Event::Waited));
    assert_eq!(client.handle(Event::SendFailed), Action::Wait(4000));
    assert_eq!(client.state().attempts(), 3);

    sent(client.handle(Event::Waited));
    let done = client.handle(Event::Response(reply("/meta/connect", true)));
    assert_eq!(done, Action::Finished(Ok(())));
    assert_eq!(client.state().backoff_ms(), 1000);
    assert_eq!(client.state().attempts(), 0);
    assert!(client.is_connected());
}

#[test]
fn negative_interval_stops_this_attempt_only() {
    let mut client = connecting();
    let advice = Advice { interval: Some(-1), ..Advice::default() };
    let response = Message { advice: Some(advice), ..refusal("/meta/connect", "busy") };
    assert_eq!(client.handle(Event::Response(response)), Action::Close);
    assert_eq!(client.state().advice().reconnect, None);
    assert_eq!(
        client.handle(Event::Closed),
        Action::Finished(Err(FayeError::Terminal(StopReason::NegativeInterval)))
    );
}

#[test]
fn attempts_run_out() {
    let policy = RetryPolicy { max_attempts: 2, ..RetryPolicy::new() };
    let mut client = FayeClient::with_policy(Silent, None, policy);
    client.connect(endpoint());
    client.handle(Event::Opened);
    client.handle(Event::Response(handshake_reply("C1")));
    assert_eq!(
        client.handle(Event::Response(refusal("/meta/connect", "busy"))),
        Action::Wait(1000)
    );
    client.handle(Event::Waited);
    assert_eq!(client.handle(Event::Response(refusal("/meta/connect", "still busy"))), Action::Close);
    assert_eq!(
        client.handle(Event::Closed),
        Action::Finished(Err(FayeError::ConnectFailed("still busy".to_string())))
    );
    assert_eq!(*client.state().stage(), Stage::Failed);
}

#[test]
fn transport_section_overrides_global_reconnect() {
    let mut client = connecting();
    let advice = Advice {
        reconnect: Some(ReconnectType::Never),
        websocket: Some(TransportAdvice {
            reconnect: Some(ReconnectType::Retry),
            timeout: None,
            interval: Some(10),
        }),
        ..Advice::default()
    };
    let response = Message { advice: Some(advice), ..refusal("/meta/connect", "busy") };
    assert_eq!(client.handle(Event::Response(response)), Action::Wait(10));
}

#[test]
fn advice_accumulates_over_responses() {
    let mut client = handshaking();
    let first = with_reconnect(handshake_reply("C1"), ReconnectType::Retry);
    client.handle(Event::Response(first));
    let advice = Advice { timeout: Some(5000), ..Advice::default() };
    let second = Message { advice: Some(advice), ..reply("/meta/connect", true) };
    client.handle(Event::Response(second));
    assert_eq!(client.state().advice().reconnect, Some(ReconnectType::Retry));
    assert_eq!(client.state().advice().timeout, Some(5000));
}

#[test]
fn connect_deadline_is_timeout_plus_grace() {
    let mut client = handshaking();
    let advice = Advice { timeout: Some(60000), ..Advice::default() };
    let response = Message { advice: Some(advice), ..handshake_reply("C1") };
    assert_eq!(client.state().deadline_ms(), None);
    client.handle(Event::Response(response));
    assert_eq!(client.state().deadline_ms(), Some(70000));
    client.handle(Event::Response(reply("/meta/connect", true)));
    assert_eq!(client.state().deadline_ms(), None);
}

#[test]
fn extensions_go_out_with_every_request() {
    let mut extensions = std::collections::HashMap::new();
    extensions.insert("token".to_string(), serde_json::Value::from("secret"));
    let mut client = FayeClient::new(Silent, Some(extensions.clone()));
    client.connect(endpoint());
    let handshake = sent(client.handle(Event::Opened));
    assert_eq!(handshake.extensions, Some(extensions.clone()));
    let connect = sent(client.handle(Event::Response(handshake_reply("C1"))));
    assert_eq!(connect.extensions, Some(extensions.clone()));
    client.handle(Event::Response(reply("/meta/connect", true)));
    let subscribe = sent(client.subscribe(&vec!["/a".to_string()]));
    assert_eq!(subscribe.extensions, Some(extensions.clone()));
    client.handle(Event::Response(reply("/meta/subscribe", true)));
    let disconnect = sent(client.disconnect());
    assert_eq!(disconnect.extensions, Some(extensions));
}

#[test]
fn session_state_can_be_driven_without_a_client() {
    let mut state = SessionState::with_policy(RetryPolicy::new());
    assert_eq!(state.begin_connect(endpoint()), Action::Open(endpoint()));
    let step = state.advance(Event::Opened, &None);
    assert_eq!(step.deliver, None);
    let step = state.advance(Event::Response(handshake_reply("C1")), &None);
    assert_eq!(step.deliver, Some(handshake_reply("C1")));
    let step = state.advance(Event::Response(reply("/meta/connect", true)), &None);
    assert_eq!(step.action, Action::Finished(Ok(())));
    assert!(state.is_connected());
    let action = state.begin_publish("/foo".to_string(), serde_json::Value::Null, &None);
    assert_eq!(sent(action).channel, "/foo");
    let step = state.advance(Event::Response(reply("/foo", true)), &None);
    assert_eq!(step.deliver, Some(reply("/foo", true)));
    let action = state.begin_unsubscribe(&vec!["/a".to_string()], &None);
    assert_eq!(sent(action).channel, "/meta/unsubscribe");
    state.advance(Event::Response(reply("/meta/unsubscribe", true)), &None);
    let action = state.begin_subscribe(&vec!["/a".to_string()], &None);
    assert_eq!(sent(action).channel, "/meta/subscribe");
    state.advance(Event::Response(reply("/meta/subscribe", true)), &None);
    assert_eq!(sent(state.begin_disconnect(&None)).channel, "/meta/disconnect");
}

#[test]
fn reconnect_never_on_an_accepted_connect_sends_no_connect_later() {
    let mut client = connecting();
    let response = with_reconnect(reply("/meta/connect", true), ReconnectType::Never);
    assert_eq!(client.handle(Event::Response(response)), Action::Finished(Ok(())));
    assert!(client.is_connected());
    let subscribe = sent(client.subscribe(&vec!["/a".to_string()]));
    assert_eq!(subscribe.channel, "/meta/subscribe");
    assert_eq!(client.handle(Event::ReceiveFailed), Action::Close);
    assert_eq!(
        client.handle(Event::Closed),
        Action::Finished(Err(FayeError::TransportError(TransportFailure::Receive)))
    );
    assert_eq!(client.handle(Event::Waited), Action::Finished(Err(FayeError::ProtocolError)));
    assert_eq!(*client.state().stage(), Stage::Failed);
}

#[test]
fn stored_advice_decides_when_the_transport_fails() {
    let mut client = handshaking();
    let named = with_reconnect(handshake_reply("C1"), ReconnectType::Handshake);
    sent(client.handle(Event::Response(named)));
    let handshake = sent(client.handle(Event::ReceiveFailed));
    assert_eq!(handshake.channel, "/meta/handshake");
    assert_eq!(handshake.client_id, None);
    assert_eq!(*client.state().client_id(), None);
}

#[test]
fn rehandshake_without_attempts_left_ends_the_session() {
    let policy = RetryPolicy { max_attempts: 1, ..RetryPolicy::new() };
    let mut client = FayeClient::with_policy(Recorder::new(), None, policy);
    client.connect(endpoint());
    client.handle(Event::Opened);
    client.handle(Event::Response(handshake_reply("C1")));
    let response = with_reconnect(refusal("/meta/connect", "unknown"), ReconnectType::Handshake);
    assert_eq!(client.handle(Event::Response(response)), Action::Close);
    assert_eq!(*client.state().client_id(), None);
    assert_eq!(
        client.handle(Event::Closed),
        Action::Finished(Err(FayeError::ConnectFailed("unknown".to_string())))
    );
    assert_eq!(client.connect(endpoint()), Action::Open(endpoint()));
    let first = sent(client.handle(Event::Opened));
    assert_eq!(first.channel, "/meta/handshake");
    assert_eq!(first.client_id, None);
}

#[test]
fn a_new_connect_forgets_the_old_advice() {
    let mut client = connecting();
    let response = with_reconnect(refusal("/meta/connect", "gone"), ReconnectType::Never);
    client.handle(Event::Response(response));
    client.handle(Event::Closed);
    assert_eq!(client.state().advice().reconnect, Some(ReconnectType::Never));
    client.connect(endpoint());
    assert_eq!(*client.state().advice(), Advice::default());
    assert_eq!(client.state().attempts(), 0);
    client.handle(Event::Opened);
    client.handle(Event::Response(handshake_reply("C3")));
    assert_eq!(
        client.handle(Event::Response(refusal("/meta/connect", "busy"))),
        Action::Wait(1000)
    );
}

#[test]
fn zero_attempts_allowed_gives_up_at_the_first_failure() {
    let policy = RetryPolicy { max_attempts: 0, ..RetryPolicy::new() };
    let mut client = FayeClient::with_policy(Silent, None, policy);
    client.connect(endpoint());
    client.handle(Event::Opened);
    client.handle(Event::Response(handshake_reply("C1")));
    assert_eq!(client.handle(Event::SendFailed), Action::Close);
    assert_eq!(
        client.handle(Event::Closed),
        Action::Finished(Err(FayeError::TransportError(TransportFailure::Send)))
    );
}

#[test]
fn malformed_connect_response_is_not_retried() {
    let mut client = connecting();
    assert_eq!(client.handle(Event::Malformed), Action::Close);
    assert_eq!(client.handle(Event::Closed), Action::Finished(Err(FayeError::ProtocolError)));
}

#[test]
fn phases_of_a_session() {
    let mut client = FayeClient::new(Silent, None);
    assert_eq!(client.state().phase(), Phase::Idle);
    client.connect(endpoint());
    assert_eq!(client.state().phase(), Phase::Handshaking);
    client.handle(Event::Opened);
    assert_eq!(client.state().phase(), Phase::Handshaking);
    client.handle(Event::Response(handshake_reply("C1")));
    assert_eq!(client.state().phase(), Phase::Connecting);
    client.handle(Event::Response(refusal("/meta/connect", "busy")));
    assert_eq!(client.state().phase(), Phase::Connecting);
    client.handle(Event::Waited);
    client.handle(Event::Response(reply("/meta/connect", true)));
    assert_eq!(client.state().phase(), Phase::Connected);
    client.subscribe(&vec!["/a".to_string()]);
    assert_eq!(client.state().phase(), Phase::Connected);
    client.handle(Event::Response(reply("/meta/subscribe", true)));
    client.disconnect();
    assert_eq!(client.state().phase(), Phase::Disconnecting);
    client.handle(Event::Sent);
    assert_eq!(client.state().phase(), Phase::Disconnecting);
    client.handle(Event::Closed);
    assert_eq!(client.state().phase(), Phase::Idle);
}
