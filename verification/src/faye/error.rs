//! What can go wrong in a session.

use crate::faye::bayeux::advice::StopReason;
use vstd::prelude::*;

verus! {

/// The transport operation that failed.
#[derive(Debug, Clone, PartialEq, Eq)]
pub enum TransportFailure {
    /// No connection could be opened; the text says why.
    Open(String),
    /// A message could not be written.
    Send,
    /// No response could be read, or the connection was closed meanwhile.
    Receive,
}

/// What a [`TransportFailure`] holds.
pub enum TransportFailureView {
    Open(Seq<char>),
    Send,
    Receive,
}

impl View for TransportFailure {
    type V = TransportFailureView;

    open spec fn view(&self) -> TransportFailureView {
        match self {
            TransportFailure::Open(why) => TransportFailureView::Open(why@),
            TransportFailure::Send => TransportFailureView::Send,
            TransportFailure::Receive => TransportFailureView::Receive,
        }
    }
}

/// Why an operation of the client failed.
#[derive(Debug, Clone, PartialEq, Eq)]
pub enum FayeError {
    /// The transport failed to open, send or receive.
    TransportError(TransportFailure),
    /// A response could not be decoded, or an event came that the session
    /// was not waiting for.
    ProtocolError,
    /// The server refused the handshake, or sent no client id.
    HandshakeFailed(String),
    /// The server refused the connect, or the session was not ready for one.
    ConnectFailed(String),
    /// The server refused the subscription.
    SubscribeFailed(String),
    /// The server refused to end the subscription.
    UnsubscribeFailed(String),
    /// The operation needs an established session and there is none.
    NotConnected,
    /// The server's advice forbids another attempt.
    Terminal(StopReason),
}

/// What a [`FayeError`] holds.
pub enum FayeErrorView {
    TransportError(TransportFailureView),
    ProtocolError,
    HandshakeFailed(Seq<char>),
    ConnectFailed(Seq<char>),
    SubscribeFailed(Seq<char>),
    UnsubscribeFailed(Seq<char>),
    NotConnected,
    Terminal(StopReason),
}

impl View for FayeError {
    type V = FayeErrorView;

    open spec fn view(&self) -> FayeErrorView {
        match self {
            FayeError::TransportError(failure) => FayeErrorView::TransportError(failure@),
            FayeError::ProtocolError => FayeErrorView::ProtocolError,
            FayeError::HandshakeFailed(why) => FayeErrorView::HandshakeFailed(why@),
            FayeError::ConnectFailed(why) => FayeErrorView::ConnectFailed(why@),
            FayeError::SubscribeFailed(why) => FayeErrorView::SubscribeFailed(why@),
            FayeError::UnsubscribeFailed(why) => FayeErrorView::UnsubscribeFailed(why@),
            FayeError::NotConnected => FayeErrorView::NotConnected,
            FayeError::Terminal(why) => FayeErrorView::Terminal(*why),
        }
    }
}

/// The result of an operation that returns nothing.
pub open spec fn outcome_view(result: Result<(), FayeError>) -> Result<(), FayeErrorView> {
    match result {
        Ok(()) => Ok(()),
        Err(error) => Err(error@),
    }
}

} // verus!
