//! Advice: how it accumulates, and what it asks of a client whose connect
//! attempt has failed.

use crate::faye::bayeux::message::{
    Advice, AdviceView, ConnectionType, ReconnectType, TransportAdvice,
};
use vstd::prelude::*;

verus! {

/// The newer value where there is one, else the older.
pub open spec fn newer_or<T>(older: Option<T>, newer: Option<T>) -> Option<T> {
    if newer is Some {
        newer
    } else {
        older
    }
}

impl TransportAdvice {
    /// `older` with every field that `newer` states taken from `newer`.
    pub open spec fn merged(older: TransportAdvice, newer: TransportAdvice) -> TransportAdvice {
        TransportAdvice {
            reconnect: newer_or(older.reconnect, newer.reconnect),
            timeout: newer_or(older.timeout, newer.timeout),
            interval: newer_or(older.interval, newer.interval),
        }
    }

    /// Field by field, what `newer` states replaces what `older` held.
    pub fn merge(older: TransportAdvice, newer: TransportAdvice) -> (r: TransportAdvice)
        ensures
            r == Self::merged(older, newer),
    {
        TransportAdvice {
            reconnect: if newer.reconnect.is_some() {
                newer.reconnect
            } else {
                older.reconnect
            },
            timeout: if newer.timeout.is_some() {
                newer.timeout
            } else {
                older.timeout
            },
            interval: if newer.interval.is_some() {
                newer.interval
            } else {
                older.interval
            },
        }
    }
}

/// The merge of a transport's section: an absent section changes nothing.
pub open spec fn merged_section(
    older: Option<TransportAdvice>,
    newer: Option<TransportAdvice>,
) -> Option<TransportAdvice> {
    match newer {
        None => older,
        Some(n) => match older {
            None => Some(n),
            Some(o) => Some(TransportAdvice::merged(o, n)),
        },
    }
}

/// Merges a transport's section into the one held so far.
pub fn merge_section(older: Option<TransportAdvice>, newer: Option<TransportAdvice>) -> (r:
    Option<TransportAdvice>)
    ensures
        r == merged_section(older, newer),
{
    match newer {
        None => older,
        Some(n) => match older {
            None => Some(n),
            Some(o) => Some(TransportAdvice::merge(o, n)),
        },
    }
}

impl AdviceView {
    /// `self` with every field that `newer` states taken from `newer`; a
    /// field that `newer` leaves out keeps its last known value.
    pub open spec fn merged(self, newer: AdviceView) -> AdviceView {
        AdviceView {
            reconnect: newer_or(self.reconnect, newer.reconnect),
            timeout: newer_or(self.timeout, newer.timeout),
            interval: newer_or(self.interval, newer.interval),
            multiple_clients: newer_or(self.multiple_clients, newer.multiple_clients),
            hosts: newer_or(self.hosts, newer.hosts),
            callback_polling: merged_section(self.callback_polling, newer.callback_polling),
            long_polling: merged_section(self.long_polling, newer.long_polling),
            websocket: merged_section(self.websocket, newer.websocket),
            flash: merged_section(self.flash, newer.flash),
            iframe: merged_section(self.iframe, newer.iframe),
        }
    }

    /// The section that applies to `transport` only.
    pub open spec fn section(self, transport: ConnectionType) -> Option<TransportAdvice> {
        match transport {
            ConnectionType::LongPolling => self.long_polling,
            ConnectionType::CallbackPolling => self.callback_polling,
            ConnectionType::Iframe => self.iframe,
            ConnectionType::Flash => self.flash,
            ConnectionType::Websocket => self.websocket,
        }
    }

    /// The reconnect policy for `transport`: its own where its section states
    /// one, else the global one, else `Retry`.
    pub open spec fn effective_reconnect(self, transport: ConnectionType) -> ReconnectType {
        match self.section(transport) {
            Some(TransportAdvice { reconnect: Some(r), .. }) => r,
            _ => match self.reconnect {
                Some(r) => r,
                None => ReconnectType::Retry,
            },
        }
    }

    /// The interval for `transport`: its own where its section states one,
    /// else the global one.
    pub open spec fn effective_interval(self, transport: ConnectionType) -> Option<i32> {
        match self.section(transport) {
            Some(TransportAdvice { interval: Some(i), .. }) => Some(i),
            _ => self.interval,
        }
    }

    /// The timeout for `transport`: its own where its section states one,
    /// else the global one.
    pub open spec fn effective_timeout(self, transport: ConnectionType) -> Option<u32> {
        match self.section(transport) {
            Some(TransportAdvice { timeout: Some(t), .. }) => Some(t),
            _ => self.timeout,
        }
    }
}

impl Advice {
    /// Takes over every field that `newer` states and keeps the others.
    pub fn merge(&mut self, newer: Advice)
        ensures
            final(self)@ == old(self)@.merged(newer@),
    {
        if newer.reconnect.is_some() {
            self.reconnect = newer.reconnect;
        }
        if newer.timeout.is_some() {
            self.timeout = newer.timeout;
        }
        if newer.interval.is_some() {
            self.interval = newer.interval;
        }
        if newer.multiple_clients.is_some() {
            self.multiple_clients = newer.multiple_clients;
        }
        if newer.hosts.is_some() {
            self.hosts = newer.hosts;
        }
        self.callback_polling = merge_section(self.callback_polling, newer.callback_polling);
        self.long_polling = merge_section(self.long_polling, newer.long_polling);
        self.websocket = merge_section(self.websocket, newer.websocket);
        self.flash = merge_section(self.flash, newer.flash);
        self.iframe = merge_section(self.iframe, newer.iframe);
    }

    /// The section that applies to `transport` only.
    pub fn section(&self, transport: ConnectionType) -> (r: Option<TransportAdvice>)
        ensures
            r == self@.section(transport),
    {
        match transport {
            ConnectionType::LongPolling => self.long_polling,
            ConnectionType::CallbackPolling => self.callback_polling,
            ConnectionType::Iframe => self.iframe,
            ConnectionType::Flash => self.flash,
            ConnectionType::Websocket => self.websocket,
        }
    }

    /// The reconnect policy that holds for `transport`.
    pub fn effective_reconnect(&self, transport: ConnectionType) -> (r: ReconnectType)
        ensures
            r == self@.effective_reconnect(transport),
    {
        match self.section(transport) {
            Some(TransportAdvice { reconnect: Some(r), .. }) => r,
            _ => match self.reconnect {
                Some(r) => r,
                None => ReconnectType::Retry,
            },
        }
    }

    /// The interval that holds for `transport`.
    pub fn effective_interval(&self, transport: ConnectionType) -> (r: Option<i32>)
        ensures
            r == self@.effective_interval(transport),
    {
        match self.section(transport) {
            Some(TransportAdvice { interval: Some(i), .. }) => Some(i),
            _ => self.interval,
        }
    }

    /// The timeout that holds for `transport`.
    pub fn effective_timeout(&self, transport: ConnectionType) -> (r: Option<u32>)
        ensures
            r == self@.effective_timeout(transport),
    {
        match self.section(transport) {
            Some(TransportAdvice { timeout: Some(t), .. }) => Some(t),
            _ => self.timeout,
        }
    }
}

/// Which advice made the client stop.
#[derive(Debug, Clone, Copy, PartialEq, Eq, Structural)]
pub enum StopReason {
    /// The reconnect policy is `Never`.
    ReconnectNever,
    /// The policy is `Retry` but the interval is negative.
    NegativeInterval,
}

/// What to do after a connect attempt has failed.
#[derive(Debug, Clone, Copy, PartialEq, Eq, Structural)]
pub enum Decision {
    /// Wait this many milliseconds, then send CONNECT again with the same
    /// client id.
    Retry(u32),
    /// The session is dead: forget the client id and start at the handshake.
    Handshake,
    /// Give up and report to the caller.
    Stop(StopReason),
}

/// The client's own delays between connect attempts, for a server that has
/// never stated an interval: they grow from `floor_ms` by `factor` up to
/// `ceiling_ms`. After `max_attempts` failures in a row the client gives up.
/// A response to CONNECT may take `grace_ms` longer than the server's stated
/// timeout before the attempt counts as failed.
#[derive(Debug, Clone, Copy, PartialEq, Eq, Structural)]
pub struct RetryPolicy {
    pub floor_ms: u32,
    pub ceiling_ms: u32,
    pub factor: u32,
    pub max_attempts: u32,
    pub grace_ms: u32,
}

impl RetryPolicy {
    /// One second at first, doubling up to thirty seconds, five attempts,
    /// ten seconds of grace.
    pub open spec fn standard() -> RetryPolicy {
        RetryPolicy {
            floor_ms: 1000,
            ceiling_ms: 30000,
            factor: 2,
            max_attempts: 5,
            grace_ms: 10000,
        }
    }

    /// `delay_ms` brought into the policy's bounds; the floor wins where the
    /// bounds contradict each other.
    pub open spec fn bounded(self, delay_ms: int) -> u32 {
        if delay_ms <= self.floor_ms || self.ceiling_ms <= self.floor_ms {
            self.floor_ms
        } else if delay_ms >= self.ceiling_ms {
            self.ceiling_ms
        } else {
            delay_ms as u32
        }
    }

    /// The delay that follows `current_ms`.
    pub open spec fn next_delay(self, current_ms: u32) -> u32 {
        self.bounded(current_ms * self.factor)
    }

    /// The policy that a client has unless it is given another.
    pub fn new() -> (r: RetryPolicy)
        ensures
            r == Self::standard(),
    {
        RetryPolicy {
            floor_ms: 1000,
            ceiling_ms: 30000,
            factor: 2,
            max_attempts: 5,
            grace_ms: 10000,
        }
    }

    /// The first delay, and the delay after any successful connect.
    pub fn first_delay(&self) -> (r: u32)
        ensures
            r == self.floor_ms,
    {
        self.floor_ms
    }

    /// The delay to use after `current_ms` has been used.
    pub fn advance(&self, current_ms: u32) -> (r: u32)
        ensures
            r == self.next_delay(current_ms),
    {
        let grown: u64 = match (current_ms as u64).checked_mul(self.factor as u64) {
            Some(product) => product,
            None => u64::MAX,
        };
        assert(current_ms * self.factor <= 0xffff_ffff * 0xffff_ffff) by (nonlinear_arith)
            requires
                0 <= current_ms <= 0xffff_ffff,
                0 <= self.factor <= 0xffff_ffff,
        ;
        if grown <= self.floor_ms as u64 || self.ceiling_ms <= self.floor_ms {
            self.floor_ms
        } else if grown >= self.ceiling_ms as u64 {
            self.ceiling_ms
        } else {
            grown as u32
        }
    }
}

/// Reads the merged advice after a failed connect attempt.
pub struct AdviceInterpreter;

impl AdviceInterpreter {
    /// What the advice asks for on `transport`. `Handshake` and `Never` are
    /// obeyed as they stand. Under `Retry` a negative interval stops this
    /// attempt, a stated interval is the delay, and without one the delay is
    /// the client's own `backoff_ms`.
    pub open spec fn decision(
        advice: AdviceView,
        transport: ConnectionType,
        backoff_ms: u32,
    ) -> Decision {
        match advice.effective_reconnect(transport) {
            ReconnectType::Handshake => Decision::Handshake,
            ReconnectType::Never => Decision::Stop(StopReason::ReconnectNever),
            ReconnectType::Retry => match advice.effective_interval(transport) {
                Some(interval) => if interval < 0 {
                    Decision::Stop(StopReason::NegativeInterval)
                } else {
                    Decision::Retry(interval as u32)
                },
                None => Decision::Retry(backoff_ms),
            },
        }
    }

    /// Decides what follows a failed connect attempt on `transport`.
    pub fn decide(advice: &Advice, transport: ConnectionType, backoff_ms: u32) -> (r: Decision)
        ensures
            r == Self::decision(advice@, transport, backoff_ms),
    {
        match advice.effective_reconnect(transport) {
            ReconnectType::Handshake => Decision::Handshake,
            ReconnectType::Never => Decision::Stop(StopReason::ReconnectNever),
            ReconnectType::Retry => match advice.effective_interval(transport) {
                Some(interval) => if interval < 0 {
                    Decision::Stop(StopReason::NegativeInterval)
                } else {
                    Decision::Retry(interval as u32)
                },
                None => Decision::Retry(backoff_ms),
            },
        }
    }
}

/// A field that the newer advice leaves out keeps its value, and a field
/// that it states takes the stated value.
pub proof fn lemma_merge_field_by_field(older: AdviceView, newer: AdviceView)
    ensures
        older.merged(newer).reconnect == (if newer.reconnect is Some {
            newer.reconnect
        } else {
            older.reconnect
        }),
        older.merged(newer).timeout == (if newer.timeout is Some {
            newer.timeout
        } else {
            older.timeout
        }),
        older.merged(newer).interval == (if newer.interval is Some {
            newer.interval
        } else {
            older.interval
        }),
        older.merged(newer).multiple_clients == (if newer.multiple_clients is Some {
            newer.multiple_clients
        } else {
            older.multiple_clients
        }),
        older.merged(newer).hosts == (if newer.hosts is Some {
            newer.hosts
        } else {
            older.hosts
        }),
        forall|transport: ConnectionType| #[trigger]
            newer.section(transport) is None ==> older.merged(newer).section(transport)
                == older.section(transport),
{
}

/// Advice that says nothing changes nothing, whichever side it is merged
/// from.
pub proof fn lemma_merge_blank(advice: AdviceView)
    ensures
        advice.merged(AdviceView::blank()) == advice,
        AdviceView::blank().merged(advice) == advice,
{
}

/// Merging three advices gives the same result however they are grouped.
pub proof fn lemma_merge_associative(a: AdviceView, b: AdviceView, c: AdviceView)
    ensures
        a.merged(b).merged(c) == a.merged(b.merged(c)),
{
}

/// A policy that a server has stated for a transport decides for that
/// transport whatever the global policy says, and for no other transport.
pub proof fn lemma_section_overrides_global(
    advice: AdviceView,
    transport: ConnectionType,
    other: ConnectionType,
)
    requires
        advice.section(transport) matches Some(s) && s.reconnect is Some,
        advice.section(other) is None,
    ensures
        Some(advice.effective_reconnect(transport)) == advice.section(transport).unwrap().reconnect,
        advice.effective_reconnect(other) == (match advice.reconnect {
            Some(r) => r,
            None => ReconnectType::Retry,
        }),
{
}

/// What the newer advice states as its global reconnect policy is the
/// policy that holds for a transport after the merge, unless a section of
/// that transport states a policy of its own.
pub proof fn lemma_stated_reconnect_holds(
    older: AdviceView,
    newer: AdviceView,
    transport: ConnectionType,
)
    requires
        newer.reconnect is Some,
        older.merged(newer).section(transport) matches Some(s) ==> s.reconnect is None,
    ensures
        Some(older.merged(newer).effective_reconnect(transport)) == newer.reconnect,
{
}

/// The client's own delay never leaves the policy's bounds.
pub proof fn lemma_delay_within_bounds(policy: RetryPolicy, current_ms: u32)
    requires
        policy.floor_ms <= policy.ceiling_ms,
    ensures
        policy.floor_ms <= policy.next_delay(current_ms) <= policy.ceiling_ms,
{
}

/// The client's own delay does not shrink while it stays within the bounds.
pub proof fn lemma_delay_grows(policy: RetryPolicy, current_ms: u32)
    requires
        policy.floor_ms <= current_ms <= policy.ceiling_ms,
        policy.factor >= 1,
    ensures
        current_ms <= policy.next_delay(current_ms),
{
    assert(current_ms * policy.factor >= current_ms) by (nonlinear_arith)
        requires
            policy.factor >= 1,
            current_ms >= 0,
    ;
}

} // verus!
