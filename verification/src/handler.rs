//! The connection handler state machine: one per inbound connection.
//!
//! It owns the bounded operation pool, turns connection-level events into
//! pool admissions, and turns pool completions into upward events for the
//! owning behaviour layer — at most one per poll, each exactly once.

use vstd::prelude::*;

use crate::exchange::{Exchange, ExchangeView, StreamEvent};
use crate::pool::{
    first_ready, has_op, spec_admit, spec_deliver, spec_fresh_exchange, spec_outcome,
    CompletionResult, Pool, PoolView,
};
use crate::protocol::{dial_back_protocol, spec_dial_back_protocol};
use crate::IoErrorKind;
use crate::Nonce;

verus! {

/// A sensible default for the per-operation deadline, in milliseconds.
pub const DEFAULT_TIMEOUT_MS: u64 = 5000;

/// A sensible default for the number of concurrently admitted operations.
pub const DEFAULT_MAX_CONCURRENT_REQUESTS: usize = 10;

/// The connection-level events this handler reacts to. Only the first two
/// variants mean anything to it; everything else a connection can report is
/// the ignored remainder.
#[derive(Clone, Copy, Debug, PartialEq, Eq, Structural)]
pub enum ConnectionEvent {
    /// An inbound substream finished negotiating the dial-back protocol;
    /// `id` is the caller's name for the negotiated stream.
    FullyNegotiatedInbound { id: u64 },
    /// An inbound negotiation failed: protocol mismatch or a transport-level
    /// negotiation error.
    ListenUpgradeError,
    /// Any other connection-level event kind.
    Other,
}

/// What an upward event reports for one completed operation.
pub open spec fn spec_to_behaviour(c: CompletionResult) -> Result<Nonce, IoErrorKind> {
    match c {
        CompletionResult::Success(n) => Ok(n),
        CompletionResult::Failure(k) => Err(k),
        CompletionResult::Timeout => Err(IoErrorKind::TimedOut),
    }
}

/// The pool after one connection-level event: a successful inbound
/// negotiation attempts an admission; everything else — a failed
/// negotiation included — leaves the pool untouched.
pub open spec fn spec_on_connection_event(p: PoolView, ev: ConnectionEvent, now: u64) -> PoolView {
    match ev {
        ConnectionEvent::FullyNegotiatedInbound { id } => spec_admit(
            p,
            id,
            now,
            spec_fresh_exchange(),
        ),
        _ => p,
    }
}

/// The upward event, if any, that one poll of a pool in state `p` emits.
pub open spec fn spec_report(p: PoolView, now: u64) -> Option<Result<Nonce, IoErrorKind>> {
    match first_ready(p.ops, now) {
        None => None,
        Some(i) => Some(spec_to_behaviour(spec_outcome(p.ops[i], now))),
    }
}

/// The per-connection dial-back handler. Created when a connection is
/// established, destroyed when it closes; nothing survives the connection.
#[derive(Debug)]
pub struct Handler {
    /// The bounded pool of in-flight dial-back reads on this connection.
    pub pool: Pool,
}

impl Handler {
    /// Well-formedness of the handler: its pool is within capacity and all
    /// in-flight operations carry distinct names.
    pub open spec fn wf(self) -> bool {
        self.pool@.wf()
    }

    /// A handler for a fresh connection: an empty pool configured with the
    /// given per-operation deadline and capacity.
    pub fn new(timeout: u64, capacity: usize) -> (h: Handler)
        ensures
            h.pool@ == (PoolView {
                timeout,
                capacity,
                ops: Seq::<crate::pool::PendingOpView>::empty(),
            }),
            h.wf(),
    {
        Handler { pool: Pool::new(timeout, capacity) }
    }

    /// The single inbound protocol this handler offers to the negotiation
    /// layer.
    pub fn listen_protocol(&self) -> (p: &'static str)
        ensures
            p@ == spec_dial_back_protocol(),
    {
        dial_back_protocol()
    }

    /// Reacts to one connection-level event. A successful inbound
    /// negotiation is admitted into the pool if a slot is free and silently
    /// dropped otherwise; a failed negotiation, like every other event kind,
    /// changes nothing and surfaces nothing. The name a negotiated stream
    /// arrives under must be fresh — one no in-flight operation carries.
    pub fn on_connection_event(&mut self, event: ConnectionEvent, now: u64)
        requires
            old(self).wf(),
            (event matches ConnectionEvent::FullyNegotiatedInbound { id } ==> {
                &&& now + old(self).pool@.timeout <= u64::MAX
                &&& !has_op(old(self).pool@.ops, id)
            }),
        ensures
            final(self).wf(),
            final(self).pool@ == spec_on_connection_event(old(self).pool@, event, now),
            (!(event is FullyNegotiatedInbound) ==> final(self).pool@ == old(self).pool@),
    {
        match event {
            ConnectionEvent::FullyNegotiatedInbound { id } => {
                let _ = self.pool.try_push(id, now, Exchange::new());
            },
            ConnectionEvent::ListenUpgradeError => {},
            ConnectionEvent::Other => {},
        }
    }

    /// The behaviour layer has nothing to tell this handler; its event type
    /// is empty and this is a no-op.
    pub fn on_behaviour_event(&mut self, _event: ())
        ensures
            *final(self) == *old(self),
    {
    }

    /// Hands a stream event to the in-flight operation named `id`; events
    /// for unknown — for instance already evicted — names change nothing.
    pub fn deliver(&mut self, id: u64, event: StreamEvent)
        requires
            old(self).wf(),
        ensures
            final(self).wf(),
            final(self).pool@ == spec_deliver(old(self).pool@, id, event@),
    {
        self.pool.deliver(id, event);
    }

    /// Polls the pool and converts the first ready completion into exactly
    /// one upward event: the token on success, the stream's own error on
    /// failure, and a timed-out error for an evicted operation. At most one
    /// event is emitted per call; further ready completions wait for the
    /// next poll.
    pub fn poll(&mut self, now: u64) -> (r: Option<Result<Nonce, IoErrorKind>>)
        requires
            old(self).wf(),
        ensures
            final(self).wf(),
            final(self).pool@.timeout == old(self).pool@.timeout,
            final(self).pool@.capacity == old(self).pool@.capacity,
            (match first_ready(old(self).pool@.ops, now) {
                None => r is None && final(self).pool@.ops == old(self).pool@.ops,
                Some(i) => r == Some(spec_to_behaviour(spec_outcome(old(self).pool@.ops[i], now)))
                    && final(self).pool@.ops == old(self).pool@.ops.remove(i),
            }),
    {
        match self.pool.poll(now) {
            None => None,
            Some((_id, completion)) => Some(
                match completion {
                    CompletionResult::Success(n) => Ok(n),
                    CompletionResult::Failure(k) => Err(k),
                    CompletionResult::Timeout => Err(IoErrorKind::TimedOut),
                },
            ),
        }
    }

    /// Dial-back verification is opportunistic: it never justifies holding
    /// an otherwise idle connection open.
    pub fn connection_keep_alive(&self) -> (keep: bool)
        ensures
            !keep,
    {
        false
    }

    /// Whether the operation named `id` is still in flight.
    pub fn is_pending(&self, id: u64) -> (b: bool)
        ensures
            b == has_op(self.pool@.ops, id),
    {
        self.pool.contains_op(id)
    }

    /// How many operations are currently admitted.
    pub fn pending(&self) -> (n: usize)
        ensures
            n == self.pool@.ops.len(),
    {
        self.pool.in_flight()
    }
}

/// Law: a stream failure is reported upward unmodified — whatever error an
/// operation's exchange ended with is exactly what the poll that reports the
/// operation emits.
pub proof fn lemma_failure_reported_unmodified(p: PoolView, i: int, now: u64, k: IoErrorKind)
    requires
        first_ready(p.ops, now) == Some(i),
        0 <= i < p.ops.len(),
        p.ops[i].exchange == ExchangeView::Done(Err::<Nonce, IoErrorKind>(k)),
    ensures
        spec_report(p, now) == Some(Err::<Nonce, IoErrorKind>(k)),
{
}

/// Law: a failed inbound negotiation never triggers a pool admission and
/// never emits an upward event — the pool is left exactly as it was, so any
/// later poll reports exactly what it would have reported anyway.
pub proof fn lemma_negotiation_isolation(p: PoolView, ev: ConnectionEvent, now: u64, later: u64)
    requires
        !(ev is FullyNegotiatedInbound),
    ensures
        spec_on_connection_event(p, ev, now) == p,
        spec_report(spec_on_connection_event(p, ev, now), later) == spec_report(p, later),
{
}

} // verus!
