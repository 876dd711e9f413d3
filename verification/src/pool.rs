//! The bounded concurrent operation pool: a capacity- and deadline-bounded
//! container of in-flight dial-back exchanges.
//!
//! Admission is immediate or refused — there is no queue. Every admitted
//! operation is tracked with an absolute deadline; once a poll finds it
//! finished or expired it is reported exactly once and removed, freeing its
//! capacity slot.

use vstd::prelude::*;

use crate::exchange::{spec_step, Exchange, ExchangeView, StreamEvent, StreamEventView};
use crate::IoErrorKind;
use crate::Nonce;

verus! {

/// The one outcome of an admitted operation.
#[derive(Clone, Copy, Debug, PartialEq, Eq, Structural)]
pub enum CompletionResult {
    /// The exchange finished and produced this token.
    Success(Nonce),
    /// The exchange failed with this stream error.
    Failure(IoErrorKind),
    /// The operation outlived its deadline and was evicted.
    Timeout,
}

/// An admitted unit of work: one exchange with its absolute deadline, named
/// by a caller-chosen identifier.
#[derive(Debug)]
pub struct PendingOp {
    /// The caller's name for the operation, unique within the pool.
    pub id: u64,
    /// The instant, in the caller's clock, at which the operation expires.
    pub deadline: u64,
    /// The exchange the operation runs.
    pub exchange: Exchange,
}

/// The mathematical shape of a [`PendingOp`].
pub struct PendingOpView {
    pub id: u64,
    pub deadline: u64,
    pub exchange: ExchangeView,
}

impl View for PendingOp {
    type V = PendingOpView;

    open spec fn view(&self) -> PendingOpView {
        PendingOpView { id: self.id, deadline: self.deadline, exchange: self.exchange@ }
    }
}

/// A bounded pool of in-flight operations.
#[derive(Debug)]
pub struct Pool {
    /// Per-operation deadline: how long an operation may run, in the caller's
    /// clock units, before it is forcibly treated as failed.
    pub timeout: u64,
    /// How many operations may be admitted simultaneously.
    pub capacity: usize,
    /// The operations currently in flight, in admission order.
    pub ops: Vec<PendingOp>,
}

/// The mathematical shape of a [`Pool`].
pub struct PoolView {
    pub timeout: u64,
    pub capacity: usize,
    pub ops: Seq<PendingOpView>,
}

impl View for Pool {
    type V = PoolView;

    open spec fn view(&self) -> PoolView {
        PoolView {
            timeout: self.timeout,
            capacity: self.capacity,
            ops: self.ops@.map_values(|op: PendingOp| op@),
        }
    }
}

impl PoolView {
    /// Well-formedness: never more operations than the capacity allows, and
    /// no two operations under the same name.
    pub open spec fn wf(self) -> bool {
        &&& self.ops.len() <= self.capacity
        &&& forall|i: int, j: int|
            0 <= i < j < self.ops.len() ==> #[trigger] self.ops[i].id != #[trigger] self.ops[j].id
    }
}

/// The index of the operation named `id`, if it is in flight.
pub open spec fn find_op(ops: Seq<PendingOpView>, id: u64) -> Option<int>
    decreases ops.len(),
{
    if ops.len() == 0 {
        None
    } else if ops[0].id == id {
        Some(0)
    } else {
        match find_op(ops.drop_first(), id) {
            None => None,
            Some(i) => Some(i + 1),
        }
    }
}

/// An operation named `id` is in flight.
pub open spec fn has_op(ops: Seq<PendingOpView>, id: u64) -> bool {
    find_op(ops, id) is Some
}

/// What `find_op` finds: the first, and under distinct names the only,
/// position of the operation named `id`.
pub proof fn lemma_find_op_spec(ops: Seq<PendingOpView>, id: u64)
    ensures
        (match find_op(ops, id) {
            None => forall|k: int| 0 <= k < ops.len() ==> ops[k].id != id,
            Some(i) => 0 <= i < ops.len() && ops[i].id == id && (forall|k: int|
                0 <= k < i ==> ops[k].id != id),
        }),
    decreases ops.len(),
{
    if ops.len() == 0 {
    } else if ops[0].id == id {
    } else {
        lemma_find_op_spec(ops.drop_first(), id);
        assert forall|k: int| 1 <= k < ops.len() implies ops[k].id == ops.drop_first()[k - 1].id by {
            assert(ops.drop_first()[k - 1] == ops[k]);
        }
    }
}

/// An operation is ready to be reported when its exchange reached an outcome
/// or its deadline passed.
pub open spec fn spec_ready(op: PendingOpView, now: u64) -> bool {
    op.exchange is Done || op.deadline <= now
}

/// The result reported for a ready operation: its own outcome if the
/// exchange finished, a timeout if only the deadline fired.
pub open spec fn spec_outcome(op: PendingOpView, now: u64) -> CompletionResult
    recommends
        spec_ready(op, now),
{
    match op.exchange {
        ExchangeView::Done(Ok(n)) => CompletionResult::Success(n),
        ExchangeView::Done(Err(k)) => CompletionResult::Failure(k),
        _ => CompletionResult::Timeout,
    }
}

/// The position of the first ready operation, if any is ready.
pub open spec fn first_ready(ops: Seq<PendingOpView>, now: u64) -> Option<int>
    decreases ops.len(),
{
    if ops.len() == 0 {
        None
    } else if spec_ready(ops[0], now) {
        Some(0)
    } else {
        match first_ready(ops.drop_first(), now) {
            None => None,
            Some(i) => Some(i + 1),
        }
    }
}

/// What `first_ready` finds: the earliest ready operation.
pub proof fn lemma_first_ready_spec(ops: Seq<PendingOpView>, now: u64)
    ensures
        (match first_ready(ops, now) {
            None => forall|k: int| 0 <= k < ops.len() ==> !spec_ready(#[trigger] ops[k], now),
            Some(i) => 0 <= i < ops.len() && spec_ready(ops[i], now) && (forall|k: int|
                0 <= k < i ==> !spec_ready(#[trigger] ops[k], now)),
        }),
    decreases ops.len(),
{
    if ops.len() == 0 {
    } else if spec_ready(ops[0], now) {
    } else {
        lemma_first_ready_spec(ops.drop_first(), now);
        assert forall|k: int| 1 <= k < ops.len() implies ops.drop_first()[k - 1] == ops[k] by {}
    }
}

/// The pool after one admission attempt: the exchange `ex` enters with the
/// deadline `now + timeout` if a slot is free; a full pool stays exactly as
/// it was.
pub open spec fn spec_admit(p: PoolView, id: u64, now: u64, ex: ExchangeView) -> PoolView
    recommends
        now + p.timeout <= u64::MAX,
{
    if p.ops.len() < p.capacity {
        PoolView {
            ops: p.ops.push(
                PendingOpView { id, deadline: (now + p.timeout) as u64, exchange: ex },
            ),
            ..p
        }
    } else {
        p
    }
}

/// A fresh exchange on a newly negotiated stream, as admissions driven by
/// inbound negotiation successes create it.
pub open spec fn spec_fresh_exchange() -> ExchangeView {
    ExchangeView::Reading(Seq::<u8>::empty())
}

/// The pool after a whole sequence of admission attempts at one instant.
pub open spec fn spec_admit_all(p: PoolView, ids: Seq<u64>, now: u64) -> PoolView
    decreases ids.len(),
{
    if ids.len() == 0 {
        p
    } else {
        spec_admit_all(spec_admit(p, ids[0], now, spec_fresh_exchange()), ids.drop_first(), now)
    }
}

/// The pool after a stream event is delivered to the operation named `id`:
/// that operation's exchange steps, everything else stays untouched. An
/// unknown name — for instance one already evicted — changes nothing.
pub open spec fn spec_deliver(p: PoolView, id: u64, ev: StreamEventView) -> PoolView {
    match find_op(p.ops, id) {
        None => p,
        Some(i) => PoolView {
            ops: p.ops.update(
                i,
                PendingOpView { exchange: spec_step(p.ops[i].exchange, ev), ..p.ops[i] },
            ),
            ..p
        },
    }
}

impl Pool {
    /// An empty pool with the given per-operation deadline and capacity.
    pub fn new(timeout: u64, capacity: usize) -> (p: Pool)
        ensures
            p@ == (PoolView { timeout, capacity, ops: Seq::<PendingOpView>::empty() }),
            p@.wf(),
    {
        let p = Pool { timeout, capacity, ops: Vec::new() };
        proof {
            assert(p@.ops =~= Seq::<PendingOpView>::empty());
        }
        p
    }

    /// Non-blocking admission: accepts `op` under the name `id` with the
    /// deadline `now + timeout` if a slot is free, and hands `op` back
    /// untouched if the capacity is already occupied. The name must be one
    /// no in-flight operation carries — callers can check with
    /// [`Pool::contains_op`].
    pub fn try_push(&mut self, id: u64, now: u64, op: Exchange) -> (r: Result<(), Exchange>)
        requires
            now + old(self)@.timeout <= u64::MAX,
            !has_op(old(self)@.ops, id),
            old(self)@.wf(),
        ensures
            r is Ok <==> old(self)@.ops.len() < old(self)@.capacity,
            final(self)@ == spec_admit(old(self)@, id, now, op@),
            final(self)@.wf(),
            (r matches Err(rejected) ==> rejected@ == op@),
    {
        if self.ops.len() < self.capacity {
            let deadline = now + self.timeout;
            self.ops.push(PendingOp { id, deadline, exchange: op });
            proof {
                assert(self@.ops =~= spec_admit(old(self)@, id, now, op@).ops);
                lemma_find_op_spec(old(self)@.ops, id);
            }
            Ok(())
        } else {
            Err(op)
        }
    }

    /// Delivers a stream event to the operation named `id`.
    pub fn deliver(&mut self, id: u64, ev: StreamEvent)
        ensures
            final(self)@ == spec_deliver(old(self)@, id, ev@),
            old(self)@.wf() ==> final(self)@.wf(),
    {
        proof {
            lemma_find_op_spec(self@.ops, id);
        }
        let ghost pre = self@;
        let mut i: usize = 0;
        while i < self.ops.len()
            invariant
                pre == old(self)@,
                self@ == pre,
                i <= self.ops.len(),
                forall|k: int| 0 <= k < i ==> pre.ops[k].id != id,
            decreases self.ops.len() - i,
        {
            if self.ops[i].id == id {
                let op = self.ops.remove(i);
                let stepped = PendingOp {
                    id: op.id,
                    deadline: op.deadline,
                    exchange: op.exchange.on_event(ev),
                };
                self.ops.insert(i, stepped);
                proof {
                    assert(find_op(pre.ops, id) == Some(i as int)) by {
                        lemma_find_op_spec(pre.ops, id);
                        if find_op(pre.ops, id) is None {
                            assert(pre.ops[i as int].id != id);
                        } else {
                            let j = find_op(pre.ops, id)->Some_0;
                            if j < i as int {
                                assert(pre.ops[j].id == id);
                            } else if j > i as int {
                                assert(pre.ops[i as int].id != id);
                            }
                        }
                    }
                    assert(self@.ops =~= spec_deliver(pre, id, ev@).ops);
                    assert(self@ == spec_deliver(pre, id, ev@));
                }
                return;
            }
            i = i + 1;
        }
        proof {
            lemma_find_op_spec(pre.ops, id);
            if let Some(j) = find_op(pre.ops, id) {
                assert(pre.ops[j].id == id);
            }
            assert(self@ == spec_deliver(pre, id, ev@));
        }
    }

    /// Reports the first ready completion, removing the operation from the
    /// pool; yields nothing when no admitted operation has finished or
    /// expired. Each call reports at most one outcome.
    pub fn poll(&mut self, now: u64) -> (r: Option<(u64, CompletionResult)>)
        ensures
            final(self)@.timeout == old(self)@.timeout,
            final(self)@.capacity == old(self)@.capacity,
            (match first_ready(old(self)@.ops, now) {
                None => r is None && final(self)@.ops == old(self)@.ops,
                Some(i) => r == Some((old(self)@.ops[i].id, spec_outcome(old(self)@.ops[i], now)))
                    && final(self)@.ops == old(self)@.ops.remove(i),
            }),
            old(self)@.wf() ==> final(self)@.wf(),
    {
        proof {
            lemma_first_ready_spec(self@.ops, now);
        }
        let ghost pre = self@;
        let mut i: usize = 0;
        while i < self.ops.len()
            invariant
                pre == old(self)@,
                self@ == pre,
                i <= self.ops.len(),
                forall|k: int| 0 <= k < i ==> !spec_ready(#[trigger] pre.ops[k], now),
            decreases self.ops.len() - i,
        {
            let ready = self.ops[i].exchange.is_done() || self.ops[i].deadline <= now;
            if ready {
                proof {
                    assert(first_ready(pre.ops, now) == Some(i as int)) by {
                        lemma_first_ready_spec(pre.ops, now);
                        if first_ready(pre.ops, now) is None {
                            assert(!spec_ready(pre.ops[i as int], now));
                        } else {
                            let j = first_ready(pre.ops, now)->Some_0;
                            if j < i as int {
                                assert(spec_ready(pre.ops[j], now));
                            } else if j > i as int {
                                assert(!spec_ready(pre.ops[i as int], now));
                            }
                        }
                    }
                }
                let op = self.ops.remove(i);
                let result = match op.exchange.outcome() {
                    Some(Ok(n)) => CompletionResult::Success(n),
                    Some(Err(k)) => CompletionResult::Failure(k),
                    None => CompletionResult::Timeout,
                };
                proof {
                    assert(result == spec_outcome(pre.ops[i as int], now));
                    assert(self@.ops =~= pre.ops.remove(i as int));
                }
                return Some((op.id, result));
            }
            i = i + 1;
        }
        proof {
            lemma_first_ready_spec(pre.ops, now);
            if let Some(j) = first_ready(pre.ops, now) {
                assert(spec_ready(pre.ops[j], now));
            }
        }
        None
    }

    /// Whether an operation named `id` is currently in flight.
    pub fn contains_op(&self, id: u64) -> (b: bool)
        ensures
            b == has_op(self@.ops, id),
    {
        proof {
            lemma_find_op_spec(self@.ops, id);
        }
        let mut i: usize = 0;
        while i < self.ops.len()
            invariant
                i <= self.ops.len(),
                forall|k: int| 0 <= k < i ==> self@.ops[k].id != id,
            decreases self.ops.len() - i,
        {
            if self.ops[i].id == id {
                proof {
                    lemma_find_op_spec(self@.ops, id);
                    if find_op(self@.ops, id) is None {
                        assert(self@.ops[i as int].id != id);
                    }
                }
                return true;
            }
            i = i + 1;
        }
        proof {
            lemma_find_op_spec(self@.ops, id);
            if let Some(j) = find_op(self@.ops, id) {
                assert(self@.ops[j].id == id);
            }
        }
        false
    }

    /// How many operations are currently in flight.
    pub fn in_flight(&self) -> (n: usize)
        ensures
            n == self@.ops.len(),
    {
        self.ops.len()
    }
}

/// Law: whatever sequence of inbound negotiation successes arrives, the pool
/// never holds more than its capacity; every admission beyond it leaves the
/// pool exactly as it was.
pub proof fn lemma_capacity_invariant(p: PoolView, ids: Seq<u64>, now: u64)
    requires
        p.ops.len() <= p.capacity,
    ensures
        spec_admit_all(p, ids, now).ops.len() <= p.capacity,
    decreases ids.len(),
{
    if ids.len() > 0 {
        lemma_capacity_invariant(spec_admit(p, ids[0], now, spec_fresh_exchange()), ids.drop_first(), now);
    }
}

/// Law: an admission attempt against a full pool changes nothing, so the
/// dropped stream can never surface an upward event.
pub proof fn lemma_full_pool_rejects(p: PoolView, id: u64, now: u64, ex: ExchangeView)
    requires
        p.ops.len() >= p.capacity,
    ensures
        spec_admit(p, id, now, ex) == p,
{
}

/// Law: once a completion is reported it is gone — the reported operation
/// leaves the pool, and no later poll can report the same operation again.
pub proof fn lemma_at_most_one_report(p: PoolView, i: int, now: u64, later: u64)
    requires
        p.wf(),
        first_ready(p.ops, now) == Some(i),
    ensures
        !has_op(p.ops.remove(i), p.ops[i].id),
        (first_ready(p.ops.remove(i), later) matches Some(j) ==> p.ops.remove(i)[j].id
            != p.ops[i].id),
{
    lemma_first_ready_spec(p.ops, now);
    let rest = p.ops.remove(i);
    let id = p.ops[i].id;
    assert forall|k: int| 0 <= k < rest.len() implies rest[k].id != id by {
        if k < i {
            assert(rest[k] == p.ops[k]);
        } else {
            assert(rest[k] == p.ops[k + 1]);
        }
    }
    lemma_find_op_spec(rest, id);
    if let Some(j) = find_op(rest, id) {
        assert(rest[j].id == id);
    }
    lemma_first_ready_spec(rest, later);
    if let Some(j) = first_ready(rest, later) {
        assert(0 <= j < rest.len());
    }
}

/// Law: an operation past its deadline forces the pool to report something —
/// a poll at such an instant can never come back empty — and if the expired
/// operation's exchange has produced no outcome, what is reported for it is a
/// timeout.
pub proof fn lemma_timeout_enforced(p: PoolView, i: int, now: u64)
    requires
        0 <= i < p.ops.len(),
        p.ops[i].deadline <= now,
    ensures
        first_ready(p.ops, now) is Some,
        !(p.ops[i].exchange is Done) ==> spec_outcome(p.ops[i], now) == CompletionResult::Timeout,
{
    lemma_first_ready_spec(p.ops, now);
    if first_ready(p.ops, now) is None {
        assert(!spec_ready(p.ops[i], now));
    }
}

/// Law: an operation admitted at `start` whose stream never produces an
/// event is ready no later than `start + timeout`, and is then reported as a
/// timeout. Its eviction frees the slot it held.
pub proof fn lemma_deadline_from_admission(p: PoolView, id: u64, start: u64, now: u64)
    requires
        p.ops.len() < p.capacity,
        start + p.timeout <= u64::MAX,
        now >= start + p.timeout,
    ensures
        ({
            let q = spec_admit(p, id, start, spec_fresh_exchange());
            let op = q.ops.last();
            &&& q.ops.len() == p.ops.len() + 1
            &&& op.id == id
            &&& spec_ready(op, now)
            &&& spec_outcome(op, now) == CompletionResult::Timeout
            &&& first_ready(q.ops, now) is Some
        }),
{
    let q = spec_admit(p, id, start, spec_fresh_exchange());
    lemma_first_ready_spec(q.ops, now);
    if first_ready(q.ops, now) is None {
        assert(!spec_ready(q.ops[q.ops.len() - 1], now));
    }
}

} // verus!
