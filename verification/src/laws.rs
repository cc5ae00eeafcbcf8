//! The laws of the state machine, proved once and for all states, callers,
//! clocks and descriptors over the step and rejection functions that the
//! operations' contracts are stated with.

use vstd::prelude::*;
use crate::addr::zero_address;
use crate::ident::tx_id_of;
use crate::timelock::GRACE_PERIOD;
use crate::timelock::MAX_DELAY;
use crate::timelock::MIN_DELAY;
use crate::timelock::Rejection;
use crate::timelock::StateView;
use crate::timelock::cancel_rejection;
use crate::timelock::cancel_step;
use crate::timelock::execute_rejection;
use crate::timelock::execute_step;
use crate::timelock::in_window;
use crate::timelock::initialize_rejection;
use crate::timelock::initialize_step;
use crate::timelock::queue_rejection;
use crate::timelock::queue_step;

verus! {

/// Identifier derivation is deterministic: descriptors with equal fields
/// yield the same identifier. (That differing fields yield differing
/// identifiers rests on the collision resistance assumed of the underlying
/// digest, and is exercised by tests rather than proved.)
pub proof fn lemma_tx_id_deterministic(
    target1: Seq<u8>,
    value1: int,
    func1: Seq<u8>,
    data1: Seq<u8>,
    timestamp1: int,
    target2: Seq<u8>,
    value2: int,
    func2: Seq<u8>,
    data2: Seq<u8>,
    timestamp2: int,
)
    requires
        target1 == target2,
        value1 == value2,
        func1 == func2,
        data1 == data2,
        timestamp1 == timestamp2,
    ensures
        tx_id_of(target1, value1, func1, data1, timestamp1) == tx_id_of(
            target2,
            value2,
            func2,
            data2,
            timestamp2,
        ),
{
}

/// Queueing an identifier twice: once a queue step accepts it, a second
/// queue of the same identifier is refused as already queued, whatever the
/// clock then reads, and the refused step changes nothing.
pub proof fn lemma_queue_twice_rejected(
    s: StateView,
    sender: Seq<u8>,
    now1: u64,
    now2: u64,
    id: Seq<u8>,
    ts: int,
)
    requires
        queue_rejection(s, sender, now1, id, ts) is None,
    ensures
        queue_rejection(queue_step(s, sender, now1, id, ts), sender, now2, id, ts) == Some(
            Rejection::AlreadyQueued,
        ),
        queue_step(queue_step(s, sender, now1, id, ts), sender, now2, id, ts) == queue_step(
            s,
            sender,
            now1,
            id,
            ts,
        ),
{
}

/// The queue-time window is inclusive on both ends: the timestamps at
/// exactly the minimum and the maximum delay are accepted, and the ones a
/// single unit outside are not.
pub proof fn lemma_queue_window_boundaries(now: u64)
    ensures
        in_window(now, now + MIN_DELAY),
        in_window(now, now + MAX_DELAY),
        !in_window(now, now + MIN_DELAY - 1),
        !in_window(now, now + MAX_DELAY + 1),
{
}

/// Execution timing, for a queued identifier and the owner as caller: before
/// the scheduled timestamp the step is refused as not passed; from the
/// timestamp through the end of the grace period, both ends inclusive, it is
/// accepted; after the grace period it is refused as expired.
pub proof fn lemma_execute_timing(s: StateView, sender: Seq<u8>, now: u64, id: Seq<u8>, ts: int)
    requires
        sender == s.owner,
        s.queued.contains(id),
    ensures
        now < ts ==> execute_rejection(s, sender, now, id, ts) == Some(
            Rejection::TimestampNotPassed,
        ),
        ts <= now <= ts + GRACE_PERIOD ==> execute_rejection(s, sender, now, id, ts) is None,
        now > ts + GRACE_PERIOD ==> execute_rejection(s, sender, now, id, ts) == Some(
            Rejection::TimestampExpired,
        ),
{
}

/// No double execution: once an execute step accepts an identifier, a second
/// execute of the same identifier is refused as not queued, whatever the
/// clock then reads, and the refused step changes nothing.
pub proof fn lemma_no_double_execution(
    s: StateView,
    sender: Seq<u8>,
    now1: u64,
    now2: u64,
    id: Seq<u8>,
    ts: int,
)
    requires
        execute_rejection(s, sender, now1, id, ts) is None,
    ensures
        execute_rejection(execute_step(s, sender, now1, id, ts), sender, now2, id, ts) == Some(
            Rejection::NotQueued,
        ),
        execute_step(execute_step(s, sender, now1, id, ts), sender, now2, id, ts) == execute_step(
            s,
            sender,
            now1,
            id,
            ts,
        ),
{
}

/// Cancelling clears the identifier: once a cancel step accepts it, the
/// identifier is no longer queued and a subsequent execute of it is refused
/// as not queued, whatever the clock reads.
pub proof fn lemma_cancel_then_execute_rejected(
    s: StateView,
    sender: Seq<u8>,
    now: u64,
    id: Seq<u8>,
    ts: int,
)
    requires
        cancel_rejection(s, sender, id) is None,
    ensures
        !cancel_step(s, sender, id).queued.contains(id),
        execute_rejection(cancel_step(s, sender, id), sender, now, id, ts) == Some(
            Rejection::NotQueued,
        ),
{
}

/// Authorization: a caller other than the owner is refused by every mutating
/// operation on the queue, and the refused step changes nothing.
pub proof fn lemma_non_owner_rejected(
    s: StateView,
    sender: Seq<u8>,
    now: u64,
    id: Seq<u8>,
    ts: int,
)
    requires
        sender != s.owner,
    ensures
        queue_rejection(s, sender, now, id, ts) == Some(Rejection::NotOwner),
        queue_step(s, sender, now, id, ts) == s,
        execute_rejection(s, sender, now, id, ts) == Some(Rejection::NotOwner),
        execute_step(s, sender, now, id, ts) == s,
        cancel_rejection(s, sender, id) == Some(Rejection::NotOwner),
        cancel_step(s, sender, id) == s,
{
}

/// Initialization is one-shot: once an initialize step accepts a caller
/// other than the sentinel, every later initialize is refused as already
/// initialized, whoever calls it, and the refused step changes nothing.
pub proof fn lemma_initialize_once(s: StateView, sender: Seq<u8>)
    requires
        initialize_rejection(s) is None,
        sender != zero_address(),
    ensures
        initialize_rejection(initialize_step(s, sender)) == Some(Rejection::AlreadyInitialized),
        forall|sender2: Seq<u8>|
            initialize_step(initialize_step(s, sender), sender2) == initialize_step(s, sender),
{
}

} // verus!
