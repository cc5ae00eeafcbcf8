//! The timelock state machine. A descriptor's identifier moves
//! `NotQueued -> Queued` only through `queue`, and `Queued -> NotQueued` only
//! through `execute` or `cancel`. Every mutating operation is gated on the
//! one-time owner, and the timing policy bounds when a descriptor may be
//! queued and executed. The host supplies the caller, the clock, the outbound
//! call and the notification sink; the machine decides, and hands the host
//! the call to dispatch and the event to emit.

use vstd::prelude::*;
use crate::addr::Address;
use crate::addr::zero_address;
use crate::ident::TxId;
use crate::ident::compute_tx_id;
use crate::ident::keccak256;
use crate::ident::keccak256_of;
use crate::ident::tx_id_of;
use crate::store::QueueStore;

verus! {

/// Minimum delay between the clock and an acceptable scheduled timestamp.
pub const MIN_DELAY: u64 = 10;

/// Maximum delay between the clock and an acceptable scheduled timestamp.
pub const MAX_DELAY: u64 = 1000;

/// How long past its scheduled timestamp a queued descriptor stays executable.
pub const GRACE_PERIOD: u64 = 1000;

/// The abstract state: the owner's bytes and the set of queued identifiers.
pub ghost struct StateView {
    pub owner: Seq<u8>,
    pub queued: Set<Seq<u8>>,
}

/// Why an operation is refused.
pub enum Rejection {
    AlreadyInitialized,
    NotOwner,
    AlreadyQueued,
    TimestampNotInRange,
    NotQueued,
    TimestampNotPassed,
    TimestampExpired,
}

/// The errors the operations return, each carrying the offending values.
#[derive(Debug)]
pub enum TimeLockError {
    AlreadyInitialized,
    NotOwnerError,
    AlreadyQueuedError { tx_id: TxId },
    TimestampNotInRangeError { block_timestamp: u64, timestamp: crate::uint256::Uint256 },
    NotQueuedError { tx_id: TxId },
    TimestampNotPassedError { block_timestamp: u64, timestamp: crate::uint256::Uint256 },
    TimestampExpiredError { block_timestamp: u64, expires_at: crate::uint256::Uint256 },
    TxFailedError,
}

/// The acceptable window for a scheduled timestamp at queue time, both
/// bounds inclusive.
pub open spec fn in_window(now: u64, ts: int) -> bool {
    now + MIN_DELAY <= ts <= now + MAX_DELAY
}

/// Why `initialize` is refused, or `None` where it succeeds.
pub open spec fn initialize_rejection(s: StateView) -> Option<Rejection> {
    if s.owner != zero_address() {
        Some(Rejection::AlreadyInitialized)
    } else {
        None
    }
}

/// The state after `initialize` by `sender`.
pub open spec fn initialize_step(s: StateView, sender: Seq<u8>) -> StateView {
    if initialize_rejection(s) is None {
        StateView { owner: sender, queued: s.queued }
    } else {
        s
    }
}

/// Why `queue` is refused, or `None` where it succeeds. Checked in order:
/// authorization, duplicate entry, timestamp window.
pub open spec fn queue_rejection(
    s: StateView,
    sender: Seq<u8>,
    now: u64,
    id: Seq<u8>,
    ts: int,
) -> Option<Rejection> {
    if sender != s.owner {
        Some(Rejection::NotOwner)
    } else if s.queued.contains(id) {
        Some(Rejection::AlreadyQueued)
    } else if !in_window(now, ts) {
        Some(Rejection::TimestampNotInRange)
    } else {
        None
    }
}

/// The state after `queue`: the identifier is added exactly when no check
/// refuses the call.
pub open spec fn queue_step(
    s: StateView,
    sender: Seq<u8>,
    now: u64,
    id: Seq<u8>,
    ts: int,
) -> StateView {
    if queue_rejection(s, sender, now, id, ts) is None {
        StateView { owner: s.owner, queued: s.queued.insert(id) }
    } else {
        s
    }
}

/// Why `execute` is refused, or `None` where it succeeds. Checked in order:
/// authorization, queue membership, timestamp passed, grace period.
pub open spec fn execute_rejection(
    s: StateView,
    sender: Seq<u8>,
    now: u64,
    id: Seq<u8>,
    ts: int,
) -> Option<Rejection> {
    if sender != s.owner {
        Some(Rejection::NotOwner)
    } else if !s.queued.contains(id) {
        Some(Rejection::NotQueued)
    } else if now < ts {
        Some(Rejection::TimestampNotPassed)
    } else if now > ts + GRACE_PERIOD {
        Some(Rejection::TimestampExpired)
    } else {
        None
    }
}

/// The state after `execute`: the identifier is cleared exactly when no
/// check refuses the call. It is cleared even though the outbound call has
/// not run yet, and it stays cleared whether or not that call succeeds.
pub open spec fn execute_step(
    s: StateView,
    sender: Seq<u8>,
    now: u64,
    id: Seq<u8>,
    ts: int,
) -> StateView {
    if execute_rejection(s, sender, now, id, ts) is None {
        StateView { owner: s.owner, queued: s.queued.remove(id) }
    } else {
        s
    }
}

/// Why `cancel` is refused, or `None` where it succeeds. No timing checks.
pub open spec fn cancel_rejection(s: StateView, sender: Seq<u8>, id: Seq<u8>) -> Option<
    Rejection,
> {
    if sender != s.owner {
        Some(Rejection::NotOwner)
    } else if !s.queued.contains(id) {
        Some(Rejection::NotQueued)
    } else {
        None
    }
}

/// The state after `cancel`: the identifier is cleared exactly when no check
/// refuses the call.
pub open spec fn cancel_step(s: StateView, sender: Seq<u8>, id: Seq<u8>) -> StateView {
    if cancel_rejection(s, sender, id) is None {
        StateView { owner: s.owner, queued: s.queued.remove(id) }
    } else {
        s
    }
}

/// The record a successful `queue` hands to the notification sink.
#[derive(Debug)]
pub struct QueueEvent {
    pub tx_id: TxId,
    pub target: Address,
    pub value: crate::uint256::Uint256,
    pub func: Vec<u8>,
    pub data: Vec<u8>,
    pub timestamp: crate::uint256::Uint256,
}

/// The record a successful `execute` hands to the notification sink once the
/// outbound call has come back successfully.
#[derive(Debug)]
pub struct ExecuteEvent {
    pub tx_id: TxId,
    pub target: Address,
    pub value: crate::uint256::Uint256,
    pub func: Vec<u8>,
    pub data: Vec<u8>,
    pub timestamp: crate::uint256::Uint256,
}

/// The record a successful `cancel` hands to the notification sink.
#[derive(Debug)]
pub struct CancelEvent {
    pub tx_id: TxId,
}

/// The outbound call a successful `execute` hands to the host to dispatch:
/// send `value` to `target` with `calldata` (the first four bytes of the
/// function signature's digest, then the raw payload).
#[derive(Debug)]
pub struct CallPlan {
    pub tx_id: TxId,
    pub target: Address,
    pub value: crate::uint256::Uint256,
    pub func: Vec<u8>,
    pub data: Vec<u8>,
    pub timestamp: crate::uint256::Uint256,
    pub calldata: Vec<u8>,
}

/// The timelock: the owner slot and the queued-flag store.
pub struct TimeLock {
    owner: Address,
    store: QueueStore,
}

impl View for TimeLock {
    type V = StateView;

    closed spec fn view(&self) -> StateView {
        StateView { owner: self.owner@, queued: self.store.queued_set() }
    }
}

impl TimeLock {
    /// The owner holds twenty bytes and the store's keys are distinct.
    pub closed spec fn wf(&self) -> bool {
        self.owner.wf() && self.store.wf()
    }

    /// A fresh timelock: no owner, nothing queued.
    pub fn new() -> (r: TimeLock)
        ensures
            r.wf(),
            r@.owner == zero_address(),
            r@.queued == Set::<Seq<u8>>::empty(),
    {
        TimeLock { owner: Address::zero(), store: QueueStore::new() }
    }

    /// Sets `sender` as the owner, once: fails whenever an owner is already
    /// set, and then changes nothing.
    pub fn initialize(&mut self, sender: &Address) -> (r: Result<(), TimeLockError>)
        requires
            old(self).wf(),
            sender.wf(),
        ensures
            final(self).wf(),
            final(self)@ == initialize_step(old(self)@, sender@),
            r is Ok <==> initialize_rejection(old(self)@) is None,
            r is Err ==> r matches Err(TimeLockError::AlreadyInitialized),
    {
        if !self.owner.is_zero() {
            return Err(TimeLockError::AlreadyInitialized);
        }
        self.owner = sender.dup();
        Ok(())
    }

    /// The current owner; the sentinel while unset.
    pub fn owner(&self) -> (r: &Address)
        ensures
            r@ == self@.owner,
    {
        &self.owner
    }

    /// Derives the identifier of the given descriptor. Pure: no state is
    /// read or written.
    pub fn get_tx_id(
        &self,
        target: &Address,
        value: &crate::uint256::Uint256,
        func: &Vec<u8>,
        data: &Vec<u8>,
        timestamp: &crate::uint256::Uint256,
    ) -> (r: TxId)
        requires
            target.wf(),
        ensures
            r@ == tx_id_of(target@, value@, func@, data@, timestamp@),
            r.wf(),
    {
        compute_tx_id(target, value, func, data, timestamp)
    }

    /// Accepts an inbound value transfer. The credit itself is the host
    /// ledger's business; no state of the machine changes.
    pub fn deposit(&self) {
    }

    /// Queues the descriptor: after the authorization, duplicate and window
    /// checks pass, its identifier's flag is set and the event to emit is
    /// returned. A failing call leaves all state untouched.
    pub fn queue(
        &mut self,
        sender: &Address,
        now: u64,
        target: Address,
        value: crate::uint256::Uint256,
        func: Vec<u8>,
        data: Vec<u8>,
        timestamp: crate::uint256::Uint256,
    ) -> (r: Result<QueueEvent, TimeLockError>)
        requires
            old(self).wf(),
            sender.wf(),
            target.wf(),
        ensures
            final(self).wf(),
            final(self)@ == queue_step(
                old(self)@,
                sender@,
                now,
                tx_id_of(target@, value@, func@, data@, timestamp@),
                timestamp@,
            ),
            ({
                let id = tx_id_of(target@, value@, func@, data@, timestamp@);
                match queue_rejection(old(self)@, sender@, now, id, timestamp@) {
                    None => r matches Ok(ev) && ev.tx_id@ == id && ev.target@ == target@
                        && ev.value@ == value@ && ev.func@ == func@ && ev.data@ == data@
                        && ev.timestamp@ == timestamp@,
                    Some(Rejection::NotOwner) => r matches Err(TimeLockError::NotOwnerError),
                    Some(Rejection::AlreadyQueued) => r matches Err(
                        TimeLockError::AlreadyQueuedError { tx_id },
                    ) && tx_id@ == id,
                    Some(Rejection::TimestampNotInRange) => r matches Err(
                        TimeLockError::TimestampNotInRangeError { block_timestamp, timestamp: ts },
                    ) && block_timestamp == now && ts@ == timestamp@,
                    Some(_) => false,
                }
            }),
    {
        if !sender.eq_addr(&self.owner) {
            return Err(TimeLockError::NotOwnerError);
        }
        let id = compute_tx_id(&target, &value, &func, &data, &timestamp);
        if self.store.get(&id) {
            return Err(TimeLockError::AlreadyQueuedError { tx_id: id });
        }
        if timestamp.lt_add(now, MIN_DELAY) || timestamp.gt_add(now, MAX_DELAY) {
            return Err(
                TimeLockError::TimestampNotInRangeError { block_timestamp: now, timestamp },
            );
        }
        let ev_id = id.dup();
        self.store.set_flag(id, true);
        Ok(QueueEvent { tx_id: ev_id, target, value, func, data, timestamp })
    }

    /// Executes the queued descriptor: after the authorization, membership
    /// and timing checks pass, its identifier's flag is cleared and the
    /// outbound call to dispatch is returned. The flag is cleared before the
    /// host dispatches the call, so a re-entrant callback cannot execute the
    /// same identifier again. A failing call leaves all state untouched.
    pub fn execute(
        &mut self,
        sender: &Address,
        now: u64,
        target: Address,
        value: crate::uint256::Uint256,
        func: Vec<u8>,
        data: Vec<u8>,
        timestamp: crate::uint256::Uint256,
    ) -> (r: Result<CallPlan, TimeLockError>)
        requires
            old(self).wf(),
            sender.wf(),
            target.wf(),
        ensures
            final(self).wf(),
            final(self)@ == execute_step(
                old(self)@,
                sender@,
                now,
                tx_id_of(target@, value@, func@, data@, timestamp@),
                timestamp@,
            ),
            ({
                let id = tx_id_of(target@, value@, func@, data@, timestamp@);
                match execute_rejection(old(self)@, sender@, now, id, timestamp@) {
                    None => r matches Ok(plan) && plan.tx_id@ == id && plan.target@ == target@
                        && plan.value@ == value@ && plan.func@ == func@ && plan.data@ == data@
                        && plan.timestamp@ == timestamp@ && plan.calldata@ == keccak256_of(
                        func@,
                    ).subrange(0, 4) + data@,
                    Some(Rejection::NotOwner) => r matches Err(TimeLockError::NotOwnerError),
                    Some(Rejection::NotQueued) => r matches Err(
                        TimeLockError::NotQueuedError { tx_id },
                    ) && tx_id@ == id,
                    Some(Rejection::TimestampNotPassed) => r matches Err(
                        TimeLockError::TimestampNotPassedError { block_timestamp, timestamp: ts },
                    ) && block_timestamp == now && ts@ == timestamp@,
                    Some(Rejection::TimestampExpired) => r matches Err(
                        TimeLockError::TimestampExpiredError { block_timestamp, expires_at },
                    ) && block_timestamp == now && expires_at@ == timestamp@ + GRACE_PERIOD,
                    Some(_) => false,
                }
            }),
    {
        if !sender.eq_addr(&self.owner) {
            return Err(TimeLockError::NotOwnerError);
        }
        let id = compute_tx_id(&target, &value, &func, &data, &timestamp);
        if !self.store.get(&id) {
            return Err(TimeLockError::NotQueuedError { tx_id: id });
        }
        if timestamp.gt_u64(now) {
            return Err(
                TimeLockError::TimestampNotPassedError { block_timestamp: now, timestamp },
            );
        }
        if timestamp.add_lt_u64(GRACE_PERIOD, now) {
            let expires_at = timestamp.add_small(GRACE_PERIOD);
            return Err(TimeLockError::TimestampExpiredError { block_timestamp: now, expires_at });
        }
        // Effects before interactions: the flag is cleared here, before the
        // caller can dispatch the outbound call this function returns.
        let ev_id = id.dup();
        self.store.set_flag(id, false);
        let selector_hash = keccak256(&func);
        let mut calldata: Vec<u8> = Vec::new();
        calldata.push(selector_hash[0]);
        calldata.push(selector_hash[1]);
        calldata.push(selector_hash[2]);
        calldata.push(selector_hash[3]);
        proof {
            assert(calldata@ =~= keccak256_of(func@).subrange(0, 4));
        }
        let n = data.len();
        let mut i: usize = 0;
        while i < n
            invariant
                i <= n,
                n == data@.len(),
                calldata@ == keccak256_of(func@).subrange(0, 4) + data@.subrange(0, i as int),
            decreases n - i,
        {
            calldata.push(data[i]);
            proof {
                assert(calldata@ =~= keccak256_of(func@).subrange(0, 4) + data@.subrange(
                    0,
                    i + 1 as int,
                ));
            }
            i += 1;
        }
        proof {
            assert(data@.subrange(0, n as int) =~= data@);
        }
        Ok(CallPlan { tx_id: ev_id, target, value, func, data, timestamp, calldata })
    }

    /// Cancels the queued descriptor: after the authorization and membership
    /// checks pass, its identifier's flag is cleared and the event to emit is
    /// returned. No timing checks apply. A failing call leaves all state
    /// untouched.
    pub fn cancel(
        &mut self,
        sender: &Address,
        target: Address,
        value: crate::uint256::Uint256,
        func: Vec<u8>,
        data: Vec<u8>,
        timestamp: crate::uint256::Uint256,
    ) -> (r: Result<CancelEvent, TimeLockError>)
        requires
            old(self).wf(),
            sender.wf(),
            target.wf(),
        ensures
            final(self).wf(),
            final(self)@ == cancel_step(
                old(self)@,
                sender@,
                tx_id_of(target@, value@, func@, data@, timestamp@),
            ),
            ({
                let id = tx_id_of(target@, value@, func@, data@, timestamp@);
                match cancel_rejection(old(self)@, sender@, id) {
                    None => r matches Ok(ev) && ev.tx_id@ == id,
                    Some(Rejection::NotOwner) => r matches Err(TimeLockError::NotOwnerError),
                    Some(Rejection::NotQueued) => r matches Err(
                        TimeLockError::NotQueuedError { tx_id },
                    ) && tx_id@ == id,
                    Some(_) => false,
                }
            }),
    {
        if !sender.eq_addr(&self.owner) {
            return Err(TimeLockError::NotOwnerError);
        }
        let id = compute_tx_id(&target, &value, &func, &data, &timestamp);
        if !self.store.get(&id) {
            return Err(TimeLockError::NotQueuedError { tx_id: id });
        }
        let ev_id = id.dup();
        self.store.set_flag(id, false);
        Ok(CancelEvent { tx_id: ev_id })
    }
}

/// Settles a dispatched call: a successful call yields the event to emit,
/// a failed one yields the execution error. The queue flag stays cleared
/// either way; a failed transaction must be queued again from scratch.
pub fn execute_outcome(plan: CallPlan, call_succeeded: bool) -> (r: Result<
    ExecuteEvent,
    TimeLockError,
>)
    ensures
        call_succeeded ==> (r matches Ok(ev) && ev.tx_id@ == plan.tx_id@ && ev.target@
            == plan.target@ && ev.value@ == plan.value@ && ev.func@ == plan.func@ && ev.data@
            == plan.data@ && ev.timestamp@ == plan.timestamp@),
        !call_succeeded ==> (r matches Err(TimeLockError::TxFailedError)),
{
    if call_succeeded {
        Ok(
            ExecuteEvent {
                tx_id: plan.tx_id,
                target: plan.target,
                value: plan.value,
                func: plan.func,
                data: plan.data,
                timestamp: plan.timestamp,
            },
        )
    } else {
        Err(TimeLockError::TxFailedError)
    }
}

} // verus!
