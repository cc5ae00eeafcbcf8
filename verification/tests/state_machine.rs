use timelock::execute_outcome;
use timelock::Address;
use timelock::TimeLock;
use timelock::TimeLockError;
use timelock::Uint256;

fn addr(n: u8) -> Address {
    let mut b = vec![0u8; 20];
    b[19] = n;
    Address::from_bytes(b).unwrap()
}

fn initialized(owner: u8) -> (TimeLock, Address) {
    let mut tl = TimeLock::new();
    let owner = addr(owner);
    tl.initialize(&owner).unwrap();
    (tl, owner)
}

#[test]
fn initialize_is_one_shot() {
    let mut tl = TimeLock::new();
    assert!(tl.owner().is_zero());
    let first = addr(1);
    assert!(tl.initialize(&first).is_ok());
    assert!(tl.owner().eq_addr(&first));
    assert!(matches!(tl.initialize(&first), Err(TimeLockError::AlreadyInitialized)));
    let second = addr(2);
    assert!(matches!(tl.initialize(&second), Err(TimeLockError::AlreadyInitialized)));
    assert!(tl.owner().eq_addr(&first));
}

#[test]
fn queue_window_boundaries() {
    let (mut tl, owner) = initialized(1);
    let now = 1000u64;
    // Inclusive lower bound: now + MIN_DELAY.
    let ok_low = tl.queue(
        &owner,
        now,
        addr(9),
        Uint256::from_u64(0),
        b"foo()".to_vec(),
        vec![],
        Uint256::from_u64(1010),
    );
    assert!(ok_low.is_ok());
    // Inclusive upper bound: now + MAX_DELAY.
    let ok_high = tl.queue(
        &owner,
        now,
        addr(9),
        Uint256::from_u64(0),
        b"foo()".to_vec(),
        vec![],
        Uint256::from_u64(2000),
    );
    assert!(ok_high.is_ok());
    // One unit below the lower bound.
    let low = tl.queue(
        &owner,
        now,
        addr(9),
        Uint256::from_u64(0),
        b"foo()".to_vec(),
        vec![],
        Uint256::from_u64(1009),
    );
    match low {
        Err(TimeLockError::TimestampNotInRangeError { block_timestamp, timestamp }) => {
            assert_eq!(block_timestamp, 1000);
            assert_eq!(timestamp, Uint256::from_u64(1009));
        }
        other => panic!("expected TimestampNotInRangeError, got {:?}", other),
    }
    // One unit above the upper bound.
    let high = tl.queue(
        &owner,
        now,
        addr(9),
        Uint256::from_u64(0),
        b"foo()".to_vec(),
        vec![],
        Uint256::from_u64(2001),
    );
    assert!(matches!(high, Err(TimeLockError::TimestampNotInRangeError { .. })));
    // Far beyond 64 bits is also out of range.
    let huge = tl.queue(
        &owner,
        now,
        addr(9),
        Uint256::from_u64(0),
        b"foo()".to_vec(),
        vec![],
        Uint256::from_limbs(0, 1, 0, 0),
    );
    assert!(matches!(huge, Err(TimeLockError::TimestampNotInRangeError { .. })));
}

#[test]
fn queue_twice_fails_already_queued() {
    let (mut tl, owner) = initialized(1);
    let ev = tl
        .queue(
            &owner,
            1000,
            addr(9),
            Uint256::from_u64(0),
            b"foo()".to_vec(),
            vec![],
            Uint256::from_u64(1010),
        )
        .unwrap();
    let again = tl.queue(
        &owner,
        1000,
        addr(9),
        Uint256::from_u64(0),
        b"foo()".to_vec(),
        vec![],
        Uint256::from_u64(1010),
    );
    match again {
        Err(TimeLockError::AlreadyQueuedError { tx_id }) => {
            assert_eq!(tx_id.as_bytes(), ev.tx_id.as_bytes());
        }
        other => panic!("expected AlreadyQueuedError, got {:?}", other),
    }
    // The failing call left the entry queued: cancel still succeeds.
    let cancelled = tl.cancel(
        &owner,
        addr(9),
        Uint256::from_u64(0),
        b"foo()".to_vec(),
        vec![],
        Uint256::from_u64(1010),
    );
    assert!(cancelled.is_ok());
}

#[test]
fn execute_respects_timing_boundaries() {
    let (mut tl, owner) = initialized(1);
    tl.queue(
        &owner,
        1000,
        addr(9),
        Uint256::from_u64(0),
        b"foo()".to_vec(),
        vec![],
        Uint256::from_u64(1010),
    )
    .unwrap();
    // Before the scheduled timestamp.
    let early = tl.execute(
        &owner,
        1009,
        addr(9),
        Uint256::from_u64(0),
        b"foo()".to_vec(),
        vec![],
        Uint256::from_u64(1010),
    );
    match early {
        Err(TimeLockError::TimestampNotPassedError { block_timestamp, timestamp }) => {
            assert_eq!(block_timestamp, 1009);
            assert_eq!(timestamp, Uint256::from_u64(1010));
        }
        other => panic!("expected TimestampNotPassedError, got {:?}", other),
    }
    // Past the grace period: timestamp + GRACE_PERIOD + 1.
    let late = tl.execute(
        &owner,
        2011,
        addr(9),
        Uint256::from_u64(0),
        b"foo()".to_vec(),
        vec![],
        Uint256::from_u64(1010),
    );
    match late {
        Err(TimeLockError::TimestampExpiredError { block_timestamp, expires_at }) => {
            assert_eq!(block_timestamp, 2011);
            assert_eq!(expires_at, Uint256::from_u64(2010));
        }
        other => panic!("expected TimestampExpiredError, got {:?}", other),
    }
    // At exactly the grace boundary the call goes through.
    let at_boundary = tl.execute(
        &owner,
        2010,
        addr(9),
        Uint256::from_u64(0),
        b"foo()".to_vec(),
        vec![],
        Uint256::from_u64(1010),
    );
    assert!(at_boundary.is_ok());
}

#[test]
fn execute_at_exact_timestamp_and_not_twice() {
    let (mut tl, owner) = initialized(1);
    tl.queue(
        &owner,
        1000,
        addr(9),
        Uint256::from_u64(7),
        b"foo()".to_vec(),
        vec![1, 2],
        Uint256::from_u64(1010),
    )
    .unwrap();
    let plan = tl
        .execute(
            &owner,
            1010,
            addr(9),
            Uint256::from_u64(7),
            b"foo()".to_vec(),
            vec![1, 2],
            Uint256::from_u64(1010),
        )
        .unwrap();
    let ev = execute_outcome(plan, true).unwrap();
    assert_eq!(ev.value, Uint256::from_u64(7));
    assert_eq!(ev.data, vec![1, 2]);
    // No double execution.
    let again = tl.execute(
        &owner,
        1500,
        addr(9),
        Uint256::from_u64(7),
        b"foo()".to_vec(),
        vec![1, 2],
        Uint256::from_u64(1010),
    );
    assert!(matches!(again, Err(TimeLockError::NotQueuedError { .. })));
}

#[test]
fn execute_builds_selector_calldata() {
    let (mut tl, owner) = initialized(1);
    let func: Vec<u8> = b"foo()".to_vec();
    let data: Vec<u8> = vec![0xaa, 0xbb];
    tl.queue(
        &owner,
        1000,
        addr(9),
        Uint256::from_u64(0),
        func.clone(),
        data.clone(),
        Uint256::from_u64(1010),
    )
    .unwrap();
    let plan = tl
        .execute(
            &owner,
            1010,
            addr(9),
            Uint256::from_u64(0),
            func.clone(),
            data.clone(),
            Uint256::from_u64(1010),
        )
        .unwrap();
    let digest = <sha3::Keccak256 as sha3::Digest>::digest(func.as_slice());
    assert_eq!(plan.calldata.len(), 4 + data.len());
    assert_eq!(&plan.calldata[..4], &digest[..4]);
    assert_eq!(&plan.calldata[4..], data.as_slice());
}

#[test]
fn failed_call_yields_tx_failed_and_no_retry() {
    let (mut tl, owner) = initialized(1);
    tl.queue(
        &owner,
        1000,
        addr(9),
        Uint256::from_u64(0),
        b"foo()".to_vec(),
        vec![],
        Uint256::from_u64(1010),
    )
    .unwrap();
    let plan = tl
        .execute(
            &owner,
            1010,
            addr(9),
            Uint256::from_u64(0),
            b"foo()".to_vec(),
            vec![],
            Uint256::from_u64(1010),
        )
        .unwrap();
    assert!(matches!(execute_outcome(plan, false), Err(TimeLockError::TxFailedError)));
    // The flag was cleared before the dispatch and is not restored.
    let retry = tl.execute(
        &owner,
        1011,
        addr(9),
        Uint256::from_u64(0),
        b"foo()".to_vec(),
        vec![],
        Uint256::from_u64(1010),
    );
    assert!(matches!(retry, Err(TimeLockError::NotQueuedError { .. })));
}

#[test]
fn cancel_clears_the_entry() {
    let (mut tl, owner) = initialized(1);
    let ev = tl
        .queue(
            &owner,
            1000,
            addr(9),
            Uint256::from_u64(0),
            b"foo()".to_vec(),
            vec![],
            Uint256::from_u64(1010),
        )
        .unwrap();
    let cancelled = tl
        .cancel(
            &owner,
            addr(9),
            Uint256::from_u64(0),
            b"foo()".to_vec(),
            vec![],
            Uint256::from_u64(1010),
        )
        .unwrap();
    assert_eq!(cancelled.tx_id.as_bytes(), ev.tx_id.as_bytes());
    let exec = tl.execute(
        &owner,
        1010,
        addr(9),
        Uint256::from_u64(0),
        b"foo()".to_vec(),
        vec![],
        Uint256::from_u64(1010),
    );
    assert!(matches!(exec, Err(TimeLockError::NotQueuedError { .. })));
    let cancel_again = tl.cancel(
        &owner,
        addr(9),
        Uint256::from_u64(0),
        b"foo()".to_vec(),
        vec![],
        Uint256::from_u64(1010),
    );
    assert!(matches!(cancel_again, Err(TimeLockError::NotQueuedError { .. })));
}

#[test]
fn non_owner_is_rejected_everywhere() {
    let (mut tl, owner) = initialized(1);
    let stranger = addr(2);
    let queue = tl.queue(
        &stranger,
        1000,
        addr(9),
        Uint256::from_u64(0),
        b"foo()".to_vec(),
        vec![],
        Uint256::from_u64(1010),
    );
    assert!(matches!(queue, Err(TimeLockError::NotOwnerError)));
    let execute = tl.execute(
        &stranger,
        1010,
        addr(9),
        Uint256::from_u64(0),
        b"foo()".to_vec(),
        vec![],
        Uint256::from_u64(1010),
    );
    assert!(matches!(execute, Err(TimeLockError::NotOwnerError)));
    let cancel = tl.cancel(
        &stranger,
        addr(9),
        Uint256::from_u64(0),
        b"foo()".to_vec(),
        vec![],
        Uint256::from_u64(1010),
    );
    assert!(matches!(cancel, Err(TimeLockError::NotOwnerError)));
    // State is untouched: the owner can still queue the same descriptor.
    let by_owner = tl.queue(
        &owner,
        1000,
        addr(9),
        Uint256::from_u64(0),
        b"foo()".to_vec(),
        vec![],
        Uint256::from_u64(1010),
    );
    assert!(by_owner.is_ok());
}

#[test]
fn full_scenario() {
    // now = 1000: queue at timestamp 1010 succeeds, execute at 1009 is too
    // early, at 1010 succeeds, a repeat at 1500 is no longer queued, and a
    // queue at 2001 is out of range.
    let (mut tl, owner) = initialized(1);
    tl.deposit();
    let target = addr(0x54);
    let queued = tl.queue(
        &owner,
        1000,
        target.dup(),
        Uint256::from_u64(0),
        b"foo()".to_vec(),
        vec![],
        Uint256::from_u64(1010),
    );
    assert!(queued.is_ok());
    let early = tl.execute(
        &owner,
        1009,
        target.dup(),
        Uint256::from_u64(0),
        b"foo()".to_vec(),
        vec![],
        Uint256::from_u64(1010),
    );
    assert!(matches!(early, Err(TimeLockError::TimestampNotPassedError { .. })));
    let plan = tl
        .execute(
            &owner,
            1010,
            target.dup(),
            Uint256::from_u64(0),
            b"foo()".to_vec(),
            vec![],
            Uint256::from_u64(1010),
        )
        .unwrap();
    let ev = execute_outcome(plan, true).unwrap();
    assert_eq!(ev.timestamp, Uint256::from_u64(1010));
    let again = tl.execute(
        &owner,
        1500,
        target.dup(),
        Uint256::from_u64(0),
        b"foo()".to_vec(),
        vec![],
        Uint256::from_u64(1010),
    );
    assert!(matches!(again, Err(TimeLockError::NotQueuedError { .. })));
    let out_of_range = tl.queue(
        &owner,
        1000,
        target.dup(),
        Uint256::from_u64(0),
        b"foo()".to_vec(),
        vec![],
        Uint256::from_u64(2001),
    );
    assert!(matches!(out_of_range, Err(TimeLockError::TimestampNotInRangeError { .. })));
}
