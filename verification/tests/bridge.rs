use indy::bridge::{Completion, Settlement};
use indy::{Bridge, ErrorCode, INVALID_COMMAND_HANDLE};

#[test]
fn a_new_bridge_has_issued_nothing() {
    let bridge: Bridge<&str> = Bridge::new();
    assert_eq!(bridge.issued(), 0);
    assert_eq!(bridge.pending(), 0);
    assert!(!bridge.is_pending(1));
    assert!(!bridge.is_pending(INVALID_COMMAND_HANDLE));
}

#[test]
fn handles_are_issued_in_sequence_from_one() {
    let mut bridge = Bridge::new();
    assert_eq!(bridge.issue("a"), Ok(1));
    assert_eq!(bridge.issue("b"), Ok(2));
    assert_eq!(bridge.issue("c"), Ok(3));
    assert_eq!(bridge.issued(), 3);
    assert_eq!(bridge.pending(), 3);
    assert!(bridge.is_pending(1) && bridge.is_pending(2) && bridge.is_pending(3));
    assert!(!bridge.is_pending(4));
}

#[test]
fn a_successful_callback_hands_out_the_slot() {
    let mut bridge = Bridge::new();
    let handle = bridge.issue("slot").unwrap();
    assert!(matches!(bridge.settle(handle, ErrorCode::Success), Settlement::Awaiting));
    assert!(bridge.is_pending(handle));
    assert!(matches!(bridge.complete(handle, ErrorCode::Success), Completion::Succeeded("slot")));
    assert!(!bridge.is_pending(handle));
    assert_eq!(bridge.pending(), 0);
}

#[test]
fn a_failing_callback_hands_out_the_slot_and_the_kind() {
    let mut bridge = Bridge::new();
    let handle = bridge.issue(17u8).unwrap();
    assert!(matches!(
        bridge.complete(handle, ErrorCode::WalletItemNotFound),
        Completion::Failed(17, ErrorCode::WalletItemNotFound)
    ));
    assert!(!bridge.is_pending(handle));
}

#[test]
fn a_second_callback_is_rejected() {
    let mut bridge = Bridge::new();
    let handle = bridge.issue("slot").unwrap();
    assert!(matches!(bridge.complete(handle, ErrorCode::Success), Completion::Succeeded(_)));
    assert!(matches!(bridge.complete(handle, ErrorCode::Success), Completion::Rejected));
    assert!(matches!(bridge.complete(handle, ErrorCode::CommonIOError), Completion::Rejected));
    assert_eq!(bridge.pending(), 0);
    assert_eq!(bridge.issued(), 1);
}

#[test]
fn an_immediate_failure_resolves_at_once() {
    let mut bridge = Bridge::new();
    let handle = bridge.issue("slot").unwrap();
    assert!(matches!(
        bridge.settle(handle, ErrorCode::CommonInvalidParam2),
        Settlement::Refused("slot")
    ));
    assert!(!bridge.is_pending(handle));
    assert_eq!(bridge.pending(), 0);
}

#[test]
fn no_callback_is_accepted_after_an_immediate_failure() {
    let mut bridge = Bridge::new();
    let handle = bridge.issue("slot").unwrap();
    assert!(matches!(bridge.settle(handle, ErrorCode::WalletInvalidHandle), Settlement::Refused(_)));
    assert!(matches!(bridge.complete(handle, ErrorCode::Success), Completion::Rejected));
    assert!(matches!(bridge.settle(handle, ErrorCode::WalletInvalidHandle), Settlement::NotPending));
}

#[test]
fn a_status_after_the_callback_finds_nothing_pending() {
    let mut bridge = Bridge::new();
    let handle = bridge.issue("slot").unwrap();
    assert!(matches!(bridge.complete(handle, ErrorCode::Success), Completion::Succeeded(_)));
    assert!(matches!(bridge.settle(handle, ErrorCode::Success), Settlement::NotPending));
    assert!(matches!(bridge.settle(handle, ErrorCode::CommonIOError), Settlement::NotPending));
}

#[test]
fn a_callback_for_a_handle_never_issued_is_rejected() {
    let mut bridge: Bridge<u8> = Bridge::new();
    assert!(matches!(bridge.complete(1, ErrorCode::Success), Completion::Rejected));
    assert!(matches!(bridge.complete(INVALID_COMMAND_HANDLE, ErrorCode::Success), Completion::Rejected));
    assert!(matches!(bridge.complete(-3, ErrorCode::Success), Completion::Rejected));
    assert!(matches!(bridge.settle(1, ErrorCode::CommonIOError), Settlement::NotPending));
    bridge.issue(0).unwrap();
    assert!(matches!(bridge.complete(2, ErrorCode::Success), Completion::Rejected));
    assert_eq!(bridge.pending(), 1);
}

#[test]
fn calls_in_flight_resolve_independently() {
    let mut bridge = Bridge::new();
    let first = bridge.issue("first").unwrap();
    let second = bridge.issue("second").unwrap();
    let third = bridge.issue("third").unwrap();
    assert!(matches!(bridge.complete(second, ErrorCode::Success), Completion::Succeeded("second")));
    assert!(matches!(bridge.settle(third, ErrorCode::PoolLedgerTimeout), Settlement::Refused("third")));
    assert!(bridge.is_pending(first));
    assert_eq!(bridge.pending(), 1);
    assert!(matches!(
        bridge.complete(first, ErrorCode::LedgerNotFound),
        Completion::Failed("first", ErrorCode::LedgerNotFound)
    ));
    assert_eq!(bridge.pending(), 0);
    assert_eq!(bridge.issue("fourth"), Ok(4));
}

#[test]
fn every_handle_is_resolved_once_in_a_long_run() {
    let mut bridge = Bridge::new();
    let mut resolved = 0;
    for round in 0..1000 {
        let handle = bridge.issue(round).unwrap();
        assert_eq!(handle, round + 1);
        if round % 3 == 0 {
            if let Settlement::Refused(slot) = bridge.settle(handle, ErrorCode::CommonIOError) {
                assert_eq!(slot, round);
                resolved += 1;
            }
        } else {
            assert!(matches!(bridge.settle(handle, ErrorCode::Success), Settlement::Awaiting));
        }
        if let Completion::Succeeded(slot) = bridge.complete(handle, ErrorCode::Success) {
            assert_eq!(slot, round);
            assert!(round % 3 != 0);
            resolved += 1;
        }
        assert!(matches!(bridge.complete(handle, ErrorCode::Success), Completion::Rejected));
    }
    assert_eq!(resolved, 1000);
    assert_eq!(bridge.pending(), 0);
    assert_eq!(bridge.issued(), 1000);
}

#[test]
fn a_bridge_stops_issuing_at_its_limit() {
    let mut bridge = Bridge::with_limit(2);
    assert_eq!(bridge.issue("a"), Ok(1));
    assert_eq!(bridge.issue("b"), Ok(2));
    assert_eq!(bridge.issue("c"), Err("c"));
    assert_eq!(bridge.issued(), 2);
    assert_eq!(bridge.pending(), 2);
    assert!(matches!(bridge.complete(1, ErrorCode::Success), Completion::Succeeded("a")));
    assert_eq!(bridge.issue("d"), Err("d"));
    assert!(!bridge.is_pending(3));
}

#[test]
fn a_bridge_with_no_handles_issues_none() {
    let mut bridge = Bridge::with_limit(0);
    assert_eq!(bridge.issue(1u8), Err(1));
    let mut bridge = Bridge::with_limit(-7);
    assert_eq!(bridge.issue(2u8), Err(2));
    assert_eq!(bridge.issued(), 0);
}
