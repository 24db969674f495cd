use chain_extension::deferred::split_selector;
use chain_extension::{AccountId, DeferredCall, Invocation, SCHEDULER_HANDLER_SELECTOR};

const CONTRACT: AccountId = AccountId { bytes: [2; 32] };

#[test]
fn selector_is_four_bytes() {
    assert_eq!(SCHEDULER_HANDLER_SELECTOR, [0x00, 0xC0, 0xFF, 0xEE]);
}

#[test]
fn deferred_call_keeps_what_it_was_made_from() {
    let call = DeferredCall::new(CONTRACT, [1, 2, 3, 4], 100, 5_000, vec![9, 8]);
    assert_eq!(call.dest(), CONTRACT);
    assert_eq!(call.at(), 100);
    assert_eq!(call.gas_limit(), 5_000);
    assert_eq!(call.data(), vec![1, 2, 3, 4, 9, 8]);
}

#[test]
fn data_without_arguments_is_the_selector() {
    let call = DeferredCall::new(CONTRACT, SCHEDULER_HANDLER_SELECTOR, 1, 0, vec![]);
    assert_eq!(call.data(), vec![0x00, 0xC0, 0xFF, 0xEE]);
}

#[test]
fn call_is_due_at_its_point_and_after() {
    let call = DeferredCall::new(CONTRACT, SCHEDULER_HANDLER_SELECTOR, 100, 0, vec![]);
    assert!(!call.is_due(0));
    assert!(!call.is_due(99));
    assert!(call.is_due(100));
    assert!(call.is_due(101));
    assert!(call.is_due(u32::MAX));
}

#[test]
fn replay_before_the_point_hands_the_call_back() {
    let call = DeferredCall::new(CONTRACT, [1, 2, 3, 4], 100, 5_000, vec![7]);
    let same = DeferredCall::new(CONTRACT, [1, 2, 3, 4], 100, 5_000, vec![7]);
    assert_eq!(call.replay(99), Err(same));
}

#[test]
fn replay_at_the_point_invokes_the_guest() {
    let call = DeferredCall::new(CONTRACT, [1, 2, 3, 4], 100, 5_000, vec![7]);
    assert_eq!(
        call.replay(100),
        Ok(Invocation { dest: CONTRACT, gas_limit: 5_000, data: vec![1, 2, 3, 4, 7] })
    );
}

#[test]
fn split_selector_takes_the_first_four_bytes() {
    assert_eq!(split_selector(&[1, 2, 3, 4, 5, 6]), Some(([1, 2, 3, 4], &[5u8, 6][..])));
    assert_eq!(split_selector(&[1, 2, 3, 4]), Some(([1, 2, 3, 4], &[][..])));
    assert_eq!(split_selector(&[1, 2, 3]), None);
    assert_eq!(split_selector(&[]), None);
}

#[test]
fn data_splits_back_into_selector_and_arguments() {
    let call = DeferredCall::new(CONTRACT, [4, 3, 2, 1], 5, 0, vec![10, 20, 30]);
    let data = call.data();
    assert_eq!(split_selector(&data), Some(([4, 3, 2, 1], &[10u8, 20, 30][..])));
}
