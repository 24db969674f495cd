use chain_extension::dispatcher::is_power_of_two_usize;
use chain_extension::{
    AccountId, CallContext, Channel, Custom, DeferredCall, Dispatch, DispatchError, HostAction,
    HostRejected, Method, MyExtension, ProtocolViolation, Request, RetVal, Weights, BASE_WEIGHT,
    SCHEDULER_HANDLER_SELECTOR,
};

const CALLER: AccountId = AccountId { bytes: [1; 32] };
const CONTRACT: AccountId = AccountId { bytes: [2; 32] };
const CONTEXT: CallContext = CallContext { caller: CALLER, address: CONTRACT };
const WEIGHTS: Weights = Weights { db_write: 100, schedule: 7 };

#[test]
fn select_knows_three_ids() {
    assert_eq!(MyExtension::select(1), Ok(Method::WriteToStorage));
    assert_eq!(MyExtension::select(2), Ok(Method::CustomTypeWithResult));
    assert_eq!(MyExtension::select(3), Ok(Method::ScheduleCall));
    for func_id in [0u32, 4, 99, u32::MAX] {
        assert_eq!(
            MyExtension::select(func_id),
            Err(ProtocolViolation::UnknownFunctionId(func_id))
        );
    }
}

#[test]
fn weight_of_each_function() {
    assert_eq!(BASE_WEIGHT, 10_000);
    assert_eq!(WEIGHTS.weight(Method::WriteToStorage), Some(10_100));
    assert_eq!(WEIGHTS.weight(Method::CustomTypeWithResult), Some(10_100));
    assert_eq!(WEIGHTS.weight(Method::ScheduleCall), Some(7));
    let dear = Weights { db_write: u64::MAX - 9_999, schedule: u64::MAX };
    assert_eq!(dear.weight(Method::WriteToStorage), None);
    assert_eq!(dear.weight(Method::ScheduleCall), Some(u64::MAX));
    let nearly = Weights { db_write: u64::MAX - 10_000, schedule: 0 };
    assert_eq!(nearly.weight(Method::CustomTypeWithResult), Some(u64::MAX));
}

#[test]
fn powers_of_two() {
    for n in [1usize, 2, 4, 8, 1024, 1 << 31] {
        assert!(is_power_of_two_usize(n));
        assert_eq!(is_power_of_two_usize(n), n.is_power_of_two());
    }
    for n in [0usize, 3, 5, 6, 7, 12, 1023, usize::MAX] {
        assert!(!is_power_of_two_usize(n));
        assert_eq!(is_power_of_two_usize(n), n.is_power_of_two());
    }
}

#[test]
fn store_is_decoded_charged_and_planned() {
    let mut channel = Channel::new(vec![42, 0, 0, 0], 1_000_000);
    let dispatch = MyExtension::call(1, &mut channel, &CONTEXT, &WEIGHTS);
    assert_eq!(
        dispatch,
        Ok(Dispatch::Execute(HostAction::StoreNumber { origin: CALLER, value: 42 }))
    );
    assert_eq!(channel.charged(), 10_100);
    assert_eq!(channel.weight_left(), 989_900);
    assert_eq!(channel.input_len(), 0);
    assert!(channel.output().is_empty());
}

#[test]
fn store_reads_only_its_four_bytes() {
    let mut channel = Channel::new(vec![1, 1, 0, 0, 9, 9], 20_000);
    let dispatch = MyExtension::call(1, &mut channel, &CONTEXT, &WEIGHTS);
    assert_eq!(
        dispatch,
        Ok(Dispatch::Execute(HostAction::StoreNumber { origin: CALLER, value: 257 }))
    );
    assert_eq!(channel.input_len(), 2);
}

#[test]
fn accepted_custom_value_stores_its_length() {
    for len in [1usize, 2, 4, 64] {
        let input = Custom::new(vec![3; len]).unwrap().encode();
        let mut channel = Channel::new(input, 10_100);
        let dispatch = MyExtension::call(2, &mut channel, &CONTEXT, &WEIGHTS);
        assert_eq!(
            dispatch,
            Ok(Dispatch::Execute(HostAction::StoreNumber { origin: CALLER, value: len as u32 }))
        );
        assert_eq!((channel.charged(), channel.weight_left()), (10_100, 0));
    }
}

#[test]
fn rejected_custom_value_is_status_one_after_the_charge() {
    for len in [0usize, 3, 5, 6, 100] {
        let input = Custom::new(vec![3; len]).unwrap().encode();
        let mut channel = Channel::new(input, 50_000);
        let dispatch = MyExtension::call(2, &mut channel, &CONTEXT, &WEIGHTS);
        assert_eq!(dispatch, Ok(Dispatch::Respond(Ok(RetVal::Converging(1)))));
        assert_eq!(channel.charged(), 10_100);
        assert_eq!(channel.input_len(), 0);
    }
}

#[test]
fn schedule_plans_a_deferred_call_with_the_weight_that_is_left() {
    let mut channel = Channel::new(vec![100, 0, 0, 0], 1_000);
    let dispatch = MyExtension::call(3, &mut channel, &CONTEXT, &WEIGHTS);
    let expected = DeferredCall::new(CONTRACT, SCHEDULER_HANDLER_SELECTOR, 100, 993, vec![]);
    assert_eq!(
        dispatch,
        Ok(Dispatch::Execute(HostAction::Schedule { origin: CALLER, call: expected }))
    );
    assert_eq!((channel.charged(), channel.weight_left()), (7, 993));
}

#[test]
fn undecodable_argument_ends_the_call_untouched() {
    let cases: [(u32, Vec<u8>); 6] = [
        (1, vec![]),
        (1, vec![1, 2, 3]),
        (2, vec![]),
        (2, vec![12, 1, 2]),
        (2, vec![8, 1, 2, 3]),
        (3, vec![0, 0]),
    ];
    for (func_id, input) in cases {
        let len = input.len();
        let mut channel = Channel::new(input, 1_000_000);
        let dispatch = MyExtension::call(func_id, &mut channel, &CONTEXT, &WEIGHTS);
        assert_eq!(dispatch, Ok(Dispatch::Respond(Err(DispatchError::DecodingFailed))));
        assert_eq!(channel.charged(), 0);
        assert_eq!(channel.input_len(), len);
    }
}

#[test]
fn caller_who_cannot_pay_gets_no_work_and_no_charge() {
    let cases: [(u32, Vec<u8>, u64); 4] = [
        (1, vec![42, 0, 0, 0], 10_099),
        (1, vec![42, 0, 0, 0], 0),
        (2, vec![8, 1, 2], 10_099),
        (3, vec![100, 0, 0, 0], 6),
    ];
    for (func_id, input, budget) in cases {
        let mut channel = Channel::new(input, budget);
        let dispatch = MyExtension::call(func_id, &mut channel, &CONTEXT, &WEIGHTS);
        assert_eq!(dispatch, Ok(Dispatch::Respond(Err(DispatchError::OutOfWeight))));
        assert_eq!((channel.charged(), channel.weight_left()), (0, budget));
    }
}

#[test]
fn exact_budget_pays() {
    let mut channel = Channel::new(vec![42, 0, 0, 0], 10_100);
    let dispatch = MyExtension::call(1, &mut channel, &CONTEXT, &WEIGHTS);
    assert!(matches!(dispatch, Ok(Dispatch::Execute(_))));
    assert_eq!((channel.charged(), channel.weight_left()), (10_100, 0));
}

#[test]
fn weight_beyond_any_budget_cannot_be_paid() {
    let dear = Weights { db_write: u64::MAX, schedule: 0 };
    let mut channel = Channel::new(vec![42, 0, 0, 0], u64::MAX);
    let dispatch = MyExtension::call(1, &mut channel, &CONTEXT, &dear);
    assert_eq!(dispatch, Ok(Dispatch::Respond(Err(DispatchError::OutOfWeight))));
    assert_eq!(channel.charged(), 0);
}

#[test]
fn unknown_id_is_a_violation_whatever_the_channel_holds() {
    for input in [vec![], vec![42, 0, 0, 0], vec![8, 1, 2]] {
        let len = input.len();
        let mut channel = Channel::new(input, 1_000_000);
        let dispatch = MyExtension::call(99, &mut channel, &CONTEXT, &WEIGHTS);
        assert_eq!(dispatch, Err(ProtocolViolation::UnknownFunctionId(99)));
        assert_eq!((channel.charged(), channel.input_len()), (0, len));
    }
    let mut channel = Channel::new(vec![], 0);
    assert_eq!(
        MyExtension::call(0, &mut channel, &CONTEXT, &WEIGHTS),
        Err(ProtocolViolation::UnknownFunctionId(0))
    );
}

#[test]
fn stages_compose_to_call() {
    let mut staged = Channel::new(vec![8, 1, 2], 20_000);
    let method = MyExtension::select(2).unwrap();
    let request = MyExtension::decode(method, &mut staged).unwrap();
    assert_eq!(request.method(), Method::CustomTypeWithResult);
    assert_eq!(
        request,
        Request::CustomTypeWithResult { custom: Custom::new(vec![1, 2]).unwrap() }
    );
    assert_eq!(MyExtension::meter(method, &WEIGHTS, &mut staged), Ok(()));
    let planned = MyExtension::plan(request, &CONTEXT, staged.weight_left());
    let mut whole = Channel::new(vec![8, 1, 2], 20_000);
    assert_eq!(MyExtension::call(2, &mut whole, &CONTEXT, &WEIGHTS), Ok(planned));
    assert_eq!(staged, whole);
}

#[test]
fn meter_fails_without_charging() {
    let mut channel = Channel::new(vec![], 5);
    assert_eq!(
        MyExtension::meter(Method::ScheduleCall, &WEIGHTS, &mut channel),
        Err(DispatchError::OutOfWeight)
    );
    assert_eq!((channel.charged(), channel.weight_left()), (0, 5));
}

#[test]
fn response_maps_the_outcome_of_the_work() {
    assert_eq!(MyExtension::respond(Ok(())), RetVal::Converging(0));
    assert_eq!(MyExtension::respond(Err(HostRejected)), RetVal::Converging(1));
}
