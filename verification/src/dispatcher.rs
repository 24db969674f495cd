//! Host dispatcher: what the host does with one call from the guest.
//!
//! A call passes through fixed stages. The function id selects a handler;
//! an id without one is a protocol violation and ends the call at once. The
//! handler's argument is decoded from the channel; an argument that does
//! not decode ends the call with a failure. The weight of the work is
//! charged; a caller who cannot pay ends the call with a failure, before
//! anything was done. Only then is the host's own work named, for the
//! runtime to execute, and its outcome becomes the status code that the
//! guest receives.

use crate::channel::{Channel, ChannelView};
use crate::codec::{
    bytes_decoding, bytes_encoding, lemma_bytes_round_trip, lemma_u32_decoding_total,
    lemma_u32_round_trip, u32_decoding, u32_encoding, Custom,
};
use crate::deferred::{AccountId, DeferredCall, DeferredCallView, SCHEDULER_HANDLER_SELECTOR};
use crate::status::{ProtocolViolation, STATUS_CUSTOM_CALL_FAILED, STATUS_SUCCESS};
use crate::table::{entry_of, is_registered, shape_admits, table, Method};
use vstd::prelude::*;

verus! {

/// The host's side of the extension.
#[derive(Clone, Copy, Debug, PartialEq, Eq, Structural)]
pub struct MyExtension;

/// How a call that ran to its end returns to the guest.
#[derive(Clone, Copy, Debug, PartialEq, Eq, Structural)]
pub enum RetVal {
    /// Control goes back to the guest, with this status code.
    Converging(u32),
}

/// Why a call ended without a status code.
#[derive(Clone, Copy, Debug, PartialEq, Eq, Structural)]
pub enum DispatchError {
    /// The argument in the channel is not an encoding of what the function
    /// takes.
    DecodingFailed,
    /// The caller cannot pay for the work.
    OutOfWeight,
}

/// The host's own work refused the call.
#[derive(Clone, Copy, Debug, PartialEq, Eq, Structural)]
pub struct HostRejected;

/// The host's prices.
#[derive(Clone, Copy, Debug, PartialEq, Eq, Structural)]
pub struct Weights {
    /// The weight of one write to the host's storage.
    pub db_write: u64,
    /// The weight of handing one call to the scheduler.
    pub schedule: u64,
}

/// Who is calling.
#[derive(Clone, Copy, Debug, PartialEq, Eq)]
pub struct CallContext {
    /// The account that called the guest.
    pub caller: AccountId,
    /// The guest's own address.
    pub address: AccountId,
}

/// The weight of computing a call, before what it writes.
pub const BASE_WEIGHT: u64 = 10_000;

/// A decoded request.
#[derive(Debug, PartialEq, Eq)]
pub enum Request {
    WriteToStorage { value: u32 },
    CustomTypeWithResult { custom: Custom },
    ScheduleCall { at: u32 },
}

/// A decoded request, as mathematics.
pub enum RequestView {
    WriteToStorage { value: u32 },
    CustomTypeWithResult { bytes: Seq<u8> },
    ScheduleCall { at: u32 },
}

/// Work that only the runtime around the dispatcher can do.
#[derive(Debug, PartialEq, Eq)]
pub enum HostAction {
    /// Store `value` in the host's state, on behalf of `origin`.
    StoreNumber { origin: AccountId, value: u32 },
    /// Hand `call` to the scheduler, on behalf of `origin`.
    Schedule { origin: AccountId, call: DeferredCall },
}

/// The runtime's work, as mathematics.
pub enum HostActionView {
    StoreNumber { origin: AccountId, value: u32 },
    Schedule { origin: AccountId, call: DeferredCallView },
}

/// Where a call stands once the dispatcher has done its part.
#[derive(Debug, PartialEq, Eq)]
pub enum Dispatch {
    /// The call is paid for and the runtime must now do this work.
    Execute(HostAction),
    /// The call is over, with this response.
    Respond(Result<RetVal, DispatchError>),
}

/// Where a call stands, as mathematics.
pub enum DispatchView {
    Execute(HostActionView),
    Respond(Result<RetVal, DispatchError>),
}

impl View for Request {
    type V = RequestView;

    open spec fn view(&self) -> RequestView {
        match self {
            Request::WriteToStorage { value } => RequestView::WriteToStorage { value: *value },
            Request::CustomTypeWithResult { custom } => RequestView::CustomTypeWithResult {
                bytes: custom@,
            },
            Request::ScheduleCall { at } => RequestView::ScheduleCall { at: *at },
        }
    }
}

impl View for HostAction {
    type V = HostActionView;

    open spec fn view(&self) -> HostActionView {
        match self {
            HostAction::StoreNumber { origin, value } => HostActionView::StoreNumber {
                origin: *origin,
                value: *value,
            },
            HostAction::Schedule { origin, call } => HostActionView::Schedule {
                origin: *origin,
                call: call@,
            },
        }
    }
}

impl View for Dispatch {
    type V = DispatchView;

    open spec fn view(&self) -> DispatchView {
        match self {
            Dispatch::Execute(action) => DispatchView::Execute(action@),
            Dispatch::Respond(response) => DispatchView::Respond(*response),
        }
    }
}

impl RequestView {
    /// The function that the request is for.
    pub open spec fn method(self) -> Method {
        match self {
            RequestView::WriteToStorage { .. } => Method::WriteToStorage,
            RequestView::CustomTypeWithResult { .. } => Method::CustomTypeWithResult,
            RequestView::ScheduleCall { .. } => Method::ScheduleCall,
        }
    }
}

/// Whether `n` is 1, 2, 4, 8 and so on.
pub open spec fn is_power_of_two(n: nat) -> bool
    decreases n,
{
    n == 1 || (n > 1 && n % 2 == 0 && is_power_of_two(n / 2))
}

/// The handler that the host has for a function id.
pub open spec fn handler_of(func_id: u32) -> Option<Method> {
    if func_id == 1 {
        Some(Method::WriteToStorage)
    } else if func_id == 2 {
        Some(Method::CustomTypeWithResult)
    } else if func_id == 3 {
        Some(Method::ScheduleCall)
    } else {
        None
    }
}

/// The `u32` at the front of the unread input, if four bytes are left.
pub open spec fn leading_u32(unread: Seq<u8>) -> Option<u32> {
    if unread.len() >= 4 {
        u32_decoding(unread.subrange(0, 4))
    } else {
        None
    }
}

/// The request that the unread input holds for a function, if it holds
/// one. A `u32` is taken from the first four bytes; a value of variable
/// size must fill the input exactly.
pub open spec fn decoded(method: Method, unread: Seq<u8>) -> Option<RequestView> {
    match method {
        Method::WriteToStorage => match leading_u32(unread) {
            Some(value) => Some(RequestView::WriteToStorage { value }),
            None => None,
        },
        Method::CustomTypeWithResult => match bytes_decoding(unread) {
            Some(bytes) => Some(RequestView::CustomTypeWithResult { bytes }),
            None => None,
        },
        Method::ScheduleCall => match leading_u32(unread) {
            Some(at) => Some(RequestView::ScheduleCall { at }),
            None => None,
        },
    }
}

/// The number of input bytes that decoding a request of a function takes.
pub open spec fn input_taken(method: Method, unread: Seq<u8>) -> int {
    match method {
        Method::WriteToStorage => 4,
        Method::CustomTypeWithResult => unread.len() as int,
        Method::ScheduleCall => 4,
    }
}

/// The weight of a call of a function.
pub open spec fn weight_of(method: Method, weights: Weights) -> nat {
    match method {
        Method::WriteToStorage => (BASE_WEIGHT + weights.db_write) as nat,
        Method::CustomTypeWithResult => (BASE_WEIGHT + weights.db_write) as nat,
        Method::ScheduleCall => weights.schedule as nat,
    }
}

/// What follows for a request that is decoded and paid for, with
/// `weight_left` remaining after the charge.
pub open spec fn planned(request: RequestView, context: CallContext, weight_left: u64) -> DispatchView {
    match request {
        RequestView::WriteToStorage { value } => DispatchView::Execute(
            HostActionView::StoreNumber { origin: context.caller, value },
        ),
        RequestView::CustomTypeWithResult { bytes } => if is_power_of_two(bytes.len()) {
            DispatchView::Execute(
                HostActionView::StoreNumber { origin: context.caller, value: bytes.len() as u32 },
            )
        } else {
            DispatchView::Respond(Ok(RetVal::Converging(STATUS_CUSTOM_CALL_FAILED)))
        },
        RequestView::ScheduleCall { at } => DispatchView::Execute(
            HostActionView::Schedule {
                origin: context.caller,
                call: DeferredCallView {
                    dest: context.address,
                    selector: SCHEDULER_HANDLER_SELECTOR@,
                    at,
                    gas_limit: weight_left,
                    args: Seq::empty(),
                },
            },
        ),
    }
}

/// Where a call of `func_id` stands once the dispatcher has done its part,
/// given the channel as the call found it.
pub open spec fn dispatched(
    func_id: u32,
    channel: ChannelView,
    context: CallContext,
    weights: Weights,
) -> Result<DispatchView, ProtocolViolation> {
    match handler_of(func_id) {
        None => Err(ProtocolViolation::UnknownFunctionId(func_id)),
        Some(method) => Ok(
            match decoded(method, channel.unread) {
                None => DispatchView::Respond(Err(DispatchError::DecodingFailed)),
                Some(request) => if weight_of(method, weights) > channel.weight_left {
                    DispatchView::Respond(Err(DispatchError::OutOfWeight))
                } else {
                    planned(
                        request,
                        context,
                        (channel.weight_left - weight_of(method, weights)) as u64,
                    )
                },
            },
        ),
    }
}

/// The channel as a call of `func_id` leaves it. Input is consumed only by
/// a request that decodes; weight is taken only by a charge that succeeds.
pub open spec fn channel_after(func_id: u32, channel: ChannelView, weights: Weights) -> ChannelView {
    match handler_of(func_id) {
        None => channel,
        Some(method) => match decoded(method, channel.unread) {
            None => channel,
            Some(_) => {
                let taken = input_taken(method, channel.unread);
                let read = ChannelView {
                    consumed: channel.consumed + channel.unread.subrange(0, taken),
                    unread: channel.unread.skip(taken),
                    ..channel
                };
                if weight_of(method, weights) > channel.weight_left {
                    read
                } else {
                    ChannelView {
                        weight_left: (channel.weight_left - weight_of(method, weights)) as nat,
                        charged: channel.charged + weight_of(method, weights),
                        ..read
                    }
                }
            },
        },
    }
}

/// Whether `n` is a power of two.
pub fn is_power_of_two_usize(n: usize) -> (r: bool)
    ensures
        r == is_power_of_two(n as nat),
{
    if n == 0 {
        return false;
    }
    let mut m: usize = n;
    while m % 2 == 0
        invariant
            m >= 1,
            is_power_of_two(m as nat) == is_power_of_two(n as nat),
        decreases m,
    {
        m = m / 2;
    }
    m == 1
}

impl Request {
    /// The function that the request is for.
    pub fn method(&self) -> (method: Method)
        ensures
            method == self@.method(),
    {
        match self {
            Request::WriteToStorage { .. } => Method::WriteToStorage,
            Request::CustomTypeWithResult { .. } => Method::CustomTypeWithResult,
            Request::ScheduleCall { .. } => Method::ScheduleCall,
        }
    }
}

impl Weights {
    /// The weight of a call of `method`, or `None` where it is more than
    /// any caller can hold.
    pub fn weight(&self, method: Method) -> (weight: Option<u64>)
        ensures
            match weight {
                Some(w) => w == weight_of(method, *self),
                None => weight_of(method, *self) > u64::MAX,
            },
    {
        match method {
            Method::WriteToStorage => BASE_WEIGHT.checked_add(self.db_write),
            Method::CustomTypeWithResult => BASE_WEIGHT.checked_add(self.db_write),
            Method::ScheduleCall => Some(self.schedule),
        }
    }
}

impl MyExtension {
    /// First stage: finds the handler for a function id. An id without a
    /// handler is a protocol violation.
    pub fn select(func_id: u32) -> (r: Result<Method, ProtocolViolation>)
        ensures
            match r {
                Ok(method) => handler_of(func_id) == Some(method),
                Err(violation) => handler_of(func_id) is None && violation
                    == ProtocolViolation::UnknownFunctionId(func_id),
            },
    {
        if func_id == 1 {
            Ok(Method::WriteToStorage)
        } else if func_id == 2 {
            Ok(Method::CustomTypeWithResult)
        } else if func_id == 3 {
            Ok(Method::ScheduleCall)
        } else {
            Err(ProtocolViolation::UnknownFunctionId(func_id))
        }
    }

    /// Second stage: decodes the request from the channel. A `u32` is read
    /// by its known size; a value of variable size is read over as many
    /// bytes as the channel reports. Input that does not decode is left
    /// where it is.
    pub fn decode(method: Method, channel: &mut Channel) -> (r: Result<Request, DispatchError>)
        ensures
            match r {
                Ok(request) => {
                    &&& decoded(method, old(channel)@.unread) == Some(request@)
                    &&& final(channel)@ == (ChannelView {
                        consumed: old(channel)@.consumed + old(channel)@.unread.subrange(
                            0,
                            input_taken(method, old(channel)@.unread),
                        ),
                        unread: old(channel)@.unread.skip(input_taken(method, old(channel)@.unread)),
                        ..old(channel)@
                    })
                },
                Err(error) => {
                    &&& decoded(method, old(channel)@.unread) is None
                    &&& error == DispatchError::DecodingFailed
                    &&& final(channel)@ == old(channel)@
                },
            },
    {
        match method {
            Method::WriteToStorage => match channel.read_bounded_u32() {
                Ok(value) => {
                    proof {
                        lemma_u32_round_trip(value);
                    }
                    Ok(Request::WriteToStorage { value })
                },
                Err(_) => Err(DispatchError::DecodingFailed),
            },
            Method::CustomTypeWithResult => {
                let len = channel.input_len();
                assert(old(channel)@.unread.subrange(0, len as int) =~= old(channel)@.unread);
                match channel.read_unbounded_custom(len) {
                    Ok(custom) => Ok(Request::CustomTypeWithResult { custom }),
                    Err(_) => Err(DispatchError::DecodingFailed),
                }
            },
            Method::ScheduleCall => match channel.read_bounded_u32() {
                Ok(at) => {
                    proof {
                        lemma_u32_round_trip(at);
                    }
                    Ok(Request::ScheduleCall { at })
                },
                Err(_) => Err(DispatchError::DecodingFailed),
            },
        }
    }

    /// Third stage: charges the weight of the call. The charge comes before
    /// any of the host's work; a caller who cannot pay is charged nothing.
    pub fn meter(method: Method, weights: &Weights, channel: &mut Channel) -> (r: Result<
        (),
        DispatchError,
    >)
        ensures
            r is Ok <==> weight_of(method, *weights) <= old(channel)@.weight_left,
            match r {
                Ok(_) => final(channel)@ == (ChannelView {
                    weight_left: (old(channel)@.weight_left - weight_of(method, *weights)) as nat,
                    charged: old(channel)@.charged + weight_of(method, *weights),
                    ..old(channel)@
                }),
                Err(error) => error == DispatchError::OutOfWeight && final(channel)@ == old(
                    channel,
                )@,
            },
    {
        let left: u64 = channel.weight_left();
        let weight: u64 = match weights.weight(method) {
            Some(weight) => weight,
            None => {
                return Err(DispatchError::OutOfWeight);
            },
        };
        if weight > left {
            return Err(DispatchError::OutOfWeight);
        }
        match channel.charge_weight(weight) {
            Ok(_) => Ok(()),
            Err(_) => Err(DispatchError::OutOfWeight),
        }
    }

    /// Fourth stage: names the host's work for a request that is paid for,
    /// or ends the call where the host's own rule rejects the request. A
    /// value of variable size is accepted only if its length is a power of
    /// two. A deferred call may use `weight_left`, the weight that remains
    /// after the charge.
    pub fn plan(request: Request, context: &CallContext, weight_left: u64) -> (dispatch: Dispatch)
        ensures
            dispatch@ == planned(request@, *context, weight_left),
    {
        match request {
            Request::WriteToStorage { value } => Dispatch::Execute(
                HostAction::StoreNumber { origin: context.caller, value },
            ),
            Request::CustomTypeWithResult { custom } => {
                let len: usize = custom.len();
                if is_power_of_two_usize(len) {
                    Dispatch::Execute(
                        HostAction::StoreNumber { origin: context.caller, value: len as u32 },
                    )
                } else {
                    Dispatch::Respond(Ok(RetVal::Converging(STATUS_CUSTOM_CALL_FAILED)))
                }
            },
            Request::ScheduleCall { at } => {
                let call = DeferredCall::new(
                    context.address,
                    SCHEDULER_HANDLER_SELECTOR,
                    at,
                    weight_left,
                    Vec::new(),
                );
                Dispatch::Execute(HostAction::Schedule { origin: context.caller, call })
            },
        }
    }

    /// Last stage: turns the outcome of the host's work into the response.
    /// Success is status zero; a rejection is the status that the guest
    /// reads as a failed call. No function returns a value, so nothing is
    /// written to the channel.
    pub fn respond(outcome: Result<(), HostRejected>) -> (ret: RetVal)
        ensures
            ret == RetVal::Converging(
                if outcome is Ok {
                    STATUS_SUCCESS
                } else {
                    STATUS_CUSTOM_CALL_FAILED
                },
            ),
    {
        match outcome {
            Ok(_) => RetVal::Converging(STATUS_SUCCESS),
            Err(_) => RetVal::Converging(STATUS_CUSTOM_CALL_FAILED),
        }
    }

    /// Takes one call from the guest through selecting, decoding, metering
    /// and planning.
    pub fn call(func_id: u32, channel: &mut Channel, context: &CallContext, weights: &Weights) -> (r:
        Result<Dispatch, ProtocolViolation>)
        ensures
            match r {
                Ok(dispatch) => dispatched(func_id, old(channel)@, *context, *weights) == Ok::<
                    DispatchView,
                    ProtocolViolation,
                >(dispatch@),
                Err(violation) => dispatched(func_id, old(channel)@, *context, *weights) == Err::<
                    DispatchView,
                    ProtocolViolation,
                >(violation),
            },
            final(channel)@ == channel_after(func_id, old(channel)@, *weights),
    {
        let method = match MyExtension::select(func_id) {
            Ok(method) => method,
            Err(violation) => {
                return Err(violation);
            },
        };
        let request = match MyExtension::decode(method, channel) {
            Ok(request) => request,
            Err(error) => {
                return Ok(Dispatch::Respond(Err(error)));
            },
        };
        match MyExtension::meter(method, weights, channel) {
            Ok(_) => Ok(MyExtension::plan(request, context, channel.weight_left())),
            Err(error) => Ok(Dispatch::Respond(Err(error))),
        }
    }
}

/// The host has a handler for exactly the ids in the guest's table, and
/// under each id the handler of the function that the table files there.
pub proof fn lemma_handlers_match_table(func_id: u32)
    ensures
        handler_of(func_id) is Some <==> is_registered(func_id),
        forall|method: Method|
            handler_of(func_id) == Some(method) <==> (#[trigger] entry_of(method)).func_id
                == func_id,
{
    if let Some(method) = handler_of(func_id) {
        assert(entry_of(method).func_id == func_id);
        match method {
            Method::WriteToStorage => {
                assert(table()[0].func_id == func_id);
            },
            Method::CustomTypeWithResult => {
                assert(table()[1].func_id == func_id);
            },
            Method::ScheduleCall => {
                assert(table()[2].func_id == func_id);
            },
        }
    }
    assert forall|method: Method| (#[trigger] entry_of(method)).func_id == func_id implies handler_of(
        func_id,
    ) == Some(method) by {
        match method {
            Method::WriteToStorage => {},
            Method::CustomTypeWithResult => {},
            Method::ScheduleCall => {},
        }
    }
}

/// A call of a registered function always comes to stand at the host's
/// work or at a response. A call of any other id is a protocol violation
/// that names the id, and leaves the channel as it was.
pub proof fn lemma_dispatch_reaches_one_branch(
    func_id: u32,
    channel: ChannelView,
    context: CallContext,
    weights: Weights,
)
    ensures
        is_registered(func_id) <==> dispatched(func_id, channel, context, weights) is Ok,
        !is_registered(func_id) ==> dispatched(func_id, channel, context, weights) == Err::<
            DispatchView,
            ProtocolViolation,
        >(ProtocolViolation::UnknownFunctionId(func_id)) && channel_after(func_id, channel, weights)
            == channel,
{
    lemma_handlers_match_table(func_id);
}

/// The charge comes before the work. Where a call comes to stand at the
/// host's work, its full weight has been taken from the caller. Where the
/// caller cannot pay the weight of the function, the call ends in a
/// failure, names no work, and takes no weight.
pub proof fn lemma_charge_precedes_work(
    func_id: u32,
    channel: ChannelView,
    context: CallContext,
    weights: Weights,
)
    requires
        handler_of(func_id) is Some,
    ensures
        ({
            let method = handler_of(func_id)->0;
            let weight = weight_of(method, weights);
            let after = channel_after(func_id, channel, weights);
            let outcome = dispatched(func_id, channel, context, weights);
            &&& outcome matches Ok(DispatchView::Execute(_)) ==> {
                &&& weight <= channel.weight_left
                &&& after.weight_left == channel.weight_left - weight
                &&& after.charged == channel.charged + weight
            }
            &&& weight > channel.weight_left ==> {
                &&& outcome matches Ok(DispatchView::Respond(Err(_)))
                &&& after.weight_left == channel.weight_left
                &&& after.charged == channel.charged
            }
        }),
{
}

/// What the guest encodes, the host decodes: the request that the host
/// reads from the encoding of an argument holds that argument.
pub proof fn lemma_request_round_trip(request: RequestView)
    requires
        request matches RequestView::CustomTypeWithResult { bytes } ==> bytes.len() <= u32::MAX,
    ensures
        decoded(
            request.method(),
            match request {
                RequestView::WriteToStorage { value } => u32_encoding(value),
                RequestView::CustomTypeWithResult { bytes } => bytes_encoding(bytes),
                RequestView::ScheduleCall { at } => u32_encoding(at),
            },
        ) == Some(request),
{
    match request {
        RequestView::WriteToStorage { value } => {
            lemma_u32_round_trip(value);
            assert(u32_encoding(value).subrange(0, 4) =~= u32_encoding(value));
        },
        RequestView::CustomTypeWithResult { bytes } => {
            lemma_bytes_round_trip(bytes);
        },
        RequestView::ScheduleCall { at } => {
            lemma_u32_round_trip(at);
            assert(u32_encoding(at).subrange(0, 4) =~= u32_encoding(at));
        },
    }
}

/// The host decodes every argument that has the shape the table declares
/// for the function.
pub proof fn lemma_declared_shape_decodes(method: Method, unread: Seq<u8>)
    requires
        shape_admits(entry_of(method).input, unread),
    ensures
        decoded(method, unread) is Some,
{
    lemma_u32_decoding_total(unread);
    if unread.len() == 4 {
        assert(unread.subrange(0, 4) =~= unread);
    }
}

} // verus!
