//! Deferred call bridge: a call made now, to be run later.
//!
//! The host describes a call back into the guest and hands the description
//! to its scheduler, keyed by the point at which it is to run. When that
//! point has come the description is replayed, once, as a fresh call from
//! outside: its data is the selector of the guest's entry point followed by
//! the encoded arguments.

use vstd::prelude::*;

verus! {

/// The address of an account or contract.
#[derive(Clone, Copy, Debug, PartialEq, Eq)]
pub struct AccountId {
    pub bytes: [u8; 32],
}

/// The selector of the guest's entry point for deferred calls.
pub const SCHEDULER_HANDLER_SELECTOR: [u8; 4] = [0x00, 0xC0, 0xFF, 0xEE];

/// What a deferred call holds, as mathematics.
pub struct DeferredCallView {
    /// The contract to call.
    pub dest: AccountId,
    /// The entry point to call in it.
    pub selector: Seq<u8>,
    /// The point at which the call is to run.
    pub at: u32,
    /// The weight the call may use.
    pub gas_limit: u64,
    /// The encoded arguments.
    pub args: Seq<u8>,
}

impl DeferredCallView {
    /// The data of the call as the guest receives it.
    pub open spec fn data(self) -> Seq<u8> {
        self.selector + self.args
    }
}

/// The description of a call to be run later. It cannot be copied: a call
/// is replayed by giving it up.
#[derive(Debug, PartialEq, Eq)]
pub struct DeferredCall {
    dest: AccountId,
    selector: [u8; 4],
    at: u32,
    gas_limit: u64,
    args: Vec<u8>,
}

/// A call arriving at a contract from outside.
#[derive(Debug, PartialEq, Eq)]
pub struct Invocation {
    pub dest: AccountId,
    pub gas_limit: u64,
    /// The selector of the entry point, then the encoded arguments.
    pub data: Vec<u8>,
}

impl View for DeferredCall {
    type V = DeferredCallView;

    closed spec fn view(&self) -> DeferredCallView {
        DeferredCallView {
            dest: self.dest,
            selector: self.selector@,
            at: self.at,
            gas_limit: self.gas_limit,
            args: self.args@,
        }
    }
}

impl DeferredCall {
    /// Describes a call of the entry point `selector` of contract `dest`
    /// with the encoded arguments `args`, to run at point `at` with at most
    /// `gas_limit` of weight.
    pub fn new(dest: AccountId, selector: [u8; 4], at: u32, gas_limit: u64, args: Vec<u8>) -> (call:
        DeferredCall)
        ensures
            call@ == (DeferredCallView { dest, selector: selector@, at, gas_limit, args: args@ }),
            call@.selector.len() == 4,
    {
        DeferredCall { dest, selector, at, gas_limit, args }
    }

    /// The point at which the call is to run.
    pub fn at(&self) -> (at: u32)
        ensures
            at == self@.at,
    {
        self.at
    }

    /// The contract to call.
    pub fn dest(&self) -> (dest: AccountId)
        ensures
            dest == self@.dest,
    {
        self.dest
    }

    /// The weight the call may use.
    pub fn gas_limit(&self) -> (gas_limit: u64)
        ensures
            gas_limit == self@.gas_limit,
    {
        self.gas_limit
    }

    /// The data of the call: the selector, then the arguments.
    pub fn data(&self) -> (data: Vec<u8>)
        ensures
            data@ == self@.data(),
            self@.selector.len() == 4,
    {
        let mut data: Vec<u8> = Vec::new();
        data.extend_from_slice(self.selector.as_slice());
        data.extend_from_slice(self.args.as_slice());
        data
    }

    /// Whether the call may run at point `now`: at its point or later,
    /// never before.
    pub fn is_due(&self, now: u32) -> (due: bool)
        ensures
            due == (self@.at <= now),
    {
        self.at <= now
    }

    /// Replays the call at point `now`. A call that is due becomes an
    /// invocation of the guest and is used up by it; one that is not due is
    /// handed back unchanged.
    pub fn replay(self, now: u32) -> (r: Result<Invocation, DeferredCall>)
        ensures
            r is Ok <==> self@.at <= now,
            match r {
                Ok(invocation) => {
                    &&& invocation.dest == self@.dest
                    &&& invocation.gas_limit == self@.gas_limit
                    &&& invocation.data@ == self@.data()
                },
                Err(call) => call@ == self@,
            },
    {
        if self.is_due(now) {
            let data = self.data();
            Ok(Invocation { dest: self.dest, gas_limit: self.gas_limit, data })
        } else {
            Err(self)
        }
    }
}

/// Splits the data of an invocation into the selector and the encoded
/// arguments. Data of fewer than four bytes has no selector.
pub fn split_selector(data: &[u8]) -> (r: Option<([u8; 4], &[u8])>)
    ensures
        r is Some <==> data@.len() >= 4,
        r matches Some((selector, args)) ==> selector@ == data@.subrange(0, 4) && args@
            == data@.skip(4),
{
    if data.len() < 4 {
        return None;
    }
    let selector: [u8; 4] = [data[0], data[1], data[2], data[3]];
    let args = vstd::slice::slice_subrange(data, 4, data.len());
    assert(selector@ =~= data@.subrange(0, 4));
    assert(args@ =~= data@.skip(4));
    Some((selector, args))
}

/// The data of a deferred call splits back into the selector and the
/// arguments it was made from.
pub proof fn lemma_data_splits(call: DeferredCallView)
    requires
        call.selector.len() == 4,
    ensures
        call.data().len() >= 4,
        call.data().subrange(0, 4) == call.selector,
        call.data().skip(4) == call.args,
{
    assert(call.data().subrange(0, 4) =~= call.selector);
    assert(call.data().skip(4) =~= call.args);
}

} // verus!
