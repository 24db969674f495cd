//! The guest: a contract that uses the extension.
//!
//! Each message that needs the host comes in two halves. The first builds
//! the request that is to cross the boundary; the second reads what came
//! back. Between the two the runtime makes the crossing. The contract also
//! has the entry point through which a deferred call returns to it.

use crate::codec::{bytes_encoding, decode_u32, u32_decoding, u32_encoding, Custom};
use crate::deferred::{split_selector, SCHEDULER_HANDLER_SELECTOR};
use crate::status::{ExtensionError, ProtocolViolation};
use crate::table::{
    entry_of, reply_meaning, table, ExtensionCall, Method, MyChainExtension, Reply,
};
use vstd::pervasive::unreached;
use vstd::prelude::*;

verus! {

/// The number of a block.
pub type BlockNumber = u32;

/// The environment in which the contract runs: that of the chain's
/// defaults, with the extension added.
#[derive(Clone, Copy, Debug, PartialEq, Eq, Structural)]
pub enum CustomEnvironment {
    WithExtension,
}

/// The contract. It keeps nothing in storage.
#[derive(Clone, Copy, Debug, PartialEq, Eq, Structural)]
pub struct ChainExtension {}

/// The event that the contract emits when a deferred call reaches it.
#[derive(Clone, Copy, Debug, PartialEq, Eq, Structural)]
pub struct SchedulerTriggered {
    /// The block in which the call arrived.
    pub at: BlockNumber,
    /// The argument that the call carried.
    pub arg: u32,
}

/// Why a call from outside did not reach an entry point.
#[derive(Clone, Copy, Debug, PartialEq, Eq, Structural)]
pub enum EntryError {
    /// The data names no entry point of the contract.
    UnknownSelector,
    /// The data names an entry point, but what follows is not an encoding
    /// of its argument.
    BadArguments,
}

/// The value that the contract hands to the host: one that the host
/// accepts where `success` is set, and one that it rejects where not.
pub open spec fn custom_payload(success: bool) -> Seq<u8> {
    if success {
        seq![1u8, 2u8]
    } else {
        seq![1u8, 2u8, 3u8]
    }
}

/// What the contract's caller gets once the host has replied to a call of
/// `method` with `status_code`. The reply to a store is not looked at.
pub open spec fn message_result(method: Method, status_code: u32) -> Result<
    Result<(), ExtensionError>,
    ProtocolViolation,
> {
    match reply_meaning(method, status_code) {
        Ok(Reply::Unhandled(_)) => Ok(Ok(())),
        Ok(Reply::Handled(outcome)) => Ok(outcome),
        Err(violation) => Err(violation),
    }
}

/// What a call from outside with `data` does in block `block_number`.
pub open spec fn entered(block_number: BlockNumber, data: Seq<u8>) -> Result<
    SchedulerTriggered,
    EntryError,
> {
    if data.len() < 4 || data.subrange(0, 4) != SCHEDULER_HANDLER_SELECTOR@ {
        Err(EntryError::UnknownSelector)
    } else {
        match u32_decoding(data.skip(4)) {
            Some(arg) => Ok(SchedulerTriggered { at: block_number, arg }),
            None => Err(EntryError::BadArguments),
        }
    }
}

impl CustomEnvironment {
    /// The extension that this environment offers.
    pub fn extension() -> (extension: MyChainExtension)
        ensures
            extension@ == table(),
    {
        MyChainExtension::new()
    }
}

impl ChainExtension {
    /// Creates the contract.
    pub fn new() -> (contract: ChainExtension)
        ensures
            contract == (ChainExtension {  }),
    {
        ChainExtension {  }
    }

    /// First half of the message that stores `value` in the host's state.
    pub fn write_to_storage(&mut self, value: u32) -> (call: ExtensionCall)
        ensures
            *final(self) == *old(self),
            call.func_id == entry_of(Method::WriteToStorage).func_id,
            call.input@ == u32_encoding(value),
    {
        CustomEnvironment::extension().write_to_storage(value)
    }

    /// First half of the message that hands the host a value which it
    /// accepts or rejects, as `success` says.
    pub fn custom_type_with_result(&mut self, success: bool) -> (call: ExtensionCall)
        ensures
            *final(self) == *old(self),
            call.func_id == entry_of(Method::CustomTypeWithResult).func_id,
            call.input@ == bytes_encoding(custom_payload(success)),
    {
        let mut inner: Vec<u8> = Vec::new();
        inner.push(1);
        inner.push(2);
        if !success {
            inner.push(3);
        }
        assert(inner@ =~= custom_payload(success));
        match Custom::new(inner) {
            Some(custom) => CustomEnvironment::extension().custom_type_with_result(&custom),
            None => unreached(),
        }
    }

    /// First half of the message that has the host call the contract back
    /// at block `at`.
    pub fn schedule_call(&mut self, at: BlockNumber) -> (call: ExtensionCall)
        ensures
            *final(self) == *old(self),
            call.func_id == entry_of(Method::ScheduleCall).func_id,
            call.input@ == u32_encoding(at),
    {
        CustomEnvironment::extension().schedule_call(at)
    }

    /// Second half of a message: what the contract's caller gets once the
    /// host has replied with `status_code`. A store succeeds whatever the
    /// host replied. The other messages succeed on status zero, fail with
    /// the error that the status stands for, and end in a protocol
    /// violation on a status that stands for nothing.
    pub fn returned(&mut self, method: Method, status_code: u32) -> (r: Result<
        Result<(), ExtensionError>,
        ProtocolViolation,
    >)
        ensures
            *final(self) == *old(self),
            r == message_result(method, status_code),
    {
        match CustomEnvironment::extension().complete(method, status_code) {
            Ok(Reply::Unhandled(_)) => Ok(Ok(())),
            Ok(Reply::Handled(outcome)) => Ok(outcome),
            Err(violation) => Err(violation),
        }
    }

    /// The entry point for deferred calls: reports that the call arrived,
    /// in which block and with which argument.
    pub fn scheduler_handler(&mut self, block_number: BlockNumber, arg: u32) -> (event:
        SchedulerTriggered)
        ensures
            *final(self) == *old(self),
            event == (SchedulerTriggered { at: block_number, arg }),
    {
        SchedulerTriggered { at: block_number, arg }
    }

    /// Takes a call from outside in block `block_number`: finds the entry
    /// point that the first four bytes of `data` select, decodes its
    /// argument from the rest, and runs it.
    pub fn enter(&mut self, block_number: BlockNumber, data: &[u8]) -> (r: Result<
        SchedulerTriggered,
        EntryError,
    >)
        ensures
            *final(self) == *old(self),
            r == entered(block_number, data@),
    {
        let (selector, args) = match split_selector(data) {
            Some(parts) => parts,
            None => {
                return Err(EntryError::UnknownSelector);
            },
        };
        if selector[0] != SCHEDULER_HANDLER_SELECTOR[0] || selector[1]
            != SCHEDULER_HANDLER_SELECTOR[1] || selector[2] != SCHEDULER_HANDLER_SELECTOR[2]
            || selector[3] != SCHEDULER_HANDLER_SELECTOR[3] {
            return Err(EntryError::UnknownSelector);
        }
        assert(selector@ =~= SCHEDULER_HANDLER_SELECTOR@);
        match decode_u32(args) {
            Ok(arg) => Ok(self.scheduler_handler(block_number, arg)),
            Err(_) => Err(EntryError::BadArguments),
        }
    }
}

} // verus!
