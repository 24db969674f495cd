//! Status code translator: what the integer returned across the boundary
//! means to the guest.
//!
//! Zero is success. Each other code the host may emit names one error. A
//! code outside that set is no failure of the call but a breach of the
//! protocol, and is never turned into a value the guest could carry on with.

use crate::codec::DecodeError;
use vstd::prelude::*;

verus! {

/// The failures a guest can observe and recover from.
#[derive(Clone, Copy, Debug, PartialEq, Eq, Structural)]
pub enum ExtensionError {
    /// The host ran the call and rejected it.
    CustomCallFailed,
    /// A payload crossing the boundary could not be decoded.
    EncodingFailed,
}

/// Guest and host disagree about the protocol. The current call must not
/// continue, and no retry or fallback applies.
#[derive(Clone, Copy, Debug, PartialEq, Eq, Structural)]
pub enum ProtocolViolation {
    /// The host has no handler for this function id.
    UnknownFunctionId(u32),
    /// The guest has no meaning for this status code.
    UnknownStatusCode(u32),
}

/// The status code that reports success.
pub const STATUS_SUCCESS: u32 = 0;

/// The status code by which the host reports that it rejected the call.
pub const STATUS_CUSTOM_CALL_FAILED: u32 = 1;

/// What a status code means, where it means anything.
pub open spec fn status_meaning(status_code: u32) -> Option<Result<(), ExtensionError>> {
    if status_code == STATUS_SUCCESS {
        Some(Ok(()))
    } else if status_code == STATUS_CUSTOM_CALL_FAILED {
        Some(Err(ExtensionError::CustomCallFailed))
    } else {
        None
    }
}

/// The status code that the host emits for an outcome, where it has one.
/// `EncodingFailed` arises on the guest's side only and has none.
pub open spec fn status_of(outcome: Result<(), ExtensionError>) -> Option<u32> {
    match outcome {
        Ok(()) => Some(STATUS_SUCCESS),
        Err(ExtensionError::CustomCallFailed) => Some(STATUS_CUSTOM_CALL_FAILED),
        Err(ExtensionError::EncodingFailed) => None,
    }
}

impl ExtensionError {
    /// The single byte by which the error is encoded: its position among
    /// the variants.
    pub open spec fn encoding(self) -> Seq<u8> {
        match self {
            ExtensionError::CustomCallFailed => seq![0u8],
            ExtensionError::EncodingFailed => seq![1u8],
        }
    }

    /// The error that `wire` encodes, if it encodes one.
    pub open spec fn decoding(wire: Seq<u8>) -> Option<ExtensionError> {
        if wire == seq![0u8] {
            Some(ExtensionError::CustomCallFailed)
        } else if wire == seq![1u8] {
            Some(ExtensionError::EncodingFailed)
        } else {
            None
        }
    }

    /// Translates a status code that the host is permitted to emit.
    pub fn from_status_code(status_code: u32) -> (r: Result<(), ExtensionError>)
        requires
            status_meaning(status_code) is Some,
        ensures
            status_meaning(status_code) == Some(r),
    {
        if status_code == STATUS_SUCCESS {
            Ok(())
        } else {
            Err(ExtensionError::CustomCallFailed)
        }
    }

    /// Translates any status code, reporting one without a meaning as a
    /// protocol violation.
    pub fn try_from_status_code(status_code: u32) -> (r: Result<
        Result<(), ExtensionError>,
        ProtocolViolation,
    >)
        ensures
            match r {
                Ok(outcome) => status_meaning(status_code) == Some(outcome),
                Err(violation) => status_meaning(status_code) is None && violation
                    == ProtocolViolation::UnknownStatusCode(status_code),
            },
    {
        if status_code <= STATUS_CUSTOM_CALL_FAILED {
            Ok(ExtensionError::from_status_code(status_code))
        } else {
            Err(ProtocolViolation::UnknownStatusCode(status_code))
        }
    }

    /// The status code by which the host reports this error, if the host
    /// can report it at all.
    pub fn status_code(self) -> (r: Option<u32>)
        ensures
            r == status_of(Err(self)),
    {
        match self {
            ExtensionError::CustomCallFailed => Some(STATUS_CUSTOM_CALL_FAILED),
            ExtensionError::EncodingFailed => None,
        }
    }

    /// Encodes the error for the wire.
    pub fn encode(self) -> (out: Vec<u8>)
        ensures
            out@ == self.encoding(),
    {
        let mut out: Vec<u8> = Vec::new();
        match self {
            ExtensionError::CustomCallFailed => out.push(0),
            ExtensionError::EncodingFailed => out.push(1),
        }
        assert(out@ =~= self.encoding());
        out
    }

    /// Decodes an error from exactly its one byte. A byte that names no
    /// variant is refused.
    pub fn decode(wire: &[u8]) -> (r: Result<ExtensionError, DecodeError>)
        ensures
            r.ok() == ExtensionError::decoding(wire@),
    {
        if wire.len() != 1 {
            return Err(DecodeError);
        }
        let tag: u8 = wire[0];
        if tag == 0 {
            assert(wire@ =~= seq![0u8]);
            Ok(ExtensionError::CustomCallFailed)
        } else if tag == 1 {
            assert(wire@ =~= seq![1u8]);
            Ok(ExtensionError::EncodingFailed)
        } else {
            Err(DecodeError)
        }
    }
}

impl From<parity_scale_codec::Error> for ExtensionError {
    /// A payload that the codec refused is an encoding failure.
    fn from(error: parity_scale_codec::Error) -> (r: ExtensionError) {
        ExtensionError::EncodingFailed
    }
}

impl vstd::std_specs::convert::FromSpecImpl<parity_scale_codec::Error> for ExtensionError {
    open spec fn obeys_from_spec() -> bool {
        true
    }

    open spec fn from_spec(error: parity_scale_codec::Error) -> ExtensionError {
        ExtensionError::EncodingFailed
    }
}

impl From<DecodeError> for ExtensionError {
    /// A payload that could not be decoded is an encoding failure.
    fn from(error: DecodeError) -> (r: ExtensionError) {
        ExtensionError::EncodingFailed
    }
}

impl vstd::std_specs::convert::FromSpecImpl<DecodeError> for ExtensionError {
    open spec fn obeys_from_spec() -> bool {
        true
    }

    open spec fn from_spec(error: DecodeError) -> ExtensionError {
        ExtensionError::EncodingFailed
    }
}

/// Success is status zero and nothing else: zero never carries an error,
/// no other code means success, and no error is reported by zero.
pub proof fn lemma_success_is_zero(status_code: u32, error: ExtensionError)
    ensures
        status_meaning(status_code) == Some(Ok::<(), ExtensionError>(())) <==> status_code
            == STATUS_SUCCESS,
        status_meaning(STATUS_SUCCESS) != Some(Err::<(), ExtensionError>(error)),
        status_of(Err(error)) != Some(STATUS_SUCCESS),
{
}

/// The two directions of the translation agree: the code that the host
/// emits for an outcome means that outcome, and the outcome that a code
/// means is reported by that code.
pub proof fn lemma_status_translation_inverse(status_code: u32, outcome: Result<(), ExtensionError>)
    ensures
        status_of(outcome) == Some(status_code) <==> status_meaning(status_code) == Some(outcome),
{
    if let Ok(unit) = outcome {
        assert(unit == ());
    }
}

/// Decoding the encoding of an error gives the error back, and two errors
/// with the same encoding are the same error.
pub proof fn lemma_error_round_trip(error: ExtensionError)
    ensures
        ExtensionError::decoding(error.encoding()) == Some(error),
{
    assert(seq![1u8][0] != seq![0u8][0]);
}

} // verus!
