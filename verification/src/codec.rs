//! Wire codec: the byte form of every value that crosses the boundary.
//!
//! The format is SCALE. Integers are fixed-width little-endian; a byte
//! vector is its length in compact form followed by its bytes. Encoding and
//! decoding are done by `parity_scale_codec`; the spec functions here say
//! what bytes it produces, and the laws at the end are proved from them.

use vstd::prelude::*;

verus! {

/// The four little-endian bytes of `value`.
pub open spec fn u32_encoding(value: u32) -> Seq<u8> {
    seq![
        (value % 256) as u8,
        (value / 256 % 256) as u8,
        (value / 65536 % 256) as u8,
        (value / 16777216) as u8,
    ]
}

/// The compact form of a length: one, two, four or five bytes, chosen by
/// magnitude, with the mode in the two low bits of the first byte.
pub open spec fn compact_encoding(len: nat) -> Seq<u8>
    recommends
        len <= u32::MAX,
{
    if len < 64 {
        seq![(4 * len) as u8]
    } else if len < 16384 {
        seq![((4 * len + 1) % 256) as u8, ((4 * len + 1) / 256) as u8]
    } else if len < 1073741824 {
        u32_encoding((4 * len + 2) as u32)
    } else {
        seq![3u8] + u32_encoding(len as u32)
    }
}

/// A byte vector on the wire: its compact length, then its bytes.
pub open spec fn bytes_encoding(bytes: Seq<u8>) -> Seq<u8>
    recommends
        bytes.len() <= u32::MAX,
{
    compact_encoding(bytes.len()) + bytes
}

/// The error `parity_scale_codec` reports; nothing inside it is read here.
#[verifier::external_type_specification]
#[verifier::external_body]
pub struct ExScaleError(parity_scale_codec::Error);

/// A payload that is not the encoding of any value of the expected type.
#[derive(Clone, Copy, Debug, PartialEq, Eq, Structural)]
pub struct DecodeError;

/// The `u32` that `wire` encodes, if it encodes one.
pub open spec fn u32_decoding(wire: Seq<u8>) -> Option<u32> {
    if exists|value: u32| wire == u32_encoding(value) {
        Some(choose|value: u32| wire == u32_encoding(value))
    } else {
        None
    }
}

/// Whether `wire` is the encoding of the byte vector `bytes`.
pub open spec fn encodes_bytes(wire: Seq<u8>, bytes: Seq<u8>) -> bool {
    bytes.len() <= u32::MAX && wire == bytes_encoding(bytes)
}

/// The byte vector that `wire` encodes, if it encodes one.
pub open spec fn bytes_decoding(wire: Seq<u8>) -> Option<Seq<u8>> {
    if exists|bytes: Seq<u8>| encodes_bytes(wire, bytes) {
        Some(choose|bytes: Seq<u8>| encodes_bytes(wire, bytes))
    } else {
        None
    }
}

/// Calls `parity_scale_codec::Encode::encode` on a `u32`, which writes the
/// value's `to_le_bytes`.
#[verifier::external_body]
fn scale_encode_u32(value: u32) -> (out: Vec<u8>)
    ensures
        out@ == u32_encoding(value),
{
    parity_scale_codec::Encode::encode(&value)
}

/// Calls `parity_scale_codec::DecodeAll::decode_all` for `u32`: it reads
/// four bytes as a little-endian integer and fails when fewer are there or
/// any are left over.
#[verifier::external_body]
fn scale_decode_u32(wire: &[u8]) -> (r: Result<u32, parity_scale_codec::Error>)
    ensures
        match r {
            Ok(value) => wire@ == u32_encoding(value),
            Err(_) => wire@.len() != 4,
        },
{
    let mut input = wire;
    parity_scale_codec::DecodeAll::decode_all(&mut input)
}

/// Calls `parity_scale_codec::Encode::encode` on a `Vec<u8>`, which writes
/// the length as a `Compact<u32>` and then the bytes. The crate panics on a
/// length above `u32::MAX`, which `requires` leaves out.
#[verifier::external_body]
fn scale_encode_bytes(bytes: &Vec<u8>) -> (out: Vec<u8>)
    requires
        bytes@.len() <= u32::MAX,
    ensures
        out@ == bytes_encoding(bytes@),
{
    parity_scale_codec::Encode::encode(bytes)
}

/// Calls `parity_scale_codec::DecodeAll::decode_all` for `Vec<u8>`: it
/// reads a `Compact<u32>` length, accepting only the shortest form of it,
/// then that many bytes, and fails when bytes are missing or left over.
#[verifier::external_body]
fn scale_decode_bytes(wire: &[u8]) -> (r: Result<Vec<u8>, parity_scale_codec::Error>)
    ensures
        match r {
            Ok(bytes) => encodes_bytes(wire@, bytes@),
            Err(_) => forall|bytes: Seq<u8>| !encodes_bytes(wire@, bytes),
        },
{
    let mut input = wire;
    parity_scale_codec::DecodeAll::decode_all(&mut input)
}

/// Encodes a `u32` for the wire.
pub fn encode_u32(value: u32) -> (out: Vec<u8>)
    ensures
        out@ == u32_encoding(value),
{
    scale_encode_u32(value)
}

/// Decodes a `u32` from exactly its four bytes.
pub fn decode_u32(wire: &[u8]) -> (r: Result<u32, DecodeError>)
    ensures
        r.ok() == u32_decoding(wire@),
        r is Ok <==> wire@.len() == 4,
{
    match scale_decode_u32(wire) {
        Ok(value) => {
            proof {
                lemma_u32_round_trip(value);
            }
            Ok(value)
        },
        Err(_) => {
            proof {
                lemma_u32_decoding_total(wire@);
            }
            Err(DecodeError)
        },
    }
}

/// A value whose size on the wire depends on its contents: a vector of
/// bytes of at most `u32::MAX` entries, the most the codec can frame.
#[derive(Debug, PartialEq, Eq)]
pub struct Custom {
    inner: Vec<u8>,
}

impl View for Custom {
    type V = Seq<u8>;

    closed spec fn view(&self) -> Seq<u8> {
        self.inner@
    }
}

impl Custom {
    #[verifier::type_invariant]
    spec fn framed(&self) -> bool {
        self.inner@.len() <= u32::MAX
    }

    /// Wraps `inner`, or refuses it when it is too long to encode.
    pub fn new(inner: Vec<u8>) -> (r: Option<Custom>)
        ensures
            r is Some <==> inner@.len() <= u32::MAX,
            r matches Some(custom) ==> custom@ == inner@,
    {
        if inner.len() <= 0xffff_ffff {
            Some(Custom { inner })
        } else {
            None
        }
    }

    /// The number of bytes held.
    pub fn len(&self) -> (n: usize)
        ensures
            n == self@.len(),
            n <= u32::MAX,
    {
        proof {
            use_type_invariant(self);
        }
        self.inner.len()
    }

    /// The bytes held.
    pub fn as_bytes(&self) -> (bytes: &Vec<u8>)
        ensures
            bytes@ == self@,
    {
        &self.inner
    }

    /// Encodes the value for the wire.
    pub fn encode(&self) -> (out: Vec<u8>)
        ensures
            out@ == bytes_encoding(self@),
            self@.len() <= u32::MAX,
    {
        proof {
            use_type_invariant(self);
        }
        scale_encode_bytes(&self.inner)
    }

    /// Decodes a value from exactly its encoding.
    pub fn decode(wire: &[u8]) -> (r: Result<Custom, DecodeError>)
        ensures
            match r {
                Ok(custom) => Some(custom@) == bytes_decoding(wire@),
                Err(_) => bytes_decoding(wire@) is None,
            },
    {
        match scale_decode_bytes(wire) {
            Ok(inner) => {
                proof {
                    lemma_bytes_round_trip(inner@);
                }
                Ok(Custom { inner })
            },
            Err(_) => Err(DecodeError),
        }
    }
}

/// Every `u32` has four bytes on the wire.
pub proof fn lemma_u32_encoding_len(value: u32)
    ensures
        u32_encoding(value).len() == 4,
{
}

/// Two `u32` values with the same encoding are the same value.
pub proof fn lemma_u32_encoding_injective(a: u32, b: u32)
    requires
        u32_encoding(a) == u32_encoding(b),
    ensures
        a == b,
{
    let ea = u32_encoding(a);
    let eb = u32_encoding(b);
    assert(ea[0] == eb[0] && ea[1] == eb[1] && ea[2] == eb[2] && ea[3] == eb[3]);
}

/// Decoding the encoding of a `u32` gives the value back.
pub proof fn lemma_u32_round_trip(value: u32)
    ensures
        u32_decoding(u32_encoding(value)) == Some(value),
{
    let wire = u32_encoding(value);
    let found = choose|v: u32| wire == u32_encoding(v);
    lemma_u32_encoding_injective(found, value);
}

/// Any four bytes are the encoding of some `u32`.
pub proof fn lemma_u32_decoding_total(wire: Seq<u8>)
    ensures
        u32_decoding(wire) is Some <==> wire.len() == 4,
{
    if wire.len() == 4 {
        let high: int = wire[2] + 256 * wire[3];
        let upper: int = wire[1] + 256 * high;
        let value = (wire[0] + 256 * upper) as u32;
        assert(value / 256 == upper && value % 256 == wire[0]);
        assert(upper / 256 == high && upper % 256 == wire[1]);
        assert(high / 256 == wire[3] && high % 256 == wire[2]);
        assert(value / 65536 == high && value / 16777216 == wire[3]);
        assert(wire =~= u32_encoding(value));
    } else {
        assert forall|v: u32| wire != u32_encoding(v) by {
            lemma_u32_encoding_len(v);
        }
    }
}

/// The compact form of a length takes one, two, four or five bytes.
pub proof fn lemma_compact_encoding_len(len: nat)
    requires
        len <= u32::MAX,
    ensures
        compact_encoding(len).len() == if len < 64 {
            1nat
        } else if len < 16384 {
            2nat
        } else if len < 1073741824 {
            4nat
        } else {
            5nat
        },
{
}

/// No compact length is the start of another: where two byte strings begin
/// with compact lengths and agree, the lengths agree.
pub proof fn lemma_compact_encoding_prefix_free(a: nat, b: nat, after_a: Seq<u8>, after_b: Seq<u8>)
    requires
        a <= u32::MAX,
        b <= u32::MAX,
        compact_encoding(a) + after_a == compact_encoding(b) + after_b,
    ensures
        a == b,
        after_a == after_b,
{
    let ca = compact_encoding(a);
    let cb = compact_encoding(b);
    let wa = ca + after_a;
    let wb = cb + after_b;
    lemma_compact_encoding_len(a);
    lemma_compact_encoding_len(b);
    assert(wa[0] == ca[0]);
    assert(wb[0] == cb[0]);
    assert(ca[0] % 4 == cb[0] % 4);
    assert(ca.len() == cb.len());
    assert forall|i: int| 0 <= i < ca.len() implies ca[i] == cb[i] by {
        assert(wa[i] == ca[i]);
        assert(wb[i] == cb[i]);
    }
    if a >= 1073741824 {
        assert(ca =~= cb);
        assert(u32_encoding(a as u32) =~= ca.subrange(1, 5));
        assert(u32_encoding(b as u32) =~= cb.subrange(1, 5));
        lemma_u32_encoding_injective(a as u32, b as u32);
    } else if a >= 16384 {
        assert(ca =~= cb);
        lemma_u32_encoding_injective((4 * a + 2) as u32, (4 * b + 2) as u32);
    }
    assert(a == b);
    assert(after_a =~= wa.subrange(ca.len() as int, wa.len() as int));
    assert(after_b =~= wb.subrange(cb.len() as int, wb.len() as int));
}

/// Two byte vectors with the same encoding are the same vector.
pub proof fn lemma_bytes_encoding_injective(a: Seq<u8>, b: Seq<u8>)
    requires
        a.len() <= u32::MAX,
        b.len() <= u32::MAX,
        bytes_encoding(a) == bytes_encoding(b),
    ensures
        a == b,
{
    lemma_compact_encoding_prefix_free(a.len(), b.len(), a, b);
}

/// Decoding the encoding of a byte vector gives the vector back.
pub proof fn lemma_bytes_round_trip(bytes: Seq<u8>)
    requires
        bytes.len() <= u32::MAX,
    ensures
        bytes_decoding(bytes_encoding(bytes)) == Some(bytes),
{
    let wire = bytes_encoding(bytes);
    assert(encodes_bytes(wire, bytes));
    let found = choose|b: Seq<u8>| encodes_bytes(wire, b);
    lemma_bytes_encoding_injective(found, bytes);
}

} // verus!
