//! Buffer marshalling channel: the bytes and the budget of one call.
//!
//! The guest's encoded arguments are the input, which the host reads front
//! to back. What the host writes is the output, which the guest reads once
//! the call returns. The channel also carries the weight that the caller
//! can still pay: every charge is taken from it, and one that it cannot
//! cover fails and takes nothing.

use crate::codec::{bytes_decoding, decode_u32, u32_encoding, Custom, DecodeError};
use vstd::prelude::*;
use vstd::slice::slice_subrange;

verus! {

/// A charge that the remaining weight does not cover.
#[derive(Clone, Copy, Debug, PartialEq, Eq, Structural)]
pub struct OutOfWeight;

/// What a channel holds, as mathematics.
pub struct ChannelView {
    /// The input bytes already read.
    pub consumed: Seq<u8>,
    /// The input bytes not yet read.
    pub unread: Seq<u8>,
    /// The bytes last written for the guest.
    pub output: Seq<u8>,
    /// The weight that can still be charged.
    pub weight_left: nat,
    /// The weight charged so far.
    pub charged: nat,
}

/// The channel of one call. It belongs to that call alone.
#[derive(Debug, PartialEq, Eq)]
pub struct Channel {
    input: Vec<u8>,
    cursor: usize,
    output: Vec<u8>,
    weight_left: u64,
    charged: u64,
}

impl View for Channel {
    type V = ChannelView;

    closed spec fn view(&self) -> ChannelView {
        ChannelView {
            consumed: self.input@.subrange(0, self.cursor as int),
            unread: self.input@.subrange(self.cursor as int, self.input@.len() as int),
            output: self.output@,
            weight_left: self.weight_left as nat,
            charged: self.charged as nat,
        }
    }
}

impl Channel {
    #[verifier::type_invariant]
    spec fn within_bounds(&self) -> bool {
        &&& self.cursor <= self.input@.len()
        &&& self.weight_left + self.charged <= u64::MAX
    }

    /// Opens the channel of a call on the guest's `input`, with `budget` as
    /// the weight the caller can pay.
    pub fn new(input: Vec<u8>, budget: u64) -> (channel: Channel)
        ensures
            channel@ == (ChannelView {
                consumed: Seq::empty(),
                unread: input@,
                output: Seq::empty(),
                weight_left: budget as nat,
                charged: 0,
            }),
    {
        let channel = Channel { input, cursor: 0, output: Vec::new(), weight_left: budget, charged: 0 };
        assert(channel@.consumed =~= Seq::empty());
        assert(channel@.unread =~= input@);
        channel
    }

    /// The number of input bytes not yet read.
    pub fn input_len(&self) -> (len: usize)
        ensures
            len == self@.unread.len(),
    {
        proof {
            use_type_invariant(self);
        }
        self.input.len() - self.cursor
    }

    /// Reads a `u32`, whose size is known from its type, from the next four
    /// bytes of input. With fewer than four bytes left the read fails and
    /// consumes nothing.
    pub fn read_bounded_u32(&mut self) -> (r: Result<u32, DecodeError>)
        ensures
            r is Ok <==> old(self)@.unread.len() >= 4,
            match r {
                Ok(value) => {
                    &&& u32_encoding(value) == old(self)@.unread.subrange(0, 4)
                    &&& final(self)@ == (ChannelView {
                        consumed: old(self)@.consumed + u32_encoding(value),
                        unread: old(self)@.unread.skip(4),
                        ..old(self)@
                    })
                },
                Err(_) => final(self)@ == old(self)@,
            },
    {
        proof {
            use_type_invariant(&*self);
        }
        if self.input.len() - self.cursor < 4 {
            return Err(DecodeError);
        }
        let start: usize = self.cursor;
        let end: usize = start + 4;
        let decoded = decode_u32(slice_subrange(self.input.as_slice(), start, end));
        match decoded {
            Ok(value) => {
                self.cursor = end;
                proof {
                    let before = old(self)@;
                    assert(before.unread.subrange(0, 4) =~= self.input@.subrange(
                        start as int,
                        end as int,
                    ));
                    assert(self@.consumed =~= before.consumed + u32_encoding(value));
                    assert(self@.unread =~= before.unread.skip(4));
                }
                Ok(value)
            },
            Err(error) => Err(error),
        }
    }

    /// Reads a value whose size depends on its contents from the next `len`
    /// bytes of input; `len` is what `input_len` reported, or less. The
    /// read succeeds where those bytes are there and are exactly the
    /// encoding of a value, and otherwise consumes nothing.
    pub fn read_unbounded_custom(&mut self, len: usize) -> (r: Result<Custom, DecodeError>)
        ensures
            r is Ok <==> len <= old(self)@.unread.len() && bytes_decoding(
                old(self)@.unread.subrange(0, len as int),
            ) is Some,
            match r {
                Ok(custom) => {
                    &&& Some(custom@) == bytes_decoding(old(self)@.unread.subrange(0, len as int))
                    &&& final(self)@ == (ChannelView {
                        consumed: old(self)@.consumed + old(self)@.unread.subrange(0, len as int),
                        unread: old(self)@.unread.skip(len as int),
                        ..old(self)@
                    })
                },
                Err(_) => final(self)@ == old(self)@,
            },
    {
        proof {
            use_type_invariant(&*self);
        }
        if self.input.len() - self.cursor < len {
            return Err(DecodeError);
        }
        let start: usize = self.cursor;
        let end: usize = start + len;
        proof {
            assert(old(self)@.unread.subrange(0, len as int) =~= self.input@.subrange(
                start as int,
                end as int,
            ));
        }
        let decoded = Custom::decode(slice_subrange(self.input.as_slice(), start, end));
        match decoded {
            Ok(custom) => {
                self.cursor = end;
                proof {
                    let before = old(self)@;
                    assert(self@.consumed =~= before.consumed + before.unread.subrange(
                        0,
                        len as int,
                    ));
                    assert(self@.unread =~= before.unread.skip(len as int));
                }
                Ok(custom)
            },
            Err(error) => Err(error),
        }
    }

    /// Sets the bytes that the guest will read when the call returns,
    /// replacing any written before.
    pub fn write_output(&mut self, bytes: &[u8])
        ensures
            final(self)@ == (ChannelView { output: bytes@, ..old(self)@ }),
    {
        proof {
            use_type_invariant(&*self);
        }
        let mut output: Vec<u8> = Vec::new();
        output.extend_from_slice(bytes);
        self.output = output;
        assert(self@.output =~= bytes@);
    }

    /// Charges `amount` of weight. The charge succeeds exactly when the
    /// remaining weight covers it; a charge that fails takes nothing.
    pub fn charge_weight(&mut self, amount: u64) -> (r: Result<(), OutOfWeight>)
        ensures
            r is Ok <==> amount <= old(self)@.weight_left,
            match r {
                Ok(_) => final(self)@ == (ChannelView {
                    weight_left: (old(self)@.weight_left - amount) as nat,
                    charged: old(self)@.charged + amount as nat,
                    ..old(self)@
                }),
                Err(_) => final(self)@ == old(self)@,
            },
    {
        proof {
            use_type_invariant(&*self);
        }
        if amount <= self.weight_left {
            let left: u64 = self.weight_left - amount;
            let charged: u64 = self.charged + amount;
            self.weight_left = left;
            self.charged = charged;
            Ok(())
        } else {
            Err(OutOfWeight)
        }
    }

    /// The weight that can still be charged.
    pub fn weight_left(&self) -> (weight: u64)
        ensures
            weight == self@.weight_left,
    {
        self.weight_left
    }

    /// The weight charged so far.
    pub fn charged(&self) -> (weight: u64)
        ensures
            weight == self@.charged,
    {
        self.charged
    }

    /// The bytes last written for the guest.
    pub fn output(&self) -> (bytes: &Vec<u8>)
        ensures
            bytes@ == self@.output,
    {
        &self.output
    }

    /// Ends the call: hands out the output and the weight charged, and
    /// gives the channel up, so that no later call can read what this one
    /// left behind.
    pub fn finish(self) -> (r: (Vec<u8>, u64))
        ensures
            r.0@ == self@.output,
            r.1 == self@.charged,
    {
        (self.output, self.charged)
    }
}

} // verus!
