//! Space Packet Protocol primary header fields used by packet segmentation
//! (CCSDS 133.0-B): the 14-bit packet sequence count and the 2-bit sequence
//! flags.
use vstd::prelude::*;

verus! {

/// Number of distinct packet sequence count values (the count has 14 bits).
pub const SEQUENCE_COUNT_MODULUS: u16 = 0x4000;

/// Sequence flags of a space packet.
#[derive(Debug, Copy, Clone, Eq, PartialEq, Structural)]
pub enum SequenceFlag {
    /// Continuation segment of user data (binary '00').
    Continuation,
    /// First segment of user data (binary '01').
    First,
    /// Last segment of user data (binary '10').
    Last,
    /// Unsegmented user data (binary '11').
    Unsegmented,
}

impl SequenceFlag {
    /// The 2-bit code of the flag.
    pub open spec fn spec_code(self) -> u8 {
        match self {
            SequenceFlag::Continuation => 0b00,
            SequenceFlag::First => 0b01,
            SequenceFlag::Last => 0b10,
            SequenceFlag::Unsegmented => 0b11,
        }
    }

    /// The 2-bit code of the flag.
    pub fn code(self) -> (c: u8)
        ensures
            c == self.spec_code(),
    {
        match self {
            SequenceFlag::Continuation => 0b00,
            SequenceFlag::First => 0b01,
            SequenceFlag::Last => 0b10,
            SequenceFlag::Unsegmented => 0b11,
        }
    }
}

/// The 14-bit packet sequence count, which wraps around to zero after
/// `0x3FFF`.
#[derive(Debug, Copy, Clone, Eq, PartialEq, Structural)]
pub struct SequenceCount {
    value: u16,
}

impl SequenceCount {
    /// The count as an integer.
    pub closed spec fn spec_value(self) -> u16 {
        self.value
    }

    /// The count always fits in 14 bits.
    #[verifier::type_invariant]
    closed spec fn fits(self) -> bool {
        self.value < SEQUENCE_COUNT_MODULUS
    }

    /// A count of zero.
    pub fn new() -> (c: Self)
        ensures
            c.spec_value() == 0,
    {
        SequenceCount { value: 0 }
    }

    /// A count holding the low 14 bits of `value`.
    pub fn from_value(value: u16) -> (c: Self)
        ensures
            c.spec_value() == value % SEQUENCE_COUNT_MODULUS,
    {
        SequenceCount { value: value % SEQUENCE_COUNT_MODULUS }
    }

    /// The current count.
    pub fn value(&self) -> (v: u16)
        ensures
            v == self.spec_value(),
            v < SEQUENCE_COUNT_MODULUS,
    {
        proof {
            use_type_invariant(self);
        }
        self.value
    }

    /// Advances the count by one, wrapping from `0x3FFF` to zero.
    pub fn increment(&mut self)
        ensures
            final(self).spec_value() == (old(self).spec_value() + 1) % (
            SEQUENCE_COUNT_MODULUS as int),
    {
        proof {
            use_type_invariant(&*self);
        }
        if self.value + 1 == SEQUENCE_COUNT_MODULUS {
            self.value = 0;
        } else {
            self.value = self.value + 1;
        }
    }
}

/// The value on the wire of every `SequenceFlag`, as the protocol's table fixes it.
pub proof fn lemma_sequence_flag_values()
    ensures
        SequenceFlag::Continuation.spec_code() == 0b00,
        SequenceFlag::First.spec_code() == 0b01,
        SequenceFlag::Last.spec_code() == 0b10,
        SequenceFlag::Unsegmented.spec_code() == 0b11,
{
}

} // verus!
