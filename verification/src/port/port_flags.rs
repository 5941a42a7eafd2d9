//! The set of capabilities a port declares.

use vstd::prelude::*;

verus! {

/// The port receives data.
pub const IS_INPUT: u32 = 0x01;

/// Data can be read from the port.
pub const IS_OUTPUT: u32 = 0x02;

/// The port stands for a physical connector.
pub const IS_PHYSICAL: u32 = 0x04;

/// The port's input can be monitored.
pub const CAN_MONITOR: u32 = 0x08;

/// The port is the start or the end of a signal path.
pub const IS_TERMINAL: u32 = 0x10;

/// Every bit that has a meaning.
pub const ALL: u32 = 0x1f;

/// Whether `bits` sets no bit without a meaning.
pub open spec fn is_flag_bits(bits: u32) -> bool {
    bits & !ALL == 0
}

/// A set of port capabilities. Its view is the engine's encoding of the set,
/// one bit for each capability.
#[derive(Clone, Copy, Debug, PartialEq, Eq, Hash, Structural)]
pub struct PortFlags {
    bits: u32,
}

impl View for PortFlags {
    type V = u32;

    closed spec fn view(&self) -> u32 {
        self.bits
    }
}

impl PortFlags {
    /// Only bits with a meaning are ever set.
    #[verifier::type_invariant]
    pub closed spec fn wf(&self) -> bool {
        is_flag_bits(self.bits)
    }

    /// The set that `bits` encodes, if it encodes one.
    pub closed spec fn spec_from_bits(bits: u32) -> Option<PortFlags> {
        if is_flag_bits(bits) {
            Some(PortFlags { bits })
        } else {
            None
        }
    }

    /// The set of no capabilities. As a selection it selects every port.
    pub fn empty() -> (flags: PortFlags)
        ensures
            flags@ == 0,
            flags.wf(),
    {
        assert(0u32 & !ALL == 0) by (bit_vector);
        PortFlags { bits: 0 }
    }

    /// The engine's encoding of this set.
    pub fn bits(&self) -> (bits: u32)
        ensures
            bits == self@,
            is_flag_bits(bits),
    {
        proof {
            use_type_invariant(self);
        }
        self.bits
    }

    /// Decodes the engine's encoding; `None` when a bit without a meaning is set.
    pub fn from_bits(bits: u32) -> (flags: Option<PortFlags>)
        ensures
            flags == Self::spec_from_bits(bits),
            flags is Some <==> is_flag_bits(bits),
            flags matches Some(f) ==> f@ == bits && f.wf(),
    {
        if bits & !ALL == 0 {
            Some(PortFlags { bits })
        } else {
            None
        }
    }

    /// Decodes the engine's encoding and drops the bits without a meaning.
    pub fn from_bits_truncate(bits: u32) -> (flags: PortFlags)
        ensures
            flags@ == bits & ALL,
            flags.wf(),
    {
        assert((bits & ALL) & !ALL == 0) by (bit_vector);
        PortFlags { bits: bits & ALL }
    }

    /// Whether every capability of `other` is in this set.
    pub fn contains(&self, other: PortFlags) -> (inside: bool)
        ensures
            inside == (self@ & other@ == other@),
    {
        self.bits & other.bits == other.bits
    }

    /// Two sets with the same encoding are the same set.
    pub proof fn lemma_view_injective(a: PortFlags, b: PortFlags)
        requires
            a@ == b@,
        ensures
            a == b,
    {
    }

    /// Decoding and encoding undo each other: what `bits` decodes to encodes
    /// as `bits` again, and the encoding of a set decodes to that set.
    pub proof fn lemma_round_trip(bits: u32, flags: PortFlags)
        ensures
            Self::spec_from_bits(bits) is Some <==> is_flag_bits(bits),
            Self::spec_from_bits(bits) matches Some(f) ==> f@ == bits && f.wf(),
            flags.wf() ==> Self::spec_from_bits(flags@) == Some(flags),
    {
    }
}

} // verus!
