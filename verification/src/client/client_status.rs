//! The set of conditions the engine reports about a client.

use vstd::prelude::*;

verus! {

/// The operation failed.
pub const FAILURE: u32 = 0x0001;

/// An option of the request was invalid or not supported.
pub const INVALID_OPTION: u32 = 0x0002;

/// The requested client name was taken, and the engine chose another.
pub const NAME_NOT_UNIQUE: u32 = 0x0004;

/// The engine was started for this request.
pub const SERVER_STARTED: u32 = 0x0008;

/// The engine could not be reached.
pub const SERVER_FAILED: u32 = 0x0010;

/// Talking to the engine failed.
pub const SERVER_ERROR: u32 = 0x0020;

/// The client named in the request does not exist.
pub const NO_SUCH_CLIENT: u32 = 0x0040;

/// An internal client could not be loaded.
pub const LOAD_FAILURE: u32 = 0x0080;

/// The client could not be initialised.
pub const INIT_FAILURE: u32 = 0x0100;

/// Shared memory could not be reached.
pub const SHM_FAILURE: u32 = 0x0200;

/// Client and engine speak different protocol versions.
pub const VERSION_ERROR: u32 = 0x0400;

/// The engine's backend failed.
pub const BACKEND_ERROR: u32 = 0x0800;

/// The engine has cut the client off.
pub const CLIENT_ZOMBIE: u32 = 0x1000;

/// Every bit that has a meaning.
pub const ALL: u32 = 0x1fff;

/// Whether `bits` sets no bit without a meaning.
pub open spec fn is_status_bits(bits: u32) -> bool {
    bits & !ALL == 0
}

/// A set of status conditions. Its view is the engine's encoding of the set,
/// one bit for each condition.
#[derive(Clone, Copy, Debug, PartialEq, Eq, Hash, Structural)]
pub struct ClientStatus {
    bits: u32,
}

impl View for ClientStatus {
    type V = u32;

    closed spec fn view(&self) -> u32 {
        self.bits
    }
}

impl ClientStatus {
    /// Only bits with a meaning are ever set.
    #[verifier::type_invariant]
    pub closed spec fn wf(&self) -> bool {
        is_status_bits(self.bits)
    }

    /// The set that `bits` encodes, if it encodes one.
    pub closed spec fn spec_from_bits(bits: u32) -> Option<ClientStatus> {
        if is_status_bits(bits) {
            Some(ClientStatus { bits })
        } else {
            None
        }
    }

    /// The set of no conditions.
    pub fn empty() -> (status: ClientStatus)
        ensures
            status@ == 0,
            status.wf(),
    {
        assert(0u32 & !ALL == 0) by (bit_vector);
        ClientStatus { bits: 0 }
    }

    /// The set of all conditions.
    pub fn all() -> (status: ClientStatus)
        ensures
            status@ == ALL,
            status.wf(),
    {
        assert(ALL & !ALL == 0) by (bit_vector);
        ClientStatus { bits: ALL }
    }

    /// The engine's encoding of this set.
    pub fn bits(&self) -> (bits: u32)
        ensures
            bits == self@,
            is_status_bits(bits),
    {
        proof {
            use_type_invariant(self);
        }
        self.bits
    }

    /// Decodes the engine's encoding; `None` when a bit without a meaning is set.
    pub fn from_bits(bits: u32) -> (status: Option<ClientStatus>)
        ensures
            status == Self::spec_from_bits(bits),
            status is Some <==> is_status_bits(bits),
            status matches Some(s) ==> s@ == bits && s.wf(),
    {
        if bits & !ALL == 0 {
            Some(ClientStatus { bits })
        } else {
            None
        }
    }

    /// Decodes the engine's encoding and drops the bits without a meaning.
    pub fn from_bits_truncate(bits: u32) -> (status: ClientStatus)
        ensures
            status@ == bits & ALL,
            status.wf(),
    {
        assert((bits & ALL) & !ALL == 0) by (bit_vector);
        ClientStatus { bits: bits & ALL }
    }

    /// Whether no condition is in the set.
    pub fn is_empty(&self) -> (empty: bool)
        ensures
            empty == (self@ == 0),
    {
        self.bits == 0
    }

    /// Whether every condition of `other` is in this set.
    pub fn contains(&self, other: ClientStatus) -> (inside: bool)
        ensures
            inside == (self@ & other@ == other@),
    {
        self.bits & other.bits == other.bits
    }

    /// The conditions of both sets.
    pub fn union(self, other: ClientStatus) -> (both: ClientStatus)
        ensures
            both@ == self@ | other@,
            both.wf(),
    {
        proof {
            use_type_invariant(&self);
            use_type_invariant(&other);
        }
        let a: u32 = self.bits;
        let b: u32 = other.bits;
        assert((a | b) & !ALL == 0) by (bit_vector)
            requires
                a & !ALL == 0,
                b & !ALL == 0,
        ;
        ClientStatus { bits: a | b }
    }

    /// Two sets with the same encoding are the same set.
    pub proof fn lemma_view_injective(a: ClientStatus, b: ClientStatus)
        requires
            a@ == b@,
        ensures
            a == b,
    {
    }

    /// Decoding and encoding undo each other: what `bits` decodes to encodes
    /// as `bits` again, and the encoding of a set decodes to that set.
    pub proof fn lemma_round_trip(bits: u32, status: ClientStatus)
        ensures
            Self::spec_from_bits(bits) is Some <==> is_status_bits(bits),
            Self::spec_from_bits(bits) matches Some(s) ==> s@ == bits && s.wf(),
            status.wf() ==> Self::spec_from_bits(status@) == Some(status),
    {
    }
}

} // verus!
