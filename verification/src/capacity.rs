//! How many slots the output buffer of a conversion gets.
//!
//! The engine writes token ids into a buffer that exists before the call and
//! never reports how many slots it would have needed: ids that do not fit are
//! silently dropped. The engine produces at most one id per input byte, so a
//! buffer with one slot per byte always suffices. A policy that caps the
//! buffer below that trades memory for the risk of truncation, and choosing
//! it is the caller's responsibility.

use vstd::prelude::*;

verus! {

/// The ceiling of the default policy.
pub const DEFAULT_CEILING: usize = 500;

/// The rule that sizes the output buffer from the input's length in bytes.
#[derive(Clone, Copy, Debug, PartialEq, Eq, Structural)]
pub enum CapacityPolicy {
    /// One slot per input byte. Nothing is ever truncated.
    ByteLength,
    /// One slot per input byte, but never more than the given number of
    /// slots. Safe only for inputs known to produce no more ids than that.
    Ceiling(usize),
}

impl CapacityPolicy {
    /// The number of slots this policy gives an input of `byte_len` bytes.
    pub open spec fn slots(self, byte_len: nat) -> nat {
        match self {
            CapacityPolicy::ByteLength => byte_len,
            CapacityPolicy::Ceiling(ceiling) => if byte_len <= ceiling as nat {
                byte_len
            } else {
                ceiling as nat
            },
        }
    }

    /// Whether an input of `byte_len` bytes gets one slot for each of its
    /// bytes, so that no id can be lost.
    pub open spec fn covers(self, byte_len: nat) -> bool {
        match self {
            CapacityPolicy::ByteLength => true,
            CapacityPolicy::Ceiling(ceiling) => byte_len <= ceiling as nat,
        }
    }

    /// Computes the number of slots for an input of `byte_len` bytes.
    pub fn capacity(&self, byte_len: usize) -> (slots: usize)
        ensures
            slots as nat == self.slots(byte_len as nat),
    {
        match self {
            CapacityPolicy::ByteLength => byte_len,
            CapacityPolicy::Ceiling(ceiling) => if byte_len <= *ceiling {
                byte_len
            } else {
                *ceiling
            },
        }
    }

    /// A buffer never has more slots than the input has bytes, and it has
    /// exactly that many if and only if the policy covers the input.
    pub proof fn lemma_slots_bounded(self, byte_len: nat)
        ensures
            self.slots(byte_len) <= byte_len,
            self.slots(byte_len) == byte_len <==> self.covers(byte_len),
    {
    }
}

impl Default for CapacityPolicy {
    /// The default caps the buffer at `DEFAULT_CEILING` slots;
    /// `CapacityPolicy::ByteLength` has to be asked for.
    fn default() -> (policy: CapacityPolicy)
        ensures
            policy == CapacityPolicy::Ceiling(DEFAULT_CEILING),
    {
        CapacityPolicy::Ceiling(DEFAULT_CEILING)
    }
}

} // verus!
