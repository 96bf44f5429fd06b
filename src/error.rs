use vstd::prelude::*;

verus! {

/// Why a projection or an optimizer step was refused.
#[derive(Clone, Copy, Debug, PartialEq, Eq, Structural)]
pub enum GaLoreError {
    /// The truncation rank is zero.
    ZeroRank,
    /// The number of steps between basis refreshes is zero.
    ZeroInterval,
    /// The rank exceeds the smaller dimension of the tensor in this slot.
    RankExceedsShape { slot: usize },
    /// The number of tensors differs from the number of established slots.
    SlotCountMismatch { expected: usize, found: usize },
    /// The tensor in this slot does not have the slot's shape.
    ShapeMismatch { slot: usize },
    /// Fresh bases were supplied when no refresh was due, were missing when
    /// one was, or do not cover every slot.
    BasesMismatch,
    /// Back-projection was asked for before any bases were computed.
    NoBases,
}

} // verus!
