//! The per-call contexts handed in by the external address deriver. The
//! deriver maps a coordinate to a stable storage slot plus a derivation
//! proof; the core never trusts that resolution blindly — it re-derives the
//! slot from the coordinate itself and re-verifies the proof against the
//! record on every access after creation.

use vstd::prelude::*;

verus! {

/// Context of the no-op initialization call; it resolves nothing.
pub struct Initialize {}

/// Context of a create call: the derivation proof the external deriver
/// computed for the coordinate being created. It is stored in the new
/// record and re-verified on every later access.
#[derive(Clone, Copy, Debug, PartialEq, Eq)]
pub struct CreatePixel {
    /// Derivation proof for the coordinate being created.
    pub bump: u8,
}

/// Context of an update call: the already-resolved coordinate of the target
/// record, with the derivation proof recomputed for it by the external
/// deriver. A stored record whose proof differs from this recomputation is
/// treated as corrupted or substituted, and the call aborts.
#[derive(Clone, Copy, Debug, PartialEq, Eq)]
pub struct UpdatePixel {
    /// X coordinate of the record being updated.
    pub pos_x: u8,
    /// Y coordinate of the record being updated.
    pub pos_y: u8,
    /// Derivation proof recomputed for this coordinate.
    pub bump: u8,
}

} // verus!
