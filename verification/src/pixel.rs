//! The persisted record: one pixel per canvas cell.

use vstd::prelude::*;

verus! {

/// Length in bytes of the opaque record-type tag that precedes each
/// persisted record.
pub const DISCRIMINATOR_LENGTH: usize = 8;
/// Length in bytes of one persisted position field.
pub const POS_LENGTH: usize = 1;
/// Length in bytes of one persisted color field.
pub const COL_LENGTH: usize = 1;
/// Length in bytes of the persisted derivation proof.
pub const BUMP_LENGTH: usize = 1;

/// One canvas cell: a position, a color, and the derivation proof that binds
/// the record to its coordinate-derived address. Position fields are set
/// exactly once, at creation; color fields may be rewritten arbitrarily
/// often; the proof is set at creation and re-verified on every later access.
#[derive(Clone, Copy, Debug, PartialEq, Eq)]
pub struct Pixel {
    /// X coordinate, constrained to [0, 99]; immutable after creation.
    pub pos_x: u8,
    /// Y coordinate, constrained to [0, 99]; immutable after creation.
    pub pos_y: u8,
    /// Red component, the full u8 range.
    pub col_r: u8,
    /// Green component, the full u8 range.
    pub col_g: u8,
    /// Blue component, the full u8 range.
    pub col_b: u8,
    /// Derivation proof: the nonce under which this record's address was
    /// derived from its coordinates.
    pub bump: u8,
}

impl Pixel {
    /// Size in bytes of one persisted record: the record-type tag, two
    /// position bytes, three color bytes, and one derivation-proof byte.
    pub const LEN: usize = DISCRIMINATOR_LENGTH + (2 * POS_LENGTH) + (3 * COL_LENGTH)
        + BUMP_LENGTH;

    /// Whether the record's position lies inside the 100x100 grid.
    pub open spec fn in_bounds(self) -> bool {
        self.pos_x <= 99 && self.pos_y <= 99
    }
}

} // verus!
