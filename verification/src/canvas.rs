//! The pixel store: records keyed by the address derived from their
//! coordinate. The coordinate-to-slot derivation is deterministic and
//! collision-free over the whole 100x100 grid, so at most one record can
//! ever exist per coordinate, and a stored record is trusted only while its
//! own coordinates still derive the slot it occupies.

use vstd::prelude::*;
use crate::errors::ErrorCode;
use crate::pixel::Pixel;
use crate::validate::MAX_POS;

verus! {

/// Cells per grid side.
pub const GRID_SIDE: usize = 100;
/// Number of storage slots: one per coordinate of the 100x100 grid.
pub const GRID_CELLS: usize = 10000;

/// The storage slot derived from a coordinate. Row-major over the grid:
/// injective on [0, 99] x [0, 99], so distinct coordinates never collide.
pub open spec fn slot_of(x: int, y: int) -> int {
    x * (GRID_SIDE as int) + y
}

/// The record stored for coordinate (x, y), or `None` when the coordinate is
/// outside the grid or its slot is unallocated.
pub open spec fn cell_at(cells: Seq<Option<Pixel>>, x: int, y: int) -> Option<Pixel> {
    if 0 <= x <= MAX_POS && 0 <= y <= MAX_POS {
        cells[slot_of(x, y)]
    } else {
        None
    }
}

/// Well-formedness of the store: one slot per grid coordinate, and every
/// allocated record sits at the slot derived from its own coordinates — the
/// invariant that the per-access proof verification defends.
pub open spec fn wf_cells(cells: Seq<Option<Pixel>>) -> bool {
    &&& cells.len() == GRID_CELLS
    &&& forall|i: int|
        0 <= i < cells.len() && cells[i] is Some ==> {
            let p = cells[i]->Some_0;
            p.in_bounds() && slot_of(p.pos_x as int, p.pos_y as int) == i
        }
}

/// Distinct in-bounds coordinates derive distinct slots.
pub proof fn lemma_slot_of_injective(x1: int, y1: int, x2: int, y2: int)
    requires
        0 <= x1 <= MAX_POS,
        0 <= y1 <= MAX_POS,
        0 <= x2 <= MAX_POS,
        0 <= y2 <= MAX_POS,
        slot_of(x1, y1) == slot_of(x2, y2),
    ensures
        x1 == x2 && y1 == y2,
{
}

/// The slot of every in-bounds coordinate lies inside the store.
pub proof fn lemma_slot_of_in_range(x: int, y: int)
    requires
        0 <= x <= MAX_POS,
        0 <= y <= MAX_POS,
    ensures
        0 <= slot_of(x, y) < GRID_CELLS,
{
}

/// The canvas: one optional record per derived slot. Records are created at
/// most once per coordinate and never destroyed.
pub struct Canvas {
    cells: Vec<Option<Pixel>>,
}

impl View for Canvas {
    type V = Seq<Option<Pixel>>;

    closed spec fn view(&self) -> Seq<Option<Pixel>> {
        self.cells@
    }
}

impl Canvas {
    /// Well-formedness of this canvas's slots.
    pub open spec fn wf(&self) -> bool {
        wf_cells(self@)
    }

    /// The record stored for (x, y), if any.
    pub open spec fn spec_get(&self, x: int, y: int) -> Option<Pixel> {
        cell_at(self@, x, y)
    }

    /// An empty canvas: every slot of the grid unallocated.
    pub fn new() -> (canvas: Canvas)
        ensures
            canvas.wf(),
            forall|x: int, y: int| cell_at(canvas@, x, y) is None,
    {
        let mut cells: Vec<Option<Pixel>> = Vec::new();
        let mut i: usize = 0;
        while i < GRID_CELLS
            invariant
                i <= GRID_CELLS,
                cells@.len() == i,
                forall|k: int| 0 <= k < i ==> cells@[k] is None,
            decreases GRID_CELLS - i,
        {
            cells.push(None);
            i = i + 1;
        }
        Canvas { cells }
    }

    /// Reads the record at (x, y): `None` for a coordinate outside the grid
    /// or a slot not yet created.
    pub fn get(&self, pos_x: u8, pos_y: u8) -> (res: Option<Pixel>)
        requires
            self.wf(),
        ensures
            res == self.spec_get(pos_x as int, pos_y as int),
    {
        if pos_x > MAX_POS || pos_y > MAX_POS {
            return None;
        }
        let slot: usize = (pos_x as usize) * GRID_SIDE + (pos_y as usize);
        self.cells[slot]
    }

    /// Allocates the record for (pos_x, pos_y) if and only if its slot is
    /// still empty, populating position, color and derivation proof; fails
    /// with `AlreadyExists`, leaving the pre-existing record untouched, when
    /// the slot is already allocated. This is the only operation that ever
    /// writes position fields.
    pub fn create(
        &mut self,
        pos_x: u8,
        pos_y: u8,
        col_r: u8,
        col_g: u8,
        col_b: u8,
        bump: u8,
    ) -> (res: Result<Pixel, ErrorCode>)
        requires
            old(self).wf(),
            pos_x <= MAX_POS,
            pos_y <= MAX_POS,
        ensures
            final(self).wf(),
            ({
                let created = Pixel { pos_x, pos_y, col_r, col_g, col_b, bump };
                let pre = old(self)@;
                let post = final(self)@;
                match cell_at(pre, pos_x as int, pos_y as int) {
                    Some(_) => res == Err::<Pixel, ErrorCode>(ErrorCode::AlreadyExists) && post
                        == pre,
                    None => res == Ok::<Pixel, ErrorCode>(created) && post == pre.update(
                        slot_of(pos_x as int, pos_y as int),
                        Some(created),
                    ),
                }
            }),
    {
        let slot: usize = (pos_x as usize) * GRID_SIDE + (pos_y as usize);
        if self.cells[slot].is_some() {
            return Err(ErrorCode::AlreadyExists);
        }
        let created = Pixel { pos_x, pos_y, col_r, col_g, col_b, bump };
        self.cells.set(slot, Some(created));
        Ok(created)
    }

    /// Locates the record at (pos_x, pos_y) — failing `NotFound` when
    /// absent, `AddressMismatch` when its stored derivation proof differs
    /// from the supplied one — then overwrites only the color fields,
    /// leaving position and proof untouched, and returns the committed
    /// record.
    pub fn update(
        &mut self,
        pos_x: u8,
        pos_y: u8,
        bump: u8,
        col_r: u8,
        col_g: u8,
        col_b: u8,
    ) -> (res: Result<Pixel, ErrorCode>)
        requires
            old(self).wf(),
        ensures
            final(self).wf(),
            ({
                let pre = old(self)@;
                let post = final(self)@;
                match cell_at(pre, pos_x as int, pos_y as int) {
                    None => res == Err::<Pixel, ErrorCode>(ErrorCode::NotFound) && post == pre,
                    Some(p) => {
                        let committed = Pixel {
                            pos_x: p.pos_x,
                            pos_y: p.pos_y,
                            col_r,
                            col_g,
                            col_b,
                            bump: p.bump,
                        };
                        if p.bump != bump {
                            res == Err::<Pixel, ErrorCode>(ErrorCode::AddressMismatch) && post
                                == pre
                        } else {
                            res == Ok::<Pixel, ErrorCode>(committed) && post == pre.update(
                                slot_of(pos_x as int, pos_y as int),
                                Some(committed),
                            )
                        }
                    },
                }
            }),
    {
        if pos_x > MAX_POS || pos_y > MAX_POS {
            return Err(ErrorCode::NotFound);
        }
        let slot: usize = (pos_x as usize) * GRID_SIDE + (pos_y as usize);
        match self.cells[slot] {
            None => Err(ErrorCode::NotFound),
            Some(p) => {
                if p.bump != bump {
                    return Err(ErrorCode::AddressMismatch);
                }
                let committed = Pixel {
                    pos_x: p.pos_x,
                    pos_y: p.pos_y,
                    col_r,
                    col_g,
                    col_b,
                    bump: p.bump,
                };
                self.cells.set(slot, Some(committed));
                Ok(committed)
            },
        }
    }
}

} // verus!
