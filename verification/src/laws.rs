//! The laws of the canvas, proved over the functional model of the two
//! mutating operations: what a freshly created cell reads back as, that
//! invalid coordinates are rejected without a trace, that creation is
//! one-time, that updates touch nothing but color, and that every
//! successful mutation publishes exactly one event carrying the committed
//! record.

use vstd::prelude::*;
use crate::canvas::cell_at;
use crate::canvas::wf_cells;
use crate::draw::spec_create;
use crate::draw::spec_update;
use crate::errors::ErrorCode;
use crate::events::PixelChanged;
use crate::pixel::Pixel;
use crate::validate::MAX_POS;

verus! {

/// Creating a pixel at an in-bounds, never-created coordinate succeeds, and
/// a read of that coordinate afterwards returns exactly the values passed
/// in; every other coordinate reads as it did before.
pub proof fn lemma_create_then_read(
    cells: Seq<Option<Pixel>>,
    log: Seq<PixelChanged>,
    bump: u8,
    pos_x: u8,
    pos_y: u8,
    col_r: u8,
    col_g: u8,
    col_b: u8,
)
    requires
        wf_cells(cells),
        pos_x <= MAX_POS,
        pos_y <= MAX_POS,
        cell_at(cells, pos_x as int, pos_y as int) is None,
    ensures
        ({
            let (cells2, log2, res) = spec_create(cells, log, bump, pos_x, pos_y, col_r, col_g,
                col_b);
            &&& res == Ok::<(), ErrorCode>(())
            &&& cell_at(cells2, pos_x as int, pos_y as int) == Some(
                Pixel { pos_x, pos_y, col_r, col_g, col_b, bump },
            )
            &&& forall|x: int, y: int|
                0 <= x <= MAX_POS && 0 <= y <= MAX_POS && !(x == pos_x && y == pos_y)
                    ==> cell_at(cells2, x, y) == cell_at(cells, x, y)
        }),
{
}

/// A create call whose coordinate lies outside the grid fails with
/// `InvalidXCoordinate` when x is out of range, else `InvalidYCoordinate`,
/// and neither the store nor the event log changes: no record is created.
pub proof fn lemma_create_rejects_out_of_bounds(
    cells: Seq<Option<Pixel>>,
    log: Seq<PixelChanged>,
    bump: u8,
    pos_x: u8,
    pos_y: u8,
    col_r: u8,
    col_g: u8,
    col_b: u8,
)
    requires
        pos_x > MAX_POS || pos_y > MAX_POS,
    ensures
        ({
            let (cells2, log2, res) = spec_create(cells, log, bump, pos_x, pos_y, col_r, col_g,
                col_b);
            &&& cells2 == cells
            &&& log2 == log
            &&& pos_x > MAX_POS ==> res == Err::<(), ErrorCode>(ErrorCode::InvalidXCoordinate)
            &&& pos_x <= MAX_POS && pos_y > MAX_POS ==> res == Err::<(), ErrorCode>(
                ErrorCode::InvalidYCoordinate,
            )
        }),
{
}

/// Creation is one-time: after a successful create at a coordinate, a
/// second create there fails with `AlreadyExists` and changes nothing — the
/// stored record keeps the first call's values, whatever the second call
/// offered.
pub proof fn lemma_create_is_one_time(
    cells: Seq<Option<Pixel>>,
    log: Seq<PixelChanged>,
    bump1: u8,
    bump2: u8,
    pos_x: u8,
    pos_y: u8,
    col_r1: u8,
    col_g1: u8,
    col_b1: u8,
    col_r2: u8,
    col_g2: u8,
    col_b2: u8,
)
    requires
        wf_cells(cells),
        pos_x <= MAX_POS,
        pos_y <= MAX_POS,
        cell_at(cells, pos_x as int, pos_y as int) is None,
    ensures
        ({
            let (cells1, log1, res1) = spec_create(cells, log, bump1, pos_x, pos_y, col_r1,
                col_g1, col_b1);
            let (cells2, log2, res2) = spec_create(cells1, log1, bump2, pos_x, pos_y, col_r2,
                col_g2, col_b2);
            &&& res1 == Ok::<(), ErrorCode>(())
            &&& res2 == Err::<(), ErrorCode>(ErrorCode::AlreadyExists)
            &&& cells2 == cells1
            &&& log2 == log1
            &&& cell_at(cells2, pos_x as int, pos_y as int) == Some(
                Pixel {
                    pos_x,
                    pos_y,
                    col_r: col_r1,
                    col_g: col_g1,
                    col_b: col_b1,
                    bump: bump1,
                },
            )
        }),
{
}

/// An update changes only color fields: it succeeds exactly when a record
/// exists at the coordinate and carries the supplied derivation proof, the
/// committed record keeps the position and proof the record was created
/// with, every other coordinate is untouched, and a failing update changes
/// nothing at all.
pub proof fn lemma_update_touches_only_color(
    cells: Seq<Option<Pixel>>,
    log: Seq<PixelChanged>,
    pos_x: u8,
    pos_y: u8,
    bump: u8,
    col_r: u8,
    col_g: u8,
    col_b: u8,
)
    requires
        wf_cells(cells),
    ensures
        ({
            let (cells2, log2, res) = spec_update(cells, log, pos_x, pos_y, bump, col_r, col_g,
                col_b);
            let before = cell_at(cells, pos_x as int, pos_y as int);
            &&& res == Ok::<(), ErrorCode>(()) <==> (before matches Some(p) && p.bump == bump)
            &&& res is Ok ==> cell_at(cells2, pos_x as int, pos_y as int) == Some(
                Pixel {
                    pos_x: before->Some_0.pos_x,
                    pos_y: before->Some_0.pos_y,
                    col_r,
                    col_g,
                    col_b,
                    bump: before->Some_0.bump,
                },
            )
            &&& res is Err ==> cells2 == cells
            &&& forall|x: int, y: int|
                0 <= x <= MAX_POS && 0 <= y <= MAX_POS && !(x == pos_x && y == pos_y)
                    ==> cell_at(cells2, x, y) == cell_at(cells, x, y)
        }),
{
}

/// Across a whole create-then-update lifecycle at one coordinate, both
/// calls succeed, and the record afterwards carries the update's colors but
/// still the creation's position and derivation proof.
pub proof fn lemma_position_survives_update(
    cells: Seq<Option<Pixel>>,
    log: Seq<PixelChanged>,
    bump: u8,
    pos_x: u8,
    pos_y: u8,
    col_r1: u8,
    col_g1: u8,
    col_b1: u8,
    col_r2: u8,
    col_g2: u8,
    col_b2: u8,
)
    requires
        wf_cells(cells),
        pos_x <= MAX_POS,
        pos_y <= MAX_POS,
        cell_at(cells, pos_x as int, pos_y as int) is None,
    ensures
        ({
            let (cells1, log1, res1) = spec_create(cells, log, bump, pos_x, pos_y, col_r1,
                col_g1, col_b1);
            let (cells2, log2, res2) = spec_update(cells1, log1, pos_x, pos_y, bump, col_r2,
                col_g2, col_b2);
            &&& res1 == Ok::<(), ErrorCode>(())
            &&& res2 == Ok::<(), ErrorCode>(())
            &&& cell_at(cells2, pos_x as int, pos_y as int) == Some(
                Pixel {
                    pos_x,
                    pos_y,
                    col_r: col_r2,
                    col_g: col_g2,
                    col_b: col_b2,
                    bump,
                },
            )
        }),
{
}

/// A create call publishes exactly one event when — and only when — it
/// succeeds, and the event's fields equal the just-committed record's.
pub proof fn lemma_create_emits_committed(
    cells: Seq<Option<Pixel>>,
    log: Seq<PixelChanged>,
    bump: u8,
    pos_x: u8,
    pos_y: u8,
    col_r: u8,
    col_g: u8,
    col_b: u8,
)
    requires
        wf_cells(cells),
    ensures
        ({
            let (cells2, log2, res) = spec_create(cells, log, bump, pos_x, pos_y, col_r, col_g,
                col_b);
            &&& res is Ok ==> {
                &&& log2 == log.push(PixelChanged { pos_x, pos_y, col_r, col_g, col_b })
                &&& cell_at(cells2, pos_x as int, pos_y as int) == Some(
                    Pixel { pos_x, pos_y, col_r, col_g, col_b, bump },
                )
            }
            &&& res is Err ==> log2 == log
        }),
{
}

/// An update call publishes exactly one event when — and only when — it
/// succeeds, and the event's fields equal the just-committed record's.
pub proof fn lemma_update_emits_committed(
    cells: Seq<Option<Pixel>>,
    log: Seq<PixelChanged>,
    pos_x: u8,
    pos_y: u8,
    bump: u8,
    col_r: u8,
    col_g: u8,
    col_b: u8,
)
    requires
        wf_cells(cells),
    ensures
        ({
            let (cells2, log2, res) = spec_update(cells, log, pos_x, pos_y, bump, col_r, col_g,
                col_b);
            let committed = cell_at(cells2, pos_x as int, pos_y as int);
            &&& res is Ok ==> {
                &&& committed is Some
                &&& log2 == log.push(
                    PixelChanged {
                        pos_x: committed->Some_0.pos_x,
                        pos_y: committed->Some_0.pos_y,
                        col_r: committed->Some_0.col_r,
                        col_g: committed->Some_0.col_g,
                        col_b: committed->Some_0.col_b,
                    },
                )
            }
            &&& res is Err ==> log2 == log
        }),
{
}

} // verus!
