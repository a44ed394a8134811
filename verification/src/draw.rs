//! The two mutating operations of the canvas, and the functional model that
//! pins down exactly what each does: which error comes back on which input,
//! how the store changes, and which event is published. Validation runs
//! before any state is touched, so every failing call leaves both the store
//! and the event log exactly as they were.

use vstd::prelude::*;
use crate::canvas::Canvas;
use crate::canvas::cell_at;
use crate::canvas::slot_of;
use crate::contexts::CreatePixel;
use crate::contexts::UpdatePixel;
use crate::errors::ErrorCode;
use crate::events::EventEmitter;
use crate::events::PixelChanged;
use crate::pixel::Pixel;
use crate::validate::spec_validate_create;
use crate::validate::spec_validate_update;
use crate::validate::validate_create;
use crate::validate::validate_update;

verus! {

/// The complete outcome of a create call on a given store and event log:
/// the store afterwards, the log afterwards, and the result. Validation
/// runs first, in create order; then the record is allocated if and only if
/// the coordinate's slot is still empty, and exactly one event carrying the
/// committed fields is appended.
pub open spec fn spec_create(
    cells: Seq<Option<Pixel>>,
    log: Seq<PixelChanged>,
    bump: u8,
    pos_x: u8,
    pos_y: u8,
    col_r: u8,
    col_g: u8,
    col_b: u8,
) -> (Seq<Option<Pixel>>, Seq<PixelChanged>, Result<(), ErrorCode>) {
    match spec_validate_create(pos_x, pos_y, col_r, col_g, col_b) {
        Err(e) => (cells, log, Err(e)),
        Ok(_) => match cell_at(cells, pos_x as int, pos_y as int) {
            Some(_) => (cells, log, Err(ErrorCode::AlreadyExists)),
            None => {
                let created = Pixel { pos_x, pos_y, col_r, col_g, col_b, bump };
                let event = PixelChanged { pos_x, pos_y, col_r, col_g, col_b };
                (
                    cells.update(slot_of(pos_x as int, pos_y as int), Some(created)),
                    log.push(event),
                    Ok(()),
                )
            },
        },
    }
}

/// The complete outcome of an update call: validation first, in update
/// order; then the record is located (`NotFound` when absent), its stored
/// proof is held against the supplied one (`AddressMismatch` on a
/// difference), and only then are the color fields — and nothing else —
/// overwritten, with exactly one event carrying the committed fields
/// appended.
pub open spec fn spec_update(
    cells: Seq<Option<Pixel>>,
    log: Seq<PixelChanged>,
    pos_x: u8,
    pos_y: u8,
    bump: u8,
    col_r: u8,
    col_g: u8,
    col_b: u8,
) -> (Seq<Option<Pixel>>, Seq<PixelChanged>, Result<(), ErrorCode>) {
    match spec_validate_update(col_r, col_g, col_b) {
        Err(e) => (cells, log, Err(e)),
        Ok(_) => match cell_at(cells, pos_x as int, pos_y as int) {
            None => (cells, log, Err(ErrorCode::NotFound)),
            Some(p) => {
                if p.bump != bump {
                    (cells, log, Err(ErrorCode::AddressMismatch))
                } else {
                    let committed = Pixel {
                        pos_x: p.pos_x,
                        pos_y: p.pos_y,
                        col_r,
                        col_g,
                        col_b,
                        bump: p.bump,
                    };
                    let event = PixelChanged { pos_x: p.pos_x, pos_y: p.pos_y, col_r, col_g, col_b };
                    (
                        cells.update(slot_of(pos_x as int, pos_y as int), Some(committed)),
                        log.push(event),
                        Ok(()),
                    )
                }
            },
        },
    }
}

/// Creates the pixel at (pos_x, pos_y) with the given initial color,
/// storing the context's derivation proof in the new record, and publishes
/// one event for the committed record. All-or-nothing: a validation failure
/// or an already-allocated slot leaves store and log untouched. Succeeds if
/// and only if both coordinates are in [0, 99] and the coordinate has never
/// been created.
pub fn create_pixel(
    ctx: CreatePixel,
    canvas: &mut Canvas,
    emitter: &mut EventEmitter,
    pos_x: u8,
    pos_y: u8,
    init_col_r: u8,
    init_col_g: u8,
    init_col_b: u8,
) -> (res: Result<(), ErrorCode>)
    requires
        old(canvas).wf(),
    ensures
        final(canvas).wf(),
        ({
            let (cells, log, outcome) = spec_create(
                old(canvas)@,
                old(emitter)@,
                ctx.bump,
                pos_x,
                pos_y,
                init_col_r,
                init_col_g,
                init_col_b,
            );
            final(canvas)@ == cells && final(emitter)@ == log && res == outcome
        }),
{
    if let Err(e) = validate_create(pos_x, pos_y, init_col_r, init_col_g, init_col_b) {
        return Err(e);
    }
    match canvas.create(pos_x, pos_y, init_col_r, init_col_g, init_col_b, ctx.bump) {
        Err(e) => Err(e),
        Ok(created) => {
            emitter.emit(
                PixelChanged {
                    pos_x: created.pos_x,
                    pos_y: created.pos_y,
                    col_r: created.col_r,
                    col_g: created.col_g,
                    col_b: created.col_b,
                },
            );
            Ok(())
        },
    }
}

/// Updates only the color of the already-created pixel the context is bound
/// to, and publishes one event for the committed record. All-or-nothing: a
/// validation failure, a missing record (`NotFound`) or a derivation-proof
/// mismatch (`AddressMismatch`) leaves store and log untouched. Succeeds if
/// and only if a record exists at the context's coordinate and its stored
/// proof equals the context's.
pub fn update_pixel(
    ctx: UpdatePixel,
    canvas: &mut Canvas,
    emitter: &mut EventEmitter,
    new_col_r: u8,
    new_col_g: u8,
    new_col_b: u8,
) -> (res: Result<(), ErrorCode>)
    requires
        old(canvas).wf(),
    ensures
        final(canvas).wf(),
        ({
            let (cells, log, outcome) = spec_update(
                old(canvas)@,
                old(emitter)@,
                ctx.pos_x,
                ctx.pos_y,
                ctx.bump,
                new_col_r,
                new_col_g,
                new_col_b,
            );
            final(canvas)@ == cells && final(emitter)@ == log && res == outcome
        }),
{
    if let Err(e) = validate_update(new_col_r, new_col_g, new_col_b) {
        return Err(e);
    }
    match canvas.update(ctx.pos_x, ctx.pos_y, ctx.bump, new_col_r, new_col_g, new_col_b) {
        Err(e) => Err(e),
        Ok(committed) => {
            emitter.emit(
                PixelChanged {
                    pos_x: committed.pos_x,
                    pos_y: committed.pos_y,
                    col_r: committed.col_r,
                    col_g: committed.col_g,
                    col_b: committed.col_b,
                },
            );
            Ok(())
        },
    }
}

} // verus!
