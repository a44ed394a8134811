//! Pure bounds-checking of create and update inputs. Checks run in a fixed
//! order and report the first failing field; all of them run before any
//! state is touched.
//!
//! Color fields span the full unsigned 8-bit range, so the color checks can
//! never reject an input in practice; they are kept because the check order
//! decides which error is reported first.

use vstd::prelude::*;
use crate::errors::ErrorCode;

verus! {

/// Smallest coordinate of the grid.
pub const MIN_POS: u8 = 0;
/// Largest coordinate of the grid.
pub const MAX_POS: u8 = 99;
/// Smallest color component value.
pub const MIN_COL: u8 = 0;
/// Largest color component value.
pub const MAX_COL: u8 = 255;

/// The outcome of validating create inputs, checked in this exact order:
/// x in [0, 99], y in [0, 99], then g, r, b in [0, 255].
pub open spec fn spec_validate_create(
    pos_x: u8,
    pos_y: u8,
    col_r: u8,
    col_g: u8,
    col_b: u8,
) -> Result<(), ErrorCode> {
    if pos_x < MIN_POS || pos_x > MAX_POS {
        Err(ErrorCode::InvalidXCoordinate)
    } else if pos_y < MIN_POS || pos_y > MAX_POS {
        Err(ErrorCode::InvalidYCoordinate)
    } else if col_g < MIN_COL || col_g > MAX_COL {
        Err(ErrorCode::InvalidGColor)
    } else if col_r < MIN_COL || col_r > MAX_COL {
        Err(ErrorCode::InvalidRColor)
    } else if col_b < MIN_COL || col_b > MAX_COL {
        Err(ErrorCode::InvalidBColor)
    } else {
        Ok(())
    }
}

/// The outcome of validating update inputs: r, g, b in [0, 255], in that
/// order. Note the field order differs from create.
pub open spec fn spec_validate_update(col_r: u8, col_g: u8, col_b: u8) -> Result<(), ErrorCode> {
    if col_r < MIN_COL || col_r > MAX_COL {
        Err(ErrorCode::InvalidRColor)
    } else if col_g < MIN_COL || col_g > MAX_COL {
        Err(ErrorCode::InvalidGColor)
    } else if col_b < MIN_COL || col_b > MAX_COL {
        Err(ErrorCode::InvalidBColor)
    } else {
        Ok(())
    }
}

/// Checks create inputs and returns the first failing field's error:
/// `InvalidXCoordinate` iff x > 99, else `InvalidYCoordinate` iff y > 99;
/// the color checks cannot fail, so every in-bounds coordinate validates.
#[allow(unused_comparisons)]
pub fn validate_create(pos_x: u8, pos_y: u8, col_r: u8, col_g: u8, col_b: u8) -> (res: Result<
    (),
    ErrorCode,
>)
    ensures
        res == spec_validate_create(pos_x, pos_y, col_r, col_g, col_b),
        res is Ok <==> pos_x <= MAX_POS && pos_y <= MAX_POS,
{
    if pos_x < MIN_POS || pos_x > MAX_POS {
        return Err(ErrorCode::InvalidXCoordinate);
    }
    if pos_y < MIN_POS || pos_y > MAX_POS {
        return Err(ErrorCode::InvalidYCoordinate);
    }
    if col_g < MIN_COL || col_g > MAX_COL {
        return Err(ErrorCode::InvalidGColor);
    }
    if col_r < MIN_COL || col_r > MAX_COL {
        return Err(ErrorCode::InvalidRColor);
    }
    if col_b < MIN_COL || col_b > MAX_COL {
        return Err(ErrorCode::InvalidBColor);
    }
    Ok(())
}

/// Checks update inputs in the order r, g, b; color fields span the whole
/// u8 range, so the result is always `Ok`.
#[allow(unused_comparisons)]
pub fn validate_update(col_r: u8, col_g: u8, col_b: u8) -> (res: Result<(), ErrorCode>)
    ensures
        res == spec_validate_update(col_r, col_g, col_b),
        res is Ok,
{
    if col_r < MIN_COL || col_r > MAX_COL {
        return Err(ErrorCode::InvalidRColor);
    }
    if col_g < MIN_COL || col_g > MAX_COL {
        return Err(ErrorCode::InvalidGColor);
    }
    if col_b < MIN_COL || col_b > MAX_COL {
        return Err(ErrorCode::InvalidBColor);
    }
    Ok(())
}

} // verus!
