//! The error kinds a mutating call can report. They are mutually exclusive:
//! every failure path returns exactly one of them.

use vstd::prelude::*;

verus! {

/// Why a create or update call was rejected. Validation errors are reported
/// in a fixed first-match order before any state is touched; `AlreadyExists`
/// and `NotFound` signal a coordinate already or not yet populated, and
/// `AddressMismatch` signals a record whose stored derivation proof does not
/// match the proof supplied for its own coordinates.
#[derive(Clone, Copy, Debug, PartialEq, Eq)]
pub enum ErrorCode {
    /// The given X coordinate is not between 0 and 99.
    InvalidXCoordinate,
    /// The given Y coordinate is not between 0 and 99.
    InvalidYCoordinate,
    /// The given R color is not between 0 and 255.
    InvalidRColor,
    /// The given G color is not between 0 and 255.
    InvalidGColor,
    /// The given B color is not between 0 and 255.
    InvalidBColor,
    /// A record already exists at the derived address.
    AlreadyExists,
    /// No record exists at the derived address.
    NotFound,
    /// The record's stored derivation proof does not match the one supplied.
    AddressMismatch,
}

} // verus!
