//! A shared, coordinate-addressed canvas: a 100x100 grid of cells, each
//! holding an RGB color. A cell is created once at a given coordinate with an
//! initial color and may later have only its color updated. Every successful
//! mutation produces one change notification reflecting the committed record.

pub mod canvas;
pub mod contexts;
pub mod draw;
pub mod errors;
pub mod events;
pub mod laws;
pub mod pixel;
pub mod validate;
