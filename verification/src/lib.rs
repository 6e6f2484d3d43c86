//! Control layer for a per-key RGB backlit keyboard.
//!
//! The crate translates logical key identities into the device's physical
//! matrix addressing scheme ([`keys`]), and mediates color changes through a
//! staged color buffer with an optional auto-flush mode ([`keyboard`]). The
//! device itself is an opaque collaborator that accepts a handful of primitive
//! operations; it is modeled as an explicit state machine ([`device`]) so that
//! the addressing and buffering protocol can be verified end to end.

use vstd::prelude::*;

pub mod device;
pub mod error;
pub mod keyboard;
pub mod keys;

verus! {

/// Number of rows in the device's LED matrix.
pub const ROWS: usize = 6;

/// Number of columns in the device's LED matrix.
pub const COLUMNS: usize = 21;

/// Number of color components (red, green, blue) stored per matrix cell.
pub const COMPONENTS: usize = 3;

/// Length in bytes of the flattened, row-major color buffer that covers every
/// matrix cell with one red/green/blue triple.
pub const BUFFER_SIZE: usize = ROWS * COLUMNS * COMPONENTS;

/// The byte offset, in the flattened row-major color buffer, of the
/// red/green/blue triple for the cell at `(row, col)`: each row spans
/// `COLUMNS * COMPONENTS` = 63 bytes and each cell `COMPONENTS` = 3.
pub open spec fn cell_offset(row: u8, col: u8) -> int {
    row as int * 63 + col as int * 3
}

/// Compute the byte offset of the red/green/blue triple for the cell at
/// `(row, col)`.
pub fn buffer_offset(row: u8, col: u8) -> (i: usize)
    requires
        row < ROWS,
        col < COLUMNS,
    ensures
        i == cell_offset(row, col),
        i + COMPONENTS <= BUFFER_SIZE,
{
    (row as usize) * 63 + (col as usize) * 3
}

} // verus!
