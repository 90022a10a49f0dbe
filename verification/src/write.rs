//! Write DWARF-style debugging metadata.

pub mod endian_vec;

use vstd::prelude::*;

verus! {

/// An error that occurred when writing.
#[derive(Debug, Clone, Copy, PartialEq, Eq, Structural)]
pub enum Error {
    /// The given offset is out of bounds.
    OffsetOutOfBounds,
    /// The given length is out of bounds.
    LengthOutOfBounds,
}

} // verus!
