//! A toolkit for reading DWARF-style debugging metadata.
//!
//! The heart of the crate is the cursor abstraction in [`read`]: a view over a
//! byte range with an implicit current position, available as a zero-copy
//! backend over a borrowed slice and as a buffered backend over a seekable
//! section. Format-aware length and offset decoding, LEB128 variable-length
//! integers, and base-relative encoded-pointer resolution for unwind metadata
//! are built on that cursor contract.

pub mod common;
pub mod constants;
pub mod endianity;
pub mod leb128;
pub mod read;
pub mod write;
