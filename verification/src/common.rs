//! Types shared between the read and write halves of the crate.

use vstd::prelude::*;

verus! {

/// Whether the format of a compilation unit is 32- or 64-bit.
#[derive(Debug, Clone, Copy, PartialEq, Eq, Structural, Hash)]
pub enum Format {
    /// 64-bit DWARF
    Dwarf64,
    /// 32-bit DWARF
    Dwarf32,
}

impl Format {
    /// Return the serialized size of an initial length field for the format.
    #[inline]
    pub fn initial_length_size(self) -> (size: u8)
        ensures
            self == Format::Dwarf32 ==> size == 4,
            self == Format::Dwarf64 ==> size == 12,
    {
        match self {
            Format::Dwarf32 => 4,
            Format::Dwarf64 => 12,
        }
    }

    /// Return the natural word size for the format.
    #[inline]
    pub fn word_size(self) -> (size: u8)
        ensures
            self == Format::Dwarf32 ==> size == 4,
            self == Format::Dwarf64 ==> size == 8,
    {
        match self {
            Format::Dwarf32 => 4,
            Format::Dwarf64 => 8,
        }
    }
}

/// A DWARF register number.
///
/// The meaning of this value is ABI dependent. This is generally encoded as
/// a ULEB128, but supported architectures need 16 bits at most.
#[derive(Debug, Clone, Copy, PartialEq, Eq, Structural, Hash, PartialOrd, Ord)]
pub struct Register(pub u16);

/// An offset or length in an unspecified section.
pub(crate) type Offset = u64;

/// An offset into the `.debug_abbrev` section.
#[derive(Debug, Clone, Copy, PartialEq, Eq, Structural, Hash)]
pub struct DebugAbbrevOffset(pub Offset);

/// An offset into the `.debug_info` section.
#[derive(Debug, Clone, Copy, PartialEq, Eq, Structural, Ord, PartialOrd, Hash)]
pub struct DebugInfoOffset(pub Offset);

/// An offset into the `.debug_line` section.
#[derive(Debug, Clone, Copy, PartialEq, Eq, Structural)]
pub struct DebugLineOffset(pub Offset);

/// An offset into either the `.debug_loc` section or the `.debug_loclists` section,
/// depending on the version of the unit the offset was contained in.
#[derive(Debug, Clone, Copy, PartialEq, Eq, Structural, Hash)]
pub struct LocationListsOffset(pub Offset);

/// An offset into the `.debug_macinfo` section.
#[derive(Debug, Clone, Copy, PartialEq, Eq, Structural, Hash)]
pub struct DebugMacinfoOffset(pub Offset);

/// An offset into either the `.debug_ranges` section or the `.debug_rnglists` section,
/// depending on the version of the unit the offset was contained in.
#[derive(Debug, Clone, Copy, PartialEq, Eq, Structural, Hash)]
pub struct RangeListsOffset(pub Offset);

/// An offset into the `.debug_str` section.
#[derive(Debug, Clone, Copy, PartialEq, Eq, Structural)]
pub struct DebugStrOffset(pub Offset);

/// An offset into the `.debug_types` section.
#[derive(Debug, Clone, Copy, PartialEq, Eq, Structural, Hash)]
pub struct DebugTypesOffset(pub Offset);

/// A type signature as used in the `.debug_types` section.
#[derive(Debug, Clone, Copy, PartialEq, Eq, Structural, Hash)]
pub struct DebugTypeSignature(pub Offset);

/// An offset into the `.debug_frame` section.
#[derive(Debug, Clone, Copy, PartialEq, Eq, Structural, Hash)]
pub struct DebugFrameOffset(pub Offset);

impl From<u64> for DebugFrameOffset {
    #[inline]
    fn from(o: u64) -> (r: Self)
        ensures
            r == DebugFrameOffset(o),
    {
        DebugFrameOffset(o)
    }
}

impl vstd::std_specs::convert::FromSpecImpl<u64> for DebugFrameOffset {
    open spec fn obeys_from_spec() -> bool {
        true
    }

    open spec fn from_spec(o: u64) -> Self {
        DebugFrameOffset(o)
    }
}

/// An offset into the `.eh_frame` section.
#[derive(Debug, Clone, Copy, PartialEq, Eq, Structural, Hash)]
pub struct EhFrameOffset(pub u64);

impl From<u64> for EhFrameOffset {
    #[inline]
    fn from(o: u64) -> (r: Self)
        ensures
            r == EhFrameOffset(o),
    {
        EhFrameOffset(o)
    }
}

impl vstd::std_specs::convert::FromSpecImpl<u64> for EhFrameOffset {
    open spec fn obeys_from_spec() -> bool {
        true
    }

    open spec fn from_spec(o: u64) -> Self {
        EhFrameOffset(o)
    }
}

/// An offset pointing at the first address after the header of a set of
/// entries in the `.debug_addr` section.
#[derive(Debug, Clone, Copy, PartialEq, Eq, Structural, Hash)]
pub struct DebugAddrBase(pub Offset);

/// The index of an address in a set of entries in the `.debug_addr` section.
#[derive(Debug, Clone, Copy, PartialEq, Eq, Structural, Hash)]
pub struct DebugAddrIndex(pub Offset);

} // verus!
