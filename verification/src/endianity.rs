//! Byte order, selected at run time when a section is loaded.

use vstd::prelude::*;

verus! {

/// The byte order in which the bytes of a section are to be interpreted.
///
/// DWARF sections inherit the byte order of the object file that carries
/// them, so the choice is made once, when a section is loaded, and is then
/// carried by every cursor derived from that section. Code above the cursor
/// layer stays agnostic to which variant is active.
#[derive(Debug, Clone, Copy, PartialEq, Eq, Structural, Hash)]
pub enum Endianity {
    /// Least-significant byte first.
    Little,
    /// Most-significant byte first.
    Big,
}

/// The value of two bytes read in the given byte order.
pub open spec fn spec_u16(endian: Endianity, b: Seq<u8>) -> u16
    recommends
        b.len() == 2,
{
    match endian {
        Endianity::Little => (b[0] + b[1] * 0x100) as u16,
        Endianity::Big => (b[1] + b[0] * 0x100) as u16,
    }
}

/// The value of four bytes read in the given byte order.
pub open spec fn spec_u32(endian: Endianity, b: Seq<u8>) -> u32
    recommends
        b.len() == 4,
{
    match endian {
        Endianity::Little => (b[0] + b[1] * 0x100 + b[2] * 0x1_0000 + b[3] * 0x100_0000) as u32,
        Endianity::Big => (b[3] + b[2] * 0x100 + b[1] * 0x1_0000 + b[0] * 0x100_0000) as u32,
    }
}

/// The value of eight bytes read in the given byte order.
pub open spec fn spec_u64(endian: Endianity, b: Seq<u8>) -> u64
    recommends
        b.len() == 8,
{
    match endian {
        Endianity::Little => (b[0] + b[1] * 0x100 + b[2] * 0x1_0000 + b[3] * 0x100_0000 + b[4]
            * 0x1_0000_0000 + b[5] * 0x100_0000_0000 + b[6] * 0x1_0000_0000_0000 + b[7]
            * 0x100_0000_0000_0000) as u64,
        Endianity::Big => (b[7] + b[6] * 0x100 + b[5] * 0x1_0000 + b[4] * 0x100_0000 + b[3]
            * 0x1_0000_0000 + b[2] * 0x100_0000_0000 + b[1] * 0x1_0000_0000_0000 + b[0]
            * 0x100_0000_0000_0000) as u64,
    }
}

/// The two's-complement reinterpretation of an 8-bit value as signed.
pub open spec fn spec_as_i8(v: u8) -> i8 {
    if v < 0x80 {
        v as i8
    } else {
        (v - 0x100) as i8
    }
}

/// The two's-complement reinterpretation of a 16-bit value as signed.
pub open spec fn spec_as_i16(v: u16) -> i16 {
    if v < 0x8000 {
        v as i16
    } else {
        (v - 0x1_0000) as i16
    }
}

/// The two's-complement reinterpretation of a 32-bit value as signed.
pub open spec fn spec_as_i32(v: u32) -> i32 {
    if v < 0x8000_0000 {
        v as i32
    } else {
        (v - 0x1_0000_0000) as i32
    }
}

/// The two's-complement reinterpretation of a 64-bit value as signed.
pub open spec fn spec_as_i64(v: u64) -> i64 {
    if v < 0x8000_0000_0000_0000 {
        v as i64
    } else {
        (v - 0x1_0000_0000_0000_0000) as i64
    }
}

/// A signed value sign-extended to 64 bits and reinterpreted as unsigned
/// (two's complement), so that wraparound addition applies it to a base.
pub open spec fn spec_sign_extend(v: i64) -> u64 {
    if v >= 0 {
        v as u64
    } else {
        (v + 0x1_0000_0000_0000_0000) as u64
    }
}

/// Wraparound (modulo the 64-bit address space) addition.
pub open spec fn spec_wrapping_add(a: u64, b: u64) -> u64 {
    if a + b > u64::MAX {
        (a + b - 0x1_0000_0000_0000_0000) as u64
    } else {
        (a + b) as u64
    }
}

impl Endianity {
    /// True when this is little-endian byte order.
    #[inline]
    pub fn is_little_endian(self) -> (r: bool)
        ensures
            r == (self == Endianity::Little),
    {
        match self {
            Endianity::Little => true,
            Endianity::Big => false,
        }
    }

    /// True when this is big-endian byte order.
    #[inline]
    pub fn is_big_endian(self) -> (r: bool)
        ensures
            r == (self == Endianity::Big),
    {
        !self.is_little_endian()
    }

    /// Read a `u16` from the first two bytes of `buf` in this byte order.
    pub fn read_u16(self, buf: &[u8]) -> (r: u16)
        requires
            buf@.len() == 2,
        ensures
            r == spec_u16(self, buf@),
    {
        match self {
            Endianity::Little => buf[0] as u16 + (buf[1] as u16) * 0x100,
            Endianity::Big => buf[1] as u16 + (buf[0] as u16) * 0x100,
        }
    }

    /// Read a `u32` from the first four bytes of `buf` in this byte order.
    pub fn read_u32(self, buf: &[u8]) -> (r: u32)
        requires
            buf@.len() == 4,
        ensures
            r == spec_u32(self, buf@),
    {
        match self {
            Endianity::Little => buf[0] as u32 + (buf[1] as u32) * 0x100 + (buf[2] as u32)
                * 0x1_0000 + (buf[3] as u32) * 0x100_0000,
            Endianity::Big => buf[3] as u32 + (buf[2] as u32) * 0x100 + (buf[1] as u32) * 0x1_0000
                + (buf[0] as u32) * 0x100_0000,
        }
    }

    /// Read a `u64` from the first eight bytes of `buf` in this byte order.
    pub fn read_u64(self, buf: &[u8]) -> (r: u64)
        requires
            buf@.len() == 8,
        ensures
            r == spec_u64(self, buf@),
    {
        match self {
            Endianity::Little => buf[0] as u64 + (buf[1] as u64) * 0x100 + (buf[2] as u64)
                * 0x1_0000 + (buf[3] as u64) * 0x100_0000 + (buf[4] as u64) * 0x1_0000_0000 + (
            buf[5] as u64) * 0x100_0000_0000 + (buf[6] as u64) * 0x1_0000_0000_0000 + (
            buf[7] as u64) * 0x100_0000_0000_0000,
            Endianity::Big => buf[7] as u64 + (buf[6] as u64) * 0x100 + (buf[5] as u64) * 0x1_0000
                + (buf[4] as u64) * 0x100_0000 + (buf[3] as u64) * 0x1_0000_0000 + (buf[2] as u64)
                * 0x100_0000_0000 + (buf[1] as u64) * 0x1_0000_0000_0000 + (buf[0] as u64)
                * 0x100_0000_0000_0000,
        }
    }

    /// Read an `i16` from the first two bytes of `buf` in this byte order.
    pub fn read_i16(self, buf: &[u8]) -> (r: i16)
        requires
            buf@.len() == 2,
        ensures
            r == spec_as_i16(spec_u16(self, buf@)),
    {
        let v = self.read_u16(buf);
        if v < 0x8000 {
            v as i16
        } else {
            ((v as i32) - 0x1_0000) as i16
        }
    }

    /// Read an `i32` from the first four bytes of `buf` in this byte order.
    pub fn read_i32(self, buf: &[u8]) -> (r: i32)
        requires
            buf@.len() == 4,
        ensures
            r == spec_as_i32(spec_u32(self, buf@)),
    {
        let v = self.read_u32(buf);
        if v < 0x8000_0000 {
            v as i32
        } else {
            ((v as i64) - 0x1_0000_0000) as i32
        }
    }

    /// Read an `i64` from the first eight bytes of `buf` in this byte order.
    pub fn read_i64(self, buf: &[u8]) -> (r: i64)
        requires
            buf@.len() == 8,
        ensures
            r == spec_as_i64(spec_u64(self, buf@)),
    {
        let v = self.read_u64(buf);
        if v < 0x8000_0000_0000_0000 {
            v as i64
        } else {
            ((v as i128) - 0x1_0000_0000_0000_0000) as i64
        }
    }
}

/// Reinterpret an 8-bit value as signed (two's complement).
#[inline]
pub fn as_i8(v: u8) -> (r: i8)
    ensures
        r == spec_as_i8(v),
{
    if v < 0x80 {
        v as i8
    } else {
        ((v as i16) - 0x100) as i8
    }
}

/// Reinterpret a 16-bit value as signed (two's complement).
#[inline]
pub fn as_i16(v: u16) -> (r: i16)
    ensures
        r == spec_as_i16(v),
{
    if v < 0x8000 {
        v as i16
    } else {
        ((v as i32) - 0x1_0000) as i16
    }
}

/// Reinterpret a 32-bit value as signed (two's complement).
#[inline]
pub fn as_i32(v: u32) -> (r: i32)
    ensures
        r == spec_as_i32(v),
{
    if v < 0x8000_0000 {
        v as i32
    } else {
        ((v as i64) - 0x1_0000_0000) as i32
    }
}

/// Reinterpret a 64-bit value as signed (two's complement).
#[inline]
pub fn as_i64(v: u64) -> (r: i64)
    ensures
        r == spec_as_i64(v),
{
    if v < 0x8000_0000_0000_0000 {
        v as i64
    } else {
        ((v as i128) - 0x1_0000_0000_0000_0000) as i64
    }
}

/// Sign-extend a signed value to 64 bits and reinterpret it as unsigned.
pub fn sign_extend(v: i64) -> (r: u64)
    ensures
        r == spec_sign_extend(v),
{
    if v >= 0 {
        v as u64
    } else {
        ((v as i128) + 0x1_0000_0000_0000_0000_i128) as u64
    }
}

} // verus!
