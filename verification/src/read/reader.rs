//! The cursor contract that every DWARF section backend implements.

use vstd::prelude::*;

verus! {

use crate::common::Format;
use crate::endianity::Endianity;
use crate::endianity::spec_u16;
use crate::endianity::spec_u32;
use crate::endianity::spec_u64;
use crate::endianity::spec_as_i8;
use crate::endianity::spec_as_i16;
use crate::endianity::spec_as_i32;
use crate::endianity::spec_as_i64;
use crate::endianity::as_i8;
use crate::endianity::as_i16;
use crate::endianity::as_i32;
use crate::endianity::as_i64;
use crate::read::Error;

/// The index of the first occurrence of `byte` in `b`, if there is one.
pub open spec fn spec_find(b: Seq<u8>, byte: u8) -> Option<int>
    decreases b.len(),
{
    if b.len() == 0 {
        None
    } else if b[0] == byte {
        Some(0)
    } else {
        match spec_find(b.skip(1), byte) {
            Some(i) => Some(i + 1),
            None => None,
        }
    }
}

/// What `spec_find` returns: the first occurrence of the byte, or nothing
/// when the byte does not occur at all.
pub proof fn lemma_spec_find(b: Seq<u8>, byte: u8)
    ensures
        match spec_find(b, byte) {
            Some(i) => 0 <= i < b.len() && b[i] == byte && (forall|j: int|
                0 <= j < i ==> b[j] != byte),
            None => forall|j: int| 0 <= j < b.len() ==> b[j] != byte,
        },
    decreases b.len(),
{
    if b.len() != 0 && b[0] != byte {
        lemma_spec_find(b.skip(1), byte);
        match spec_find(b.skip(1), byte) {
            Some(i) => {
                assert(b.skip(1)[i] == byte);
                assert(forall|j: int| 1 <= j < i + 1 ==> b[j] == b.skip(1)[j - 1]);
            },
            None => {
                assert(forall|j: int| 1 <= j < b.len() ==> b[j] == b.skip(1)[j - 1]);
            },
        }
    }
}

/// A first occurrence at `i` pins `spec_find` down to `Some(i)`.
pub proof fn lemma_spec_find_complete(b: Seq<u8>, byte: u8, i: int)
    requires
        0 <= i < b.len(),
        b[i] == byte,
        forall|j: int| 0 <= j < i ==> b[j] != byte,
    ensures
        spec_find(b, byte) == Some(i),
    decreases b.len(),
{
    if i != 0 {
        assert(forall|j: int| 0 <= j < i - 1 ==> b.skip(1)[j] == b[j + 1]);
        assert(b.skip(1)[i - 1] == byte);
        lemma_spec_find_complete(b.skip(1), byte, i - 1);
    }
}

/// The value of the first `size` bytes of `b`, zero-extended to 64 bits.
pub open spec fn spec_zero_extended(endian: Endianity, b: Seq<u8>, size: u8) -> u64
    recommends
        size == 1 || size == 2 || size == 4 || size == 8,
        b.len() == size,
{
    if size == 1 {
        b[0] as u64
    } else if size == 2 {
        spec_u16(endian, b) as u64
    } else if size == 4 {
        spec_u32(endian, b) as u64
    } else {
        spec_u64(endian, b)
    }
}

/// Splitting conserves a cursor's bytes: `split(n)` on a cursor holding
/// `b` hands back a cursor of exactly the first `n` bytes, leaves the
/// cursor the remaining `b.len() - n`, and the two parts concatenate to
/// exactly the bytes held before, as the contract of [`Reader::split`]
/// states them.
pub proof fn lemma_split_conservation(b: Seq<u8>, n: int)
    requires
        0 <= n <= b.len(),
    ensures
        b.take(n).len() == n,
        b.skip(n).len() == b.len() - n,
        b.take(n) + b.skip(n) == b,
{
    assert(b.take(n) + b.skip(n) =~= b);
}

/// A cursor for reading the data of a DWARF section.
///
/// A reader is a view over an addressable byte range with an implicit
/// current position; `bytes()` is the sequence of bytes still in front of
/// the position. All read operations advance the position unless specified
/// otherwise. Operations never read beyond the range: asking for more bytes
/// than remain fails with [`Error::UnexpectedEof`] and, for the operations
/// below, leaves the cursor unchanged.
pub trait Reader: Sized {
    /// The bytes remaining in front of the cursor position.
    spec fn bytes(&self) -> Seq<u8>;

    /// The byte order with which multi-byte values are read.
    spec fn endianness(&self) -> Endianity;

    /// True when this cursor's range lies within `base`'s range, at
    /// `base`'s byte order, so that `offset_from` is meaningful.
    spec fn derived_from(&self, base: &Self) -> bool;

    /// The distance of this cursor's start from `base`'s start, meaningful
    /// only when this cursor is derived from `base`.
    spec fn spec_offset_from(&self, base: &Self) -> int;

    /// Return the endianity of bytes that are read.
    fn endian(&self) -> (r: Endianity)
        ensures
            r == self.endianness(),
    ;

    /// Return the number of bytes remaining.
    fn len(&self) -> (r: u64)
        ensures
            r as int == self.bytes().len(),
    ;

    /// Return a cursor equal to this one.
    ///
    /// Cursors are cheap to duplicate; reading through the duplicate does
    /// not disturb the original.
    fn clone_reader(&self) -> (r: Self)
        ensures
            r == *self,
    ;

    /// Set the number of bytes remaining to zero.
    fn empty(&mut self)
        ensures
            final(self).bytes() == Seq::<u8>::empty(),
            final(self).endianness() == old(self).endianness(),
    ;

    /// Shrink the remaining range to its first `len` bytes.
    fn truncate(&mut self, len: u64) -> (r: Result<(), Error>)
        ensures
            final(self).endianness() == old(self).endianness(),
            len <= old(self).bytes().len() ==> r == Ok::<(), Error>(()) && final(self).bytes()
                == old(self).bytes().take(len as int),
            len > old(self).bytes().len() ==> r == Err::<(), Error>(Error::UnexpectedEof) && *final(self) == *old(self),
    ;

    /// Return the offset of this reader's start from the start of the given
    /// base reader, of which it must be a sub-range.
    fn offset_from(&self, base: &Self) -> (r: u64)
        requires
            self.derived_from(base),
        ensures
            r == self.spec_offset_from(base),
            r + self.bytes().len() <= base.bytes().len(),
            self.bytes() == base.bytes().subrange(r as int, r + self.bytes().len()),
    ;

    /// Find the index of the first occurrence of the given byte in the
    /// remaining bytes. The position of the reader is not changed.
    fn find(&self, byte: u8) -> (r: Result<u64, Error>)
        ensures
            match spec_find(self.bytes(), byte) {
                Some(i) => i <= u64::MAX && r == Ok::<u64, Error>(i as u64),
                None => r == Err::<u64, Error>(Error::UnexpectedEof),
            },
    ;

    /// Discard the first `len` remaining bytes.
    fn skip(&mut self, len: u64) -> (r: Result<(), Error>)
        ensures
            final(self).endianness() == old(self).endianness(),
            len <= old(self).bytes().len() ==> r == Ok::<(), Error>(()) && final(self).bytes() == old(self).bytes().skip(len as int),
            len > old(self).bytes().len() ==> r == Err::<(), Error>(Error::UnexpectedEof) && *final(self) == *old(self),
    ;

    /// Split the reader in two.
    ///
    /// A new reader is returned that covers the next `len` bytes, and `self`
    /// is advanced so that it reads the remainder.
    fn split(&mut self, len: u64) -> (r: Result<Self, Error>)
        ensures
            final(self).endianness() == old(self).endianness(),
            len > old(self).bytes().len() ==> r == Err::<Self, Error>(Error::UnexpectedEof)
                && *final(self) == *old(self),
            len <= old(self).bytes().len() ==> r is Ok && (r matches Ok(head) ==> head.bytes()
                == old(self).bytes().take(len as int) && head.endianness() == old(
                self,
            ).endianness() && final(self).bytes() == old(self).bytes().skip(len as int)),
    ;

    /// Read a byte.
    fn read_u8(&mut self) -> (r: Result<u8, Error>)
        ensures
            final(self).endianness() == old(self).endianness(),
            old(self).bytes().len() >= 1 ==> r == Ok::<u8, Error>(old(self).bytes()[0])
                && final(self).bytes() == old(self).bytes().skip(1),
            old(self).bytes().len() < 1 ==> r == Err::<u8, Error>(Error::UnexpectedEof) && *final(self) == *old(self),
    ;

    /// Read a `u16`.
    fn read_u16(&mut self) -> (r: Result<u16, Error>)
        ensures
            final(self).endianness() == old(self).endianness(),
            old(self).bytes().len() >= 2 ==> r == Ok::<u16, Error>(
                spec_u16(old(self).endianness(), old(self).bytes().take(2)),
            ) && final(self).bytes() == old(self).bytes().skip(2),
            old(self).bytes().len() < 2 ==> r == Err::<u16, Error>(Error::UnexpectedEof) && *final(self) == *old(self),
    ;

    /// Read a `u32`.
    fn read_u32(&mut self) -> (r: Result<u32, Error>)
        ensures
            final(self).endianness() == old(self).endianness(),
            old(self).bytes().len() >= 4 ==> r == Ok::<u32, Error>(
                spec_u32(old(self).endianness(), old(self).bytes().take(4)),
            ) && final(self).bytes() == old(self).bytes().skip(4),
            old(self).bytes().len() < 4 ==> r == Err::<u32, Error>(Error::UnexpectedEof) && *final(self) == *old(self),
    ;

    /// Read a `u64`.
    fn read_u64(&mut self) -> (r: Result<u64, Error>)
        ensures
            final(self).endianness() == old(self).endianness(),
            old(self).bytes().len() >= 8 ==> r == Ok::<u64, Error>(
                spec_u64(old(self).endianness(), old(self).bytes().take(8)),
            ) && final(self).bytes() == old(self).bytes().skip(8),
            old(self).bytes().len() < 8 ==> r == Err::<u64, Error>(Error::UnexpectedEof) && *final(self) == *old(self),
    ;

    /// Return true if the number of bytes remaining is zero.
    #[inline]
    fn is_empty(&self) -> (r: bool)
        ensures
            r == (self.bytes().len() == 0),
    {
        self.len() == 0
    }

    /// Read an `i8`.
    fn read_i8(&mut self) -> (r: Result<i8, Error>)
        ensures
            final(self).endianness() == old(self).endianness(),
            old(self).bytes().len() >= 1 ==> r == Ok::<i8, Error>(spec_as_i8(old(self).bytes()[0]))
                && final(self).bytes() == old(self).bytes().skip(1),
            old(self).bytes().len() < 1 ==> r == Err::<i8, Error>(Error::UnexpectedEof) && *final(self) == *old(self),
    {
        match self.read_u8() {
            Ok(v) => Ok(as_i8(v)),
            Err(e) => Err(e),
        }
    }

    /// Read an `i16`.
    fn read_i16(&mut self) -> (r: Result<i16, Error>)
        ensures
            final(self).endianness() == old(self).endianness(),
            old(self).bytes().len() >= 2 ==> r == Ok::<i16, Error>(
                spec_as_i16(spec_u16(old(self).endianness(), old(self).bytes().take(2))),
            ) && final(self).bytes() == old(self).bytes().skip(2),
            old(self).bytes().len() < 2 ==> r == Err::<i16, Error>(Error::UnexpectedEof) && *final(self) == *old(self),
    {
        match self.read_u16() {
            Ok(v) => Ok(as_i16(v)),
            Err(e) => Err(e),
        }
    }

    /// Read an `i32`.
    fn read_i32(&mut self) -> (r: Result<i32, Error>)
        ensures
            final(self).endianness() == old(self).endianness(),
            old(self).bytes().len() >= 4 ==> r == Ok::<i32, Error>(
                spec_as_i32(spec_u32(old(self).endianness(), old(self).bytes().take(4))),
            ) && final(self).bytes() == old(self).bytes().skip(4),
            old(self).bytes().len() < 4 ==> r == Err::<i32, Error>(Error::UnexpectedEof) && *final(self) == *old(self),
    {
        match self.read_u32() {
            Ok(v) => Ok(as_i32(v)),
            Err(e) => Err(e),
        }
    }

    /// Read an `i64`.
    fn read_i64(&mut self) -> (r: Result<i64, Error>)
        ensures
            final(self).endianness() == old(self).endianness(),
            old(self).bytes().len() >= 8 ==> r == Ok::<i64, Error>(
                spec_as_i64(spec_u64(old(self).endianness(), old(self).bytes().take(8))),
            ) && final(self).bytes() == old(self).bytes().skip(8),
            old(self).bytes().len() < 8 ==> r == Err::<i64, Error>(Error::UnexpectedEof) && *final(self) == *old(self),
    {
        match self.read_u64() {
            Ok(v) => Ok(as_i64(v)),
            Err(e) => Err(e),
        }
    }

    /// Read an address-sized integer, and return it as a `u64`.
    ///
    /// Address sizes other than 1, 2, 4 and 8 bytes are rejected with
    /// [`Error::UnsupportedAddressSize`].
    fn read_address(&mut self, address_size: u8) -> (r: Result<u64, Error>)
        ensures
            final(self).endianness() == old(self).endianness(),
            (address_size == 1 || address_size == 2 || address_size == 4 || address_size == 8)
                ==> ({
                &&& old(self).bytes().len() >= address_size ==> r == Ok::<u64, Error>(
                    spec_zero_extended(
                        old(self).endianness(),
                        old(self).bytes().take(address_size as int),
                        address_size,
                    ),
                ) && final(self).bytes() == old(self).bytes().skip(address_size as int)
                &&& old(self).bytes().len() < address_size ==> r == Err::<u64, Error>(
                    Error::UnexpectedEof,
                ) && *final(self) == *old(self)
            }),
            !(address_size == 1 || address_size == 2 || address_size == 4 || address_size == 8)
                ==> r == Err::<u64, Error>(Error::UnsupportedAddressSize(address_size)) && *final(self) == *old(self),
    {
        match address_size {
            1 => match self.read_u8() {
                Ok(v) => Ok(v as u64),
                Err(e) => Err(e),
            },
            2 => match self.read_u16() {
                Ok(v) => Ok(v as u64),
                Err(e) => Err(e),
            },
            4 => match self.read_u32() {
                Ok(v) => Ok(v as u64),
                Err(e) => Err(e),
            },
            8 => self.read_u64(),
            otherwise => Err(Error::UnsupportedAddressSize(otherwise)),
        }
    }

    /// Parse a word-sized integer according to the DWARF format.
    ///
    /// These are always used to encode section offsets or lengths.
    fn read_word(&mut self, format: Format) -> (r: Result<u64, Error>)
        ensures
            final(self).endianness() == old(self).endianness(),
            ({
                let n: int = if format == Format::Dwarf32 {
                    4
                } else {
                    8
                };
                &&& old(self).bytes().len() >= n ==> r == Ok::<u64, Error>(
                    spec_zero_extended(
                        old(self).endianness(),
                        old(self).bytes().take(n),
                        n as u8,
                    ),
                ) && final(self).bytes() == old(self).bytes().skip(n)
                &&& old(self).bytes().len() < n ==> r == Err::<u64, Error>(Error::UnexpectedEof)
                    && *final(self) == *old(self)
            }),
    {
        match format {
            Format::Dwarf32 => match self.read_u32() {
                Ok(v) => Ok(v as u64),
                Err(e) => Err(e),
            },
            Format::Dwarf64 => self.read_u64(),
        }
    }

    /// Parse a word-sized section length according to the DWARF format.
    #[inline]
    fn read_length(&mut self, format: Format) -> (r: Result<u64, Error>)
        ensures
            final(self).endianness() == old(self).endianness(),
            ({
                let n: int = if format == Format::Dwarf32 {
                    4
                } else {
                    8
                };
                &&& old(self).bytes().len() >= n ==> r == Ok::<u64, Error>(
                    spec_zero_extended(
                        old(self).endianness(),
                        old(self).bytes().take(n),
                        n as u8,
                    ),
                ) && final(self).bytes() == old(self).bytes().skip(n)
                &&& old(self).bytes().len() < n ==> r == Err::<u64, Error>(Error::UnexpectedEof)
                    && *final(self) == *old(self)
            }),
    {
        self.read_word(format)
    }

    /// Parse a word-sized section offset according to the DWARF format.
    #[inline]
    fn read_offset(&mut self, format: Format) -> (r: Result<u64, Error>)
        ensures
            final(self).endianness() == old(self).endianness(),
            ({
                let n: int = if format == Format::Dwarf32 {
                    4
                } else {
                    8
                };
                &&& old(self).bytes().len() >= n ==> r == Ok::<u64, Error>(
                    spec_zero_extended(
                        old(self).endianness(),
                        old(self).bytes().take(n),
                        n as u8,
                    ),
                ) && final(self).bytes() == old(self).bytes().skip(n)
                &&& old(self).bytes().len() < n ==> r == Err::<u64, Error>(Error::UnexpectedEof)
                    && *final(self) == *old(self)
            }),
    {
        self.read_word(format)
    }

    /// Parse a section offset of the given size.
    ///
    /// This is used for `DW_FORM_ref_addr` values in DWARF version 2.
    fn read_sized_offset(&mut self, size: u8) -> (r: Result<u64, Error>)
        ensures
            final(self).endianness() == old(self).endianness(),
            (size == 1 || size == 2 || size == 4 || size == 8) ==> ({
                &&& old(self).bytes().len() >= size ==> r == Ok::<u64, Error>(
                    spec_zero_extended(
                        old(self).endianness(),
                        old(self).bytes().take(size as int),
                        size,
                    ),
                ) && final(self).bytes() == old(self).bytes().skip(size as int)
                &&& old(self).bytes().len() < size ==> r == Err::<u64, Error>(
                    Error::UnexpectedEof,
                ) && *final(self) == *old(self)
            }),
            !(size == 1 || size == 2 || size == 4 || size == 8) ==> r == Err::<u64, Error>(
                Error::UnsupportedOffsetSize(size),
            ) && *final(self) == *old(self),
    {
        match size {
            1 => match self.read_u8() {
                Ok(v) => Ok(v as u64),
                Err(e) => Err(e),
            },
            2 => match self.read_u16() {
                Ok(v) => Ok(v as u64),
                Err(e) => Err(e),
            },
            4 => match self.read_u32() {
                Ok(v) => Ok(v as u64),
                Err(e) => Err(e),
            },
            8 => self.read_u64(),
            otherwise => Err(Error::UnsupportedOffsetSize(otherwise)),
        }
    }

    /// Read an initial length field.
    ///
    /// This field is encoded as either a 32-bit length, or a 32-bit sentinel
    /// followed by a 64-bit length; the returned [`Format`] says which. The
    /// reserved sentinels between the two are rejected with
    /// [`Error::UnknownReservedLength`].
    fn read_initial_length(&mut self) -> (r: Result<(u64, Format), Error>)
        ensures
            final(self).endianness() == old(self).endianness(),
            old(self).bytes().len() < 4 ==> r == Err::<(u64, Format), Error>(Error::UnexpectedEof)
                && *final(self) == *old(self),
            old(self).bytes().len() >= 4 ==> ({
                let v = spec_u32(old(self).endianness(), old(self).bytes().take(4));
                &&& v < 0xffff_fff0 ==> r == Ok::<(u64, Format), Error>(
                    (v as u64, Format::Dwarf32),
                ) && final(self).bytes() == old(self).bytes().skip(4)
                &&& (0xffff_fff0 <= v && v < 0xffff_ffff) ==> r == Err::<(u64, Format), Error>(
                    Error::UnknownReservedLength,
                ) && final(self).bytes() == old(self).bytes().skip(4)
                &&& v == 0xffff_ffff ==> ({
                    &&& old(self).bytes().len() < 12 ==> r == Err::<(u64, Format), Error>(
                        Error::UnexpectedEof,
                    ) && final(self).bytes() == old(self).bytes().skip(4)
                    &&& old(self).bytes().len() >= 12 ==> r == Ok::<(u64, Format), Error>(
                        (
                            spec_u64(old(self).endianness(), old(self).bytes().subrange(4, 12)),
                            Format::Dwarf64,
                        ),
                    ) && final(self).bytes() == old(self).bytes().skip(12)
                })
            }),
    {
        let ghost pre = *self;
        let val = match self.read_u32() {
            Ok(v) => v,
            Err(e) => {
                return Err(e);
            },
        };
        if val < 0xffff_fff0 {
            Ok((val as u64, Format::Dwarf32))
        } else if val == 0xffff_ffff {
            match self.read_u64() {
                Ok(val64) => {
                    proof {
                        assert(pre.bytes().skip(4).take(8) =~= pre.bytes().subrange(4, 12));
                        assert(pre.bytes().skip(4).skip(8) =~= pre.bytes().skip(12));
                    }
                    Ok((val64, Format::Dwarf64))
                },
                Err(e) => Err(e),
            }
        } else {
            Err(Error::UnknownReservedLength)
        }
    }

    /// Read a null-terminated slice, and return it (excluding the null).
    fn read_null_terminated_slice(&mut self) -> (r: Result<Self, Error>)
        ensures
            final(self).endianness() == old(self).endianness(),
            match spec_find(old(self).bytes(), 0) {
                Some(i) => r is Ok && (r matches Ok(v) ==> v.bytes() == old(self).bytes().take(i)
                    && v.endianness() == old(self).endianness()) && final(self).bytes() == old(
                    self,
                ).bytes().skip(i + 1),
                None => r == Err::<Self, Error>(Error::UnexpectedEof) && *final(self) == *old(
                    self,
                ),
            },
    {
        let ghost pre = *self;
        proof {
            lemma_spec_find(pre.bytes(), 0);
        }
        let idx = match self.find(0) {
            Ok(i) => i,
            Err(e) => {
                return Err(e);
            },
        };
        let val = match self.split(idx) {
            Ok(v) => v,
            Err(e) => {
                return Err(e);
            },
        };
        match self.skip(1) {
            Ok(_) => {
                proof {
                    assert(pre.bytes().skip(idx as int).skip(1) =~= pre.bytes().skip(
                        idx as int + 1,
                    ));
                }
                Ok(val)
            },
            Err(e) => Err(e),
        }
    }
}

} // verus!
