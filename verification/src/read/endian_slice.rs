//! Working with byte slices that have an associated endianity.

use vstd::prelude::*;

verus! {

use vstd::slice::slice_subrange;
use crate::endianity::Endianity;
use crate::read::Error;
use crate::read::reader::Reader;
use crate::read::reader::spec_find;
use crate::read::reader::lemma_spec_find;
use crate::read::reader::lemma_spec_find_complete;

/// A name for what `String::from_utf8_lossy` returns: the characters of the
/// given bytes with every invalid sequence replaced by the replacement
/// character. The result is a function of the bytes alone.
pub uninterp spec fn utf8_lossy(bytes: Seq<u8>) -> Seq<char>;

/// Relies on `core::str::from_utf8`: it succeeds exactly on valid UTF-8,
/// and then returns the string whose bytes are the input.
#[verifier::external_body]
pub(crate) fn str_from_utf8<'a>(b: &'a [u8]) -> (r: Result<&'a str, Error>)
    ensures
        match r {
            Ok(s) => vstd::utf8::valid_utf8(b@) && s@ == vstd::utf8::decode_utf8(b@),
            Err(e) => !vstd::utf8::valid_utf8(b@) && e == Error::BadUtf8,
        },
{
    match core::str::from_utf8(b) {
        Ok(s) => Ok(s),
        Err(_) => Err(Error::BadUtf8),
    }
}

/// Relies on `String::from_utf8_lossy`: the result depends on the bytes
/// alone, and valid UTF-8 comes back unchanged.
#[verifier::external_body]
pub(crate) fn utf8_lossy_string(b: &[u8]) -> (r: String)
    ensures
        r@ == utf8_lossy(b@),
        vstd::utf8::valid_utf8(b@) ==> r@ == vstd::utf8::decode_utf8(b@),
{
    String::from_utf8_lossy(b).into_owned()
}

/// A `&[u8]` slice with endianity metadata.
///
/// This is the zero-copy backend of the [`Reader`] contract: the cursor
/// borrows the section's bytes, and narrowing operations (`skip`, `split`,
/// `truncate`, the range methods) only move the window's edges.
#[derive(Debug, Clone, Copy)]
pub struct EndianSlice<'input> {
    data: &'input [u8],
    start: usize,
    end: usize,
    endian: Endianity,
}

impl<'input> EndianSlice<'input> {
    #[verifier::type_invariant]
    spec fn type_inv(self) -> bool {
        self.start <= self.end <= self.data@.len()
    }

    /// Construct a new `EndianSlice` with the given slice and endianity.
    #[inline]
    pub fn new(slice: &'input [u8], endian: Endianity) -> (r: EndianSlice<'input>)
        ensures
            r.bytes() == slice@,
            r.endianness() == endian,
    {
        let r = EndianSlice { data: slice, start: 0, end: slice.len(), endian };
        proof {
            assert(r.bytes() =~= slice@);
        }
        r
    }

    /// Return a reference to the raw slice of remaining bytes.
    #[inline]
    pub fn slice(&self) -> (r: &'input [u8])
        ensures
            r@ == self.bytes(),
    {
        proof {
            use_type_invariant(self);
        }
        slice_subrange(self.data, self.start, self.end)
    }

    /// Return a reference to the raw slice of remaining bytes.
    ///
    /// An older name for [`EndianSlice::slice`], kept for callers that still
    /// use it.
    #[inline]
    pub fn buf(&self) -> (r: &'input [u8])
        ensures
            r@ == self.bytes(),
    {
        self.slice()
    }

    /// Split the slice in two at the given index, resulting in the tuple
    /// where the first item has range [0, idx), and the second has range
    /// [idx, len).
    #[inline]
    pub fn split_at(&self, idx: usize) -> (r: (EndianSlice<'input>, EndianSlice<'input>))
        requires
            idx <= self.bytes().len(),
        ensures
            r.0.bytes() == self.bytes().take(idx as int),
            r.0.endianness() == self.endianness(),
            r.1.bytes() == self.bytes().skip(idx as int),
            r.1.endianness() == self.endianness(),
    {
        (self.range_to(idx), self.range_from(idx))
    }

    /// Find the first occurrence of a byte in the slice, and return its index.
    #[inline]
    pub fn find(&self, byte: u8) -> (r: Option<usize>)
        ensures
            r == match spec_find(self.bytes(), byte) {
                Some(i) => Some(i as usize),
                None => None::<usize>,
            },
    {
        proof {
            use_type_invariant(self);
        }
        let s = self.slice();
        let mut i: usize = 0;
        while i < s.len()
            invariant
                s@ == self.bytes(),
                i <= s@.len(),
                forall|j: int| 0 <= j < i ==> s@[j] != byte,
            decreases s@.len() - i,
        {
            if s[i] == byte {
                proof {
                    lemma_spec_find_complete(self.bytes(), byte, i as int);
                }
                return Some(i);
            }
            i = i + 1;
        }
        proof {
            lemma_spec_find(self.bytes(), byte);
        }
        None
    }

    /// Return the offset of the start of this slice relative to the start
    /// of the given slice, of which it must be a sub-range.
    #[inline]
    pub fn offset_from(&self, base: EndianSlice<'input>) -> (r: u64)
        requires
            self.derived_from(&base),
        ensures
            r == self.spec_offset_from(&base),
            r + self.bytes().len() <= base.bytes().len(),
            self.bytes() == base.bytes().subrange(r as int, r + self.bytes().len()),
    {
        proof {
            use_type_invariant(self);
            use_type_invariant(&base);
        }
        let r = self.start - base.start;
        proof {
            assert(self.bytes() =~= base.bytes().subrange(r as int, r + self.bytes().len()));
        }
        r as u64
    }

    /// Converts the remaining bytes to a string.
    ///
    /// Returns [`Error::BadUtf8`] exactly when the bytes are not valid UTF-8.
    #[inline]
    pub fn to_string(&self) -> (r: Result<&'input str, Error>)
        ensures
            match r {
                Ok(s) => vstd::utf8::valid_utf8(self.bytes()) && s@ == vstd::utf8::decode_utf8(
                    self.bytes(),
                ),
                Err(e) => !vstd::utf8::valid_utf8(self.bytes()) && e == Error::BadUtf8,
            },
    {
        str_from_utf8(self.slice())
    }

    /// Converts the remaining bytes to a string, replacing invalid
    /// sequences with the replacement character.
    #[inline]
    pub fn to_string_lossy(&self) -> (r: String)
        ensures
            r@ == utf8_lossy(self.bytes()),
            vstd::utf8::valid_utf8(self.bytes()) ==> r@ == vstd::utf8::decode_utf8(self.bytes()),
    {
        utf8_lossy_string(self.slice())
    }

    /// Consume the next `len` bytes and return them as a borrowed slice.
    #[inline]
    fn read_slice(&mut self, len: u64) -> (r: Result<&'input [u8], Error>)
        ensures
            final(self).endianness() == old(self).endianness(),
            len <= old(self).bytes().len() ==> r is Ok && (r matches Ok(s) ==> s@ == old(
                self,
            ).bytes().take(len as int)) && final(self).bytes() == old(self).bytes().skip(
                len as int,
            ),
            len > old(self).bytes().len() ==> r == Err::<&'input [u8], Error>(Error::UnexpectedEof)
                && *final(self) == *old(self),
    {
        proof {
            use_type_invariant(&*self);
        }
        let ghost pre = *self;
        let remaining = self.end - self.start;
        if (remaining as u64) < len {
            Err(Error::UnexpectedEof)
        } else {
            let n = len as usize;
            let s = slice_subrange(self.data, self.start, self.start + n);
            self.start = self.start + n;
            proof {
                assert(s@ =~= pre.bytes().take(n as int));
                assert(self.bytes() =~= pre.bytes().skip(n as int));
            }
            Ok(s)
        }
    }

    /// Take the range `start..end` of the underlying slice and return a
    /// new cursor over it.
    pub fn range(&self, start: usize, end: usize) -> (r: EndianSlice<'input>)
        requires
            start <= end <= self.bytes().len(),
        ensures
            r.bytes() == self.bytes().subrange(start as int, end as int),
            r.endianness() == self.endianness(),
    {
        proof {
            use_type_invariant(self);
        }
        let r = EndianSlice {
            data: self.data,
            start: self.start + start,
            end: self.start + end,
            endian: self.endian,
        };
        proof {
            assert(r.bytes() =~= self.bytes().subrange(start as int, end as int));
        }
        r
    }

    /// Take the range `start..` of the underlying slice and return a new
    /// cursor over it.
    pub fn range_from(&self, start: usize) -> (r: EndianSlice<'input>)
        requires
            start <= self.bytes().len(),
        ensures
            r.bytes() == self.bytes().skip(start as int),
            r.endianness() == self.endianness(),
    {
        proof {
            use_type_invariant(self);
        }
        let r = EndianSlice {
            data: self.data,
            start: self.start + start,
            end: self.end,
            endian: self.endian,
        };
        proof {
            assert(r.bytes() =~= self.bytes().skip(start as int));
        }
        r
    }

    /// Take the range `..end` of the underlying slice and return a new
    /// cursor over it.
    pub fn range_to(&self, end: usize) -> (r: EndianSlice<'input>)
        requires
            end <= self.bytes().len(),
        ensures
            r.bytes() == self.bytes().take(end as int),
            r.endianness() == self.endianness(),
    {
        proof {
            use_type_invariant(self);
        }
        let r = EndianSlice {
            data: self.data,
            start: self.start,
            end: self.start + end,
            endian: self.endian,
        };
        proof {
            assert(r.bytes() =~= self.bytes().take(end as int));
        }
        r
    }

    /// Return the remaining bytes; an alias of [`EndianSlice::slice`] in
    /// this backend, which can always borrow.
    #[inline]
    pub fn to_slice(&self) -> (r: &'input [u8])
        ensures
            r@ == self.bytes(),
    {
        self.slice()
    }
}

impl<'input> PartialEq for EndianSlice<'input> {
    /// Two cursors are equal when they see the same remaining bytes in the
    /// same byte order, wherever those bytes are stored.
    fn eq(&self, other: &Self) -> (r: bool) {
        proof {
            use_type_invariant(self);
            use_type_invariant(other);
        }
        if !(self.endian == other.endian) {
            return false;
        }
        let a = self.slice();
        let b = other.slice();
        if a.len() != b.len() {
            return false;
        }
        let mut i: usize = 0;
        while i < a.len()
            invariant
                a@ == self.bytes(),
                b@ == other.bytes(),
                a@.len() == b@.len(),
                i <= a@.len(),
                forall|j: int| 0 <= j < i ==> a@[j] == b@[j],
            decreases a@.len() - i,
        {
            if a[i] != b[i] {
                return false;
            }
            i = i + 1;
        }
        proof {
            assert(self.bytes() =~= other.bytes());
        }
        true
    }
}

impl<'input> vstd::std_specs::cmp::PartialEqSpecImpl for EndianSlice<'input> {
    open spec fn obeys_eq_spec() -> bool {
        true
    }

    open spec fn eq_spec(&self, other: &Self) -> bool {
        self.bytes() == other.bytes() && self.endianness() == other.endianness()
    }
}

impl<'input> Reader for EndianSlice<'input> {
    closed spec fn bytes(&self) -> Seq<u8> {
        self.data@.subrange(self.start as int, self.end as int)
    }

    closed spec fn endianness(&self) -> Endianity {
        self.endian
    }

    closed spec fn derived_from(&self, base: &Self) -> bool {
        &&& self.data == base.data
        &&& base.start <= self.start
        &&& self.end <= base.end
        &&& self.endian == base.endian
    }

    closed spec fn spec_offset_from(&self, base: &Self) -> int {
        self.start - base.start
    }

    #[inline]
    fn endian(&self) -> (r: Endianity) {
        self.endian
    }

    #[inline]
    fn len(&self) -> (r: u64) {
        proof {
            use_type_invariant(self);
        }
        (self.end - self.start) as u64
    }

    #[inline]
    fn clone_reader(&self) -> (r: Self) {
        *self
    }

    #[inline]
    fn empty(&mut self) {
        proof {
            use_type_invariant(&*self);
        }
        self.end = self.start;
        proof {
            assert(self.bytes() =~= Seq::<u8>::empty());
        }
    }

    #[inline]
    fn truncate(&mut self, len: u64) -> (r: Result<(), Error>) {
        proof {
            use_type_invariant(&*self);
        }
        let ghost pre = *self;
        let remaining = self.end - self.start;
        if (remaining as u64) < len {
            Err(Error::UnexpectedEof)
        } else {
            self.end = self.start + len as usize;
            proof {
                assert(self.bytes() =~= pre.bytes().take(len as int));
            }
            Ok(())
        }
    }

    #[inline]
    fn offset_from(&self, base: &Self) -> (r: u64) {
        self.offset_from(*base)
    }

    #[inline]
    fn find(&self, byte: u8) -> (r: Result<u64, Error>) {
        proof {
            use_type_invariant(self);
            lemma_spec_find(self.bytes(), byte);
        }
        match self.find(byte) {
            Some(i) => Ok(i as u64),
            None => Err(Error::UnexpectedEof),
        }
    }

    #[inline]
    fn skip(&mut self, len: u64) -> (r: Result<(), Error>) {
        proof {
            use_type_invariant(&*self);
        }
        let ghost pre = *self;
        let remaining = self.end - self.start;
        if (remaining as u64) < len {
            Err(Error::UnexpectedEof)
        } else {
            self.start = self.start + len as usize;
            proof {
                assert(self.bytes() =~= pre.bytes().skip(len as int));
            }
            Ok(())
        }
    }

    #[inline]
    fn split(&mut self, len: u64) -> (r: Result<Self, Error>) {
        match self.read_slice(len) {
            Ok(slice) => Ok(EndianSlice::new(slice, self.endian)),
            Err(e) => Err(e),
        }
    }

    #[inline]
    fn read_u8(&mut self) -> (r: Result<u8, Error>) {
        match self.read_slice(1) {
            Ok(s) => Ok(s[0]),
            Err(e) => Err(e),
        }
    }

    #[inline]
    fn read_u16(&mut self) -> (r: Result<u16, Error>) {
        match self.read_slice(2) {
            Ok(s) => Ok(self.endian.read_u16(s)),
            Err(e) => Err(e),
        }
    }

    #[inline]
    fn read_u32(&mut self) -> (r: Result<u32, Error>) {
        match self.read_slice(4) {
            Ok(s) => Ok(self.endian.read_u32(s)),
            Err(e) => Err(e),
        }
    }

    #[inline]
    fn read_u64(&mut self) -> (r: Result<u64, Error>) {
        match self.read_slice(8) {
            Ok(s) => Ok(self.endian.read_u64(s)),
            Err(e) => Err(e),
        }
    }
}

} // verus!
