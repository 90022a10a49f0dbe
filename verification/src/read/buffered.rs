//! A buffered random-access backend with a single bounded read-ahead
//! window shared by every cursor of one section.
//!
//! The window bounds memory to one fixed-size buffer however large the
//! section is. A request that lies in the window is served from it without
//! touching the store; a request at least as large as the window bypasses
//! it, so that large reads do not thrash the cache; any other request
//! refills the window at its offset. The bytes served are always exactly
//! the section's bytes at the requested range, whatever the window's
//! capacity: capacity changes cost, never results.

use vstd::prelude::*;

verus! {

use vstd::slice::slice_subrange;
use vstd::slice::slice_to_vec;
use crate::endianity::Endianity;
use crate::endianity::spec_u16;
use crate::endianity::spec_u32;
use crate::endianity::spec_u64;
use crate::read::Error;
use crate::read::endian_slice::str_from_utf8;
use crate::read::endian_slice::utf8_lossy_string;
use crate::read::endian_slice::utf8_lossy;
use crate::read::reader::spec_find;
use crate::read::reader::lemma_spec_find;
use crate::read::reader::lemma_spec_find_complete;

/// Where a section's raw bytes live in an underlying byte store.
#[derive(Debug, Clone, Copy, PartialEq, Eq, Structural)]
pub struct SectionRange {
    /// The store offset of the section's first byte.
    pub file_offset: u64,
    /// The section's size in bytes.
    pub file_size: u64,
}

/// True when the `len` bytes at `file_offset` lie inside the section.
pub open spec fn spec_in_section(range: SectionRange, file_offset: u64, len: int) -> bool {
    range.file_offset <= file_offset && file_offset + len <= range.file_offset + range.file_size
}

/// The bytes that a request for `len` bytes at `file_offset` must be
/// served with: a function of the store's contents and the request alone.
pub open spec fn spec_read_result(source: Seq<u8>, file_offset: u64, len: int) -> Seq<u8> {
    source.subrange(file_offset as int, file_offset + len)
}

/// Every in-range request is served with bytes that depend only on the
/// store and the request, so two buffered sections over the same store
/// serve identical bytes whatever their window capacities.
pub proof fn lemma_backend_equivalence(
    source: Seq<u8>,
    file_offset: u64,
    len: int,
    small_window_result: Seq<u8>,
    large_window_result: Seq<u8>,
)
    requires
        small_window_result == spec_read_result(source, file_offset, len),
        large_window_result == spec_read_result(source, file_offset, len),
    ensures
        small_window_result == large_window_result,
{
}

/// A section of an in-memory byte store, read through one bounded,
/// mutated-in-place window.
///
/// The window is the only mutable state of the buffered backend, and it is
/// owned by the section handle: cursors do not carry it, they are handed an
/// exclusive borrow of it for the duration of one read, which makes a
/// second in-flight read through the same window impossible by
/// construction.
#[derive(Debug)]
pub struct SectionBuffer {
    source: Vec<u8>,
    range: SectionRange,
    window: Vec<u8>,
    window_start: u64,
    capacity: usize,
}

impl SectionBuffer {
    #[verifier::type_invariant]
    spec fn type_inv(self) -> bool {
        &&& self.range.file_offset + self.range.file_size <= self.source@.len()
        &&& 1 <= self.capacity
        &&& self.window@.len() <= self.capacity
        &&& self.range.file_offset <= self.window_start
        &&& self.window_start + self.window@.len() <= self.range.file_offset
            + self.range.file_size
        &&& self.window@ == self.source@.subrange(
            self.window_start as int,
            self.window_start + self.window@.len(),
        )
    }

    /// The full contents of the underlying byte store.
    pub closed spec fn spec_source(&self) -> Seq<u8> {
        self.source@
    }

    /// Where the section lives in the store.
    pub closed spec fn spec_range(&self) -> SectionRange {
        self.range
    }

    /// The window's fixed capacity in bytes.
    pub closed spec fn spec_capacity(&self) -> int {
        self.capacity as int
    }

    /// Create a section over `source` at the given range, reading through
    /// a window of `capacity` bytes. The range must lie inside the store.
    pub fn new(source: Vec<u8>, range: SectionRange, capacity: usize) -> (r: Result<
        SectionBuffer,
        Error,
    >)
        requires
            capacity >= 1,
        ensures
            match r {
                Ok(buffer) => {
                    &&& range.file_offset + range.file_size <= source@.len()
                    &&& buffer.spec_source() == source@
                    &&& buffer.spec_range() == range
                    &&& buffer.spec_capacity() == capacity
                },
                Err(e) => e == Error::Io && range.file_offset + range.file_size > source@.len(),
            },
    {
        if range.file_size > source.len() as u64 || range.file_offset > source.len() as u64
            - range.file_size {
            return Err(Error::Io);
        }
        let window: Vec<u8> = Vec::new();
        let window_start = range.file_offset;
        proof {
            assert(window@ =~= source@.subrange(window_start as int, window_start + window@.len()));
        }
        Ok(SectionBuffer { source, range, window, window_start, capacity })
    }

    /// The store's total length.
    fn source_len(&self) -> (r: usize)
        ensures
            r == self.spec_source().len(),
    {
        self.source.len()
    }

    /// A cursor over the whole section, reading in the given byte order.
    pub fn reader(&self, endian: Endianity) -> (r: SectionReader)
        ensures
            r.spec_start() == self.spec_range().file_offset,
            r.spec_size() == self.spec_range().file_size,
            r.endianness() == endian,
    {
        proof {
            use_type_invariant(self);
        }
        let _source_len = self.source.len();
        SectionReader {
            range_start: self.range.file_offset,
            range_size: self.range.file_size,
            endian,
        }
    }

    /// Serve `len` bytes at store offset `file_offset`.
    ///
    /// A request outside the section's declared range fails with
    /// [`Error::Io`]; every request inside it succeeds with exactly the
    /// store's bytes at that range, whatever the window held before.
    pub fn read_bytes_at(&mut self, file_offset: u64, len: usize) -> (r: Result<Vec<u8>, Error>)
        ensures
            final(self).spec_source() == old(self).spec_source(),
            final(self).spec_range() == old(self).spec_range(),
            final(self).spec_capacity() == old(self).spec_capacity(),
            spec_in_section(old(self).spec_range(), file_offset, len as int) ==> r is Ok && (
            r matches Ok(v) ==> v@ == spec_read_result(
                old(self).spec_source(),
                file_offset,
                len as int,
            )),
            !spec_in_section(old(self).spec_range(), file_offset, len as int) ==> r == Err::<
                Vec<u8>,
                Error,
            >(Error::Io),
    {
        proof {
            use_type_invariant(&*self);
        }
        let ghost pre = *self;
        // Fast path: the request lies entirely inside the current window.
        if file_offset >= self.window_start {
            let delta = file_offset - self.window_start;
            if delta <= self.window.len() as u64 {
                let delta_usize = delta as usize;
                if len <= self.window.len() - delta_usize {
                    let out = slice_to_vec(
                        slice_subrange(self.window.as_slice(), delta_usize, delta_usize + len),
                    );
                    proof {
                        assert(out@ =~= spec_read_result(pre.spec_source(), file_offset, len as int));
                    }
                    return Ok(out);
                }
            }
        }
        // The request must lie inside the section's declared range.
        if file_offset < self.range.file_offset {
            return Err(Error::Io);
        }
        let section_offset = file_offset - self.range.file_offset;
        if section_offset > self.range.file_size {
            return Err(Error::Io);
        }
        let remaining = self.range.file_size - section_offset;
        if (len as u64) > remaining {
            return Err(Error::Io);
        }
        let source_len = self.source.len();
        let start = file_offset as usize;
        // Requests at least as large as the window bypass it, so that a
        // large read does not evict a useful window.
        if len >= self.capacity {
            let out = slice_to_vec(slice_subrange(self.source.as_slice(), start, start + len));
            proof {
                assert(out@ =~= spec_read_result(pre.spec_source(), file_offset, len as int));
            }
            return Ok(out);
        }
        // Refill: load a fresh window starting at the request, clipped to
        // the section's remaining size, and serve the request from the
        // window's start.
        let read_size = if (self.capacity as u64) <= remaining {
            self.capacity
        } else {
            remaining as usize
        };
        proof {
            assert(Seq::<u8>::empty() =~= self.source@.subrange(
                self.window_start as int,
                self.window_start as int,
            ));
            assert(Seq::<u8>::empty() =~= self.source@.subrange(
                file_offset as int,
                file_offset as int,
            ));
        }
        self.window = Vec::new();
        self.window_start = file_offset;
        self.window = slice_to_vec(
            slice_subrange(self.source.as_slice(), start, start + read_size),
        );
        let out = slice_to_vec(slice_subrange(self.window.as_slice(), 0, len));
        proof {
            assert(out@ =~= spec_read_result(pre.spec_source(), file_offset, len as int));
        }
        Ok(out)
    }
}

/// A cursor over a buffered section: an absolute store offset, a remaining
/// length and a byte order.
///
/// Cursors are small and freely copied; the shared window stays with the
/// [`SectionBuffer`], which each reading operation borrows exclusively.
#[derive(Debug, Clone, Copy)]
pub struct SectionReader {
    range_start: u64,
    range_size: u64,
    endian: Endianity,
}

impl SectionReader {
    #[verifier::type_invariant]
    spec fn type_inv(self) -> bool {
        self.range_start + self.range_size <= u64::MAX
    }

    /// The store offset of the cursor's position.
    pub closed spec fn spec_start(&self) -> u64 {
        self.range_start
    }

    /// The number of bytes remaining in front of the position.
    pub closed spec fn spec_size(&self) -> u64 {
        self.range_size
    }

    /// The byte order with which multi-byte values are read.
    pub closed spec fn endianness(&self) -> Endianity {
        self.endian
    }

    /// The cursor's remaining bytes, as they stand in `buffer`'s store.
    pub open spec fn bytes_in(&self, buffer: &SectionBuffer) -> Seq<u8> {
        buffer.spec_source().subrange(
            self.spec_start() as int,
            self.spec_start() + self.spec_size(),
        )
    }

    /// True when the cursor's range lies inside `buffer`'s section.
    pub open spec fn contained_in(&self, buffer: &SectionBuffer) -> bool {
        spec_in_section(buffer.spec_range(), self.spec_start(), self.spec_size() as int)
    }

    /// Return the endianity of bytes that are read.
    pub fn endian(&self) -> (r: Endianity)
        ensures
            r == self.endianness(),
    {
        self.endian
    }

    /// Return the number of bytes remaining.
    pub fn len(&self) -> (r: u64)
        ensures
            r == self.spec_size(),
    {
        self.range_size
    }

    /// Return true if the number of bytes remaining is zero.
    pub fn is_empty(&self) -> (r: bool)
        ensures
            r == (self.spec_size() == 0),
    {
        self.range_size == 0
    }

    /// Set the number of bytes remaining to zero.
    pub fn empty(&mut self)
        ensures
            final(self).spec_start() == old(self).spec_start(),
            final(self).spec_size() == 0,
            final(self).endianness() == old(self).endianness(),
    {
        proof {
            use_type_invariant(&*self);
        }
        self.range_size = 0;
    }

    /// Shrink the remaining range to its first `len` bytes.
    pub fn truncate(&mut self, len: u64) -> (r: Result<(), Error>)
        ensures
            final(self).spec_start() == old(self).spec_start(),
            final(self).endianness() == old(self).endianness(),
            len <= old(self).spec_size() ==> r == Ok::<(), Error>(()) && final(self).spec_size()
                == len,
            len > old(self).spec_size() ==> r == Err::<(), Error>(Error::UnexpectedEof) && *final(self) == *old(self),
    {
        proof {
            use_type_invariant(&*self);
        }
        if self.range_size < len {
            Err(Error::UnexpectedEof)
        } else {
            self.range_size = len;
            Ok(())
        }
    }

    /// Discard the first `len` remaining bytes.
    pub fn skip(&mut self, len: u64) -> (r: Result<(), Error>)
        ensures
            final(self).endianness() == old(self).endianness(),
            len <= old(self).spec_size() ==> r == Ok::<(), Error>(()) && final(self).spec_start()
                == old(self).spec_start() + len && final(self).spec_size() == old(self).spec_size()
                - len,
            len > old(self).spec_size() ==> r == Err::<(), Error>(Error::UnexpectedEof) && *final(self) == *old(self),
    {
        proof {
            use_type_invariant(&*self);
        }
        if self.range_size < len {
            Err(Error::UnexpectedEof)
        } else {
            self.range_size = self.range_size - len;
            self.range_start = self.range_start + len;
            Ok(())
        }
    }

    /// Split the cursor in two.
    ///
    /// A new cursor is returned that covers the next `len` bytes, and
    /// `self` is advanced so that it reads the remainder. No bytes move:
    /// both cursors keep reading through the shared window.
    pub fn split(&mut self, len: u64) -> (r: Result<SectionReader, Error>)
        ensures
            final(self).endianness() == old(self).endianness(),
            len > old(self).spec_size() ==> r == Err::<SectionReader, Error>(Error::UnexpectedEof)
                && *final(self) == *old(self),
            len <= old(self).spec_size() ==> r is Ok && (r matches Ok(head) ==> head.spec_start()
                == old(self).spec_start() && head.spec_size() == len && head.endianness() == old(
                self,
            ).endianness() && final(self).spec_start() == old(self).spec_start() + len && final(self).spec_size() == old(self).spec_size() - len),
    {
        proof {
            use_type_invariant(&*self);
        }
        if self.range_size < len {
            return Err(Error::UnexpectedEof);
        }
        let head = SectionReader {
            range_start: self.range_start,
            range_size: len,
            endian: self.endian,
        };
        self.range_size = self.range_size - len;
        self.range_start = self.range_start + len;
        Ok(head)
    }

    /// Return the offset of this cursor's start from the start of the
    /// given base cursor, of which it must be a sub-range.
    pub fn offset_from(&self, base: &SectionReader) -> (r: u64)
        requires
            base.spec_start() <= self.spec_start(),
            self.spec_start() + self.spec_size() <= base.spec_start() + base.spec_size(),
        ensures
            r == self.spec_start() - base.spec_start(),
    {
        self.range_start - base.range_start
    }

    /// Consume the next `len` bytes and return them as a fresh vector.
    pub fn read_slice(&mut self, buffer: &mut SectionBuffer, len: usize) -> (r: Result<
        Vec<u8>,
        Error,
    >)
        requires
            old(self).contained_in(old(buffer)),
        ensures
            final(buffer).spec_source() == old(buffer).spec_source(),
            final(buffer).spec_range() == old(buffer).spec_range(),
            final(buffer).spec_capacity() == old(buffer).spec_capacity(),
            final(self).endianness() == old(self).endianness(),
            final(self).contained_in(old(buffer)),
            old(self).bytes_in(old(buffer)).len() == old(self).spec_size(),
            len <= old(self).spec_size() ==> r is Ok && (r matches Ok(v) ==> v@ == old(
                self,
            ).bytes_in(old(buffer)).take(len as int) && v@.len() == len) && final(self).spec_start()
                == old(self).spec_start() + len && final(self).spec_size() == old(self).spec_size()
                - len,
            len > old(self).spec_size() ==> r == Err::<Vec<u8>, Error>(Error::UnexpectedEof)
                && *final(self) == *old(self),
    {
        proof {
            use_type_invariant(&*self);
            use_type_invariant(&*buffer);
        }
        let ghost pre = *self;
        if (len as u64) > self.range_size {
            return Err(Error::UnexpectedEof);
        }
        match buffer.read_bytes_at(self.range_start, len) {
            Ok(v) => {
                self.range_size = self.range_size - len as u64;
                self.range_start = self.range_start + len as u64;
                proof {
                    assert(v@ =~= pre.bytes_in(old(buffer)).take(len as int));
                }
                Ok(v)
            },
            Err(e) => Err(e),
        }
    }

    /// Read a byte.
    pub fn read_u8(&mut self, buffer: &mut SectionBuffer) -> (r: Result<u8, Error>)
        requires
            old(self).contained_in(old(buffer)),
        ensures
            final(buffer).spec_source() == old(buffer).spec_source(),
            final(buffer).spec_range() == old(buffer).spec_range(),
            final(buffer).spec_capacity() == old(buffer).spec_capacity(),
            final(self).endianness() == old(self).endianness(),
            final(self).contained_in(old(buffer)),
            old(self).spec_size() >= 1 ==> r == Ok::<u8, Error>(
                old(self).bytes_in(old(buffer))[0],
            ) && final(self).spec_start() == old(self).spec_start() + 1 && final(self).spec_size()
                == old(self).spec_size() - 1,
            old(self).spec_size() < 1 ==> r == Err::<u8, Error>(Error::UnexpectedEof) && *final(self) == *old(self),
    {
        match self.read_slice(buffer, 1) {
            Ok(v) => Ok(v[0]),
            Err(e) => Err(e),
        }
    }

    /// Read a `u16`.
    pub fn read_u16(&mut self, buffer: &mut SectionBuffer) -> (r: Result<u16, Error>)
        requires
            old(self).contained_in(old(buffer)),
        ensures
            final(buffer).spec_source() == old(buffer).spec_source(),
            final(buffer).spec_range() == old(buffer).spec_range(),
            final(buffer).spec_capacity() == old(buffer).spec_capacity(),
            final(self).endianness() == old(self).endianness(),
            final(self).contained_in(old(buffer)),
            old(self).spec_size() >= 2 ==> r == Ok::<u16, Error>(
                spec_u16(old(self).endianness(), old(self).bytes_in(old(buffer)).take(2)),
            ) && final(self).spec_start() == old(self).spec_start() + 2 && final(self).spec_size()
                == old(self).spec_size() - 2,
            old(self).spec_size() < 2 ==> r == Err::<u16, Error>(Error::UnexpectedEof) && *final(self) == *old(self),
    {
        let endian = self.endian;
        match self.read_slice(buffer, 2) {
            Ok(v) => Ok(endian.read_u16(v.as_slice())),
            Err(e) => Err(e),
        }
    }

    /// Read a `u32`.
    pub fn read_u32(&mut self, buffer: &mut SectionBuffer) -> (r: Result<u32, Error>)
        requires
            old(self).contained_in(old(buffer)),
        ensures
            final(buffer).spec_source() == old(buffer).spec_source(),
            final(buffer).spec_range() == old(buffer).spec_range(),
            final(buffer).spec_capacity() == old(buffer).spec_capacity(),
            final(self).endianness() == old(self).endianness(),
            final(self).contained_in(old(buffer)),
            old(self).spec_size() >= 4 ==> r == Ok::<u32, Error>(
                spec_u32(old(self).endianness(), old(self).bytes_in(old(buffer)).take(4)),
            ) && final(self).spec_start() == old(self).spec_start() + 4 && final(self).spec_size()
                == old(self).spec_size() - 4,
            old(self).spec_size() < 4 ==> r == Err::<u32, Error>(Error::UnexpectedEof) && *final(self) == *old(self),
    {
        let endian = self.endian;
        match self.read_slice(buffer, 4) {
            Ok(v) => Ok(endian.read_u32(v.as_slice())),
            Err(e) => Err(e),
        }
    }

    /// Read a `u64`.
    pub fn read_u64(&mut self, buffer: &mut SectionBuffer) -> (r: Result<u64, Error>)
        requires
            old(self).contained_in(old(buffer)),
        ensures
            final(buffer).spec_source() == old(buffer).spec_source(),
            final(buffer).spec_range() == old(buffer).spec_range(),
            final(buffer).spec_capacity() == old(buffer).spec_capacity(),
            final(self).endianness() == old(self).endianness(),
            final(self).contained_in(old(buffer)),
            old(self).spec_size() >= 8 ==> r == Ok::<u64, Error>(
                spec_u64(old(self).endianness(), old(self).bytes_in(old(buffer)).take(8)),
            ) && final(self).spec_start() == old(self).spec_start() + 8 && final(self).spec_size()
                == old(self).spec_size() - 8,
            old(self).spec_size() < 8 ==> r == Err::<u64, Error>(Error::UnexpectedEof) && *final(self) == *old(self),
    {
        let endian = self.endian;
        match self.read_slice(buffer, 8) {
            Ok(v) => Ok(endian.read_u64(v.as_slice())),
            Err(e) => Err(e),
        }
    }

    /// Find the index of the first occurrence of the given byte in the
    /// remaining bytes, without moving the position.
    ///
    /// The window may be smaller than the scan range, so the scan walks
    /// fixed-size chunks, each fetched through the shared window, until
    /// the byte is found or the range is exhausted.
    pub fn find(&self, buffer: &mut SectionBuffer, byte: u8) -> (r: Result<u64, Error>)
        requires
            self.contained_in(old(buffer)),
        ensures
            final(buffer).spec_source() == old(buffer).spec_source(),
            final(buffer).spec_range() == old(buffer).spec_range(),
            final(buffer).spec_capacity() == old(buffer).spec_capacity(),
            match spec_find(self.bytes_in(old(buffer)), byte) {
                Some(i) => r == Ok::<u64, Error>(i as u64),
                None => r == Err::<u64, Error>(Error::UnexpectedEof),
            },
    {
        proof {
            use_type_invariant(self);
            use_type_invariant(&*buffer);
        }
        let ghost b = self.bytes_in(old(buffer));
        let ghost store = old(buffer).spec_source();
        let ghost section = old(buffer).spec_range();
        let mut chunk_start: u64 = 0;
        while chunk_start < self.range_size
            invariant
                self.contained_in(old(buffer)),
                self.range_start + self.range_size <= u64::MAX,
                section.file_offset + section.file_size <= store.len(),
                store == old(buffer).spec_source(),
                section == old(buffer).spec_range(),
                buffer.spec_source() == store,
                buffer.spec_range() == section,
                buffer.spec_capacity() == old(buffer).spec_capacity(),
                b == self.bytes_in(old(buffer)),
                b.len() == self.spec_size(),
                chunk_start <= self.range_size,
                forall|j: int| 0 <= j < chunk_start ==> b[j] != byte,
            decreases self.range_size - chunk_start,
        {
            let chunk_size: u64 = if self.range_size - chunk_start < 4096 {
                self.range_size - chunk_start
            } else {
                4096
            };
            let chunk = match buffer.read_bytes_at(
                self.range_start + chunk_start,
                chunk_size as usize,
            ) {
                Ok(v) => v,
                Err(e) => {
                    return Err(e);
                },
            };
            proof {
                assert(chunk@ =~= b.subrange(chunk_start as int, chunk_start + chunk_size));
            }
            let mut i: usize = 0;
            while i < chunk.len()
                invariant
                    buffer.spec_source() == store,
                    store == old(buffer).spec_source(),
                    section == old(buffer).spec_range(),
                    buffer.spec_range() == section,
                    buffer.spec_capacity() == old(buffer).spec_capacity(),
                    b == self.bytes_in(old(buffer)),
                    chunk@ == b.subrange(chunk_start as int, chunk_start + chunk_size),
                    chunk_start + chunk_size <= b.len(),
                    b.len() <= u64::MAX,
                    i <= chunk@.len(),
                    forall|j: int| 0 <= j < chunk_start + i ==> b[j] != byte,
                decreases chunk@.len() - i,
            {
                if chunk[i] == byte {
                    proof {
                        lemma_spec_find_complete(b, byte, chunk_start + i);
                    }
                    return Ok(chunk_start + i as u64);
                }
                i = i + 1;
            }
            chunk_start = chunk_start + chunk_size;
        }
        proof {
            lemma_spec_find(b, byte);
        }
        Err(Error::UnexpectedEof)
    }

    /// Return all remaining bytes as a fresh vector, without moving the
    /// position. Unlike the zero-copy backend this must allocate: the
    /// resident window need not span the whole remaining range.
    pub fn to_slice(&self, buffer: &mut SectionBuffer) -> (r: Result<Vec<u8>, Error>)
        requires
            self.contained_in(old(buffer)),
        ensures
            final(buffer).spec_source() == old(buffer).spec_source(),
            final(buffer).spec_range() == old(buffer).spec_range(),
            final(buffer).spec_capacity() == old(buffer).spec_capacity(),
            r is Ok,
            r matches Ok(v) ==> v@ == self.bytes_in(old(buffer)),
    {
        proof {
            use_type_invariant(self);
            use_type_invariant(&*buffer);
        }
        let _source_len = buffer.source_len();
        let mut cursor = *self;
        match cursor.read_slice(buffer, self.range_size as usize) {
            Ok(v) => {
                proof {
                    assert(self.bytes_in(old(buffer)).take(self.spec_size() as int)
                        =~= self.bytes_in(old(buffer)));
                }
                Ok(v)
            },
            Err(e) => Err(e),
        }
    }

    /// Convert all remaining bytes to a string, without moving the
    /// position. Fails with [`Error::BadUtf8`] exactly when the bytes are
    /// not valid UTF-8.
    pub fn to_string(&self, buffer: &mut SectionBuffer) -> (r: Result<String, Error>)
        requires
            self.contained_in(old(buffer)),
        ensures
            final(buffer).spec_source() == old(buffer).spec_source(),
            final(buffer).spec_range() == old(buffer).spec_range(),
            final(buffer).spec_capacity() == old(buffer).spec_capacity(),
            match r {
                Ok(s) => vstd::utf8::valid_utf8(self.bytes_in(old(buffer))) && s@
                    == vstd::utf8::decode_utf8(self.bytes_in(old(buffer))),
                Err(e) => !vstd::utf8::valid_utf8(self.bytes_in(old(buffer))) && e
                    == Error::BadUtf8,
            },
    {
        let v = match self.to_slice(buffer) {
            Ok(v) => v,
            Err(e) => {
                return Err(e);
            },
        };
        match str_from_utf8(v.as_slice()) {
            Ok(s) => Ok(s.to_owned()),
            Err(e) => Err(e),
        }
    }

    /// Convert all remaining bytes to a string, replacing invalid
    /// sequences with the replacement character, without moving the
    /// position.
    pub fn to_string_lossy(&self, buffer: &mut SectionBuffer) -> (r: Result<String, Error>)
        requires
            self.contained_in(old(buffer)),
        ensures
            final(buffer).spec_source() == old(buffer).spec_source(),
            final(buffer).spec_range() == old(buffer).spec_range(),
            final(buffer).spec_capacity() == old(buffer).spec_capacity(),
            r is Ok,
            r matches Ok(s) ==> s@ == utf8_lossy(self.bytes_in(old(buffer))),
    {
        let v = match self.to_slice(buffer) {
            Ok(v) => v,
            Err(e) => {
                return Err(e);
            },
        };
        Ok(utf8_lossy_string(v.as_slice()))
    }
}

} // verus!
