//! Working with byte vectors that have an associated endianity.

use vstd::prelude::*;

verus! {

use crate::endianity::Endianity;
use crate::read::reader::Reader;
use crate::write::Error;

/// A growable `Vec<u8>` with endianity metadata.
///
/// This is the growable byte sink of the write side: bytes written through
/// it land at the end of the vector, and already-written spans can be
/// patched in place.
#[derive(Debug, Clone)]
pub struct EndianVec {
    vec: Vec<u8>,
    endian: Endianity,
}

impl EndianVec {
    /// The bytes written so far.
    pub closed spec fn bytes(&self) -> Seq<u8> {
        self.vec@
    }

    /// The byte order the sink was created with.
    pub closed spec fn endianness(&self) -> Endianity {
        self.endian
    }

    /// Construct an empty `EndianVec` with the given endianity.
    pub fn new(endian: Endianity) -> (r: EndianVec)
        ensures
            r.bytes() == Seq::<u8>::empty(),
            r.endianness() == endian,
    {
        let r = EndianVec { vec: Vec::new(), endian };
        proof {
            assert(r.bytes() =~= Seq::<u8>::empty());
        }
        r
    }

    /// Return a reference to the raw bytes.
    pub fn slice(&self) -> (r: &[u8])
        ensures
            r@ == self.bytes(),
    {
        self.vec.as_slice()
    }

    /// Convert into a `Vec<u8>`.
    pub fn into_vec(self) -> (r: Vec<u8>)
        ensures
            r@ == self.bytes(),
    {
        self.vec
    }

    /// Return the endianity of bytes that are written.
    pub fn endian(&self) -> (r: Endianity)
        ensures
            r == self.endianness(),
    {
        self.endian
    }

    /// Return the number of bytes written so far.
    pub fn len(&self) -> (r: usize)
        ensures
            r == self.bytes().len(),
    {
        self.vec.len()
    }

    /// Append `bytes` to the end of the sink.
    pub fn write(&mut self, bytes: &[u8]) -> (r: Result<(), Error>)
        ensures
            r == Ok::<(), Error>(()),
            final(self).bytes() == old(self).bytes() + bytes@,
            final(self).endianness() == old(self).endianness(),
    {
        self.vec.extend_from_slice(bytes);
        Ok(())
    }

    /// Overwrite the bytes at `offset` with `bytes`, which must lie
    /// entirely within what has already been written.
    pub fn write_at(&mut self, offset: usize, bytes: &[u8]) -> (r: Result<(), Error>)
        ensures
            final(self).endianness() == old(self).endianness(),
            offset > old(self).bytes().len() ==> r == Err::<(), Error>(Error::OffsetOutOfBounds)
                && final(self).bytes() == old(self).bytes(),
            offset <= old(self).bytes().len() && bytes@.len() > old(self).bytes().len() - offset
                ==> r == Err::<(), Error>(Error::LengthOutOfBounds) && final(self).bytes() == old(
                self,
            ).bytes(),
            offset + bytes@.len() <= old(self).bytes().len() ==> r == Ok::<(), Error>(())
                && final(self).bytes() == old(self).bytes().take(offset as int) + bytes@ + old(
                self,
            ).bytes().skip(offset + bytes@.len()),
    {
        let ghost pre = self.vec@;
        if offset > self.vec.len() {
            return Err(Error::OffsetOutOfBounds);
        }
        if bytes.len() > self.vec.len() - offset {
            return Err(Error::LengthOutOfBounds);
        }
        let total = self.vec.len();
        let mut i: usize = 0;
        while i < bytes.len()
            invariant
                i <= bytes@.len(),
                offset + bytes@.len() <= pre.len(),
                pre.len() == total,
                self.vec@.len() == pre.len(),
                forall|j: int| 0 <= j < i ==> self.vec@[offset + j] == bytes@[j],
                forall|j: int|
                    0 <= j < pre.len() && !(offset <= j < offset + i) ==> self.vec@[j] == pre[j],
                self.endian == old(self).endian,
                pre == old(self).bytes(),
            decreases bytes@.len() - i,
        {
            self.vec[offset + i] = bytes[i];
            i = i + 1;
        }
        proof {
            assert(self.vec@ =~= pre.take(offset as int) + bytes@ + pre.skip(
                offset + bytes@.len(),
            ));
        }
        Ok(())
    }
}

/// Bytes written through a growable sink and read back through the
/// zero-copy cursor are reproduced exactly, for every byte sequence
/// including the empty one: a sink that started empty holds exactly the
/// written bytes, and a cursor created over its contents sees exactly
/// those bytes.
pub proof fn lemma_write_read_round_trip(
    sink: EndianVec,
    cursor: crate::read::endian_slice::EndianSlice,
    written: Seq<u8>,
)
    requires
        sink.bytes() == Seq::<u8>::empty() + written,
        cursor.bytes() == sink.bytes(),
    ensures
        cursor.bytes() == written,
{
    assert(Seq::<u8>::empty() + written =~= written);
}

} // verus!
