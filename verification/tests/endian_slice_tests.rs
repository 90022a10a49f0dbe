//! Tests for the zero-copy slice backend.

use gimli::endianity::Endianity;
use gimli::read::endian_slice::EndianSlice;
use gimli::read::reader::Reader;
use gimli::read::Error;

#[test]
fn test_endian_slice_split_at() {
    let endian = Endianity::Little;
    let slice = &[1, 2, 3, 4, 5, 6, 7, 8, 9, 0];
    let eb = EndianSlice::new(slice, endian);
    assert_eq!(
        eb.split_at(3),
        (
            EndianSlice::new(&slice[..3], endian),
            EndianSlice::new(&slice[3..], endian)
        )
    );
}

#[test]
fn split_skip_conservation_scenario() {
    // Splitting off a prefix conserves the cursor's bytes: the parts have
    // the expected lengths and concatenate to the original bytes.
    let slice = &[10, 20, 30, 40, 50, 60, 70];
    let mut cursor = EndianSlice::new(slice, Endianity::Little);
    let head = cursor.split(3).unwrap();
    assert_eq!(head.len(), 3);
    assert_eq!(cursor.len(), 4);
    let mut joined = head.slice().to_vec();
    joined.extend_from_slice(cursor.slice());
    assert_eq!(joined, slice.to_vec());

    // Skipping is split without keeping the head.
    let mut skipped = EndianSlice::new(slice, Endianity::Little);
    skipped.skip(3).unwrap();
    assert_eq!(skipped, cursor);
}

#[test]
fn split_of_everything_and_nothing() {
    let slice = &[1, 2, 3];
    let mut cursor = EndianSlice::new(slice, Endianity::Little);
    let none = cursor.split(0).unwrap();
    assert_eq!(none.len(), 0);
    assert_eq!(cursor.len(), 3);
    let all = cursor.split(3).unwrap();
    assert_eq!(all.slice(), slice);
    assert!(cursor.is_empty());
    assert_eq!(cursor.split(1), Err(Error::UnexpectedEof));
}

#[test]
fn numeric_reads_little_and_big() {
    let slice = &[0x12, 0x34, 0x56, 0x78, 0x9a, 0xbc, 0xde, 0xf0];
    let mut le = EndianSlice::new(slice, Endianity::Little);
    assert_eq!(le.read_u16(), Ok(0x3412));
    assert_eq!(le.read_u32(), Ok(0xbc9a_7856));
    assert_eq!(le.read_i16(), Ok(-0x0f22));
    let mut be = EndianSlice::new(slice, Endianity::Big);
    assert_eq!(be.read_u64(), Ok(0x1234_5678_9abc_def0));
    assert_eq!(be.read_u8(), Err(Error::UnexpectedEof));
}

#[test]
fn signed_reads() {
    let slice = &[0xff, 0xff, 0xfe, 0xff, 0xff, 0xff, 0xff, 0xff];
    let mut le = EndianSlice::new(slice, Endianity::Little);
    assert_eq!(le.read_i16(), Ok(-1));
    assert_eq!(le.read_i8(), Ok(-2));
    let slice32 = &[0xfd, 0xff, 0xff, 0xff];
    let mut le32 = EndianSlice::new(slice32, Endianity::Little);
    assert_eq!(le32.read_i32(), Ok(-3));
    let slice64 = &[0xfc, 0xff, 0xff, 0xff, 0xff, 0xff, 0xff, 0xff];
    let mut le64 = EndianSlice::new(slice64, Endianity::Little);
    assert_eq!(le64.read_i64(), Ok(-4));
}

#[test]
fn find_and_null_terminated() {
    let slice = &[b'h', b'i', 0, 7, 8];
    let cursor = EndianSlice::new(slice, Endianity::Little);
    assert_eq!(cursor.find(0), Some(2));
    assert_eq!(cursor.find(9), None);

    let mut cursor = EndianSlice::new(slice, Endianity::Little);
    let name = cursor.read_null_terminated_slice().unwrap();
    assert_eq!(name.slice(), b"hi");
    assert_eq!(cursor.slice(), &[7, 8]);

    let mut no_null = EndianSlice::new(&[1, 2, 3], Endianity::Little);
    assert_eq!(no_null.read_null_terminated_slice(), Err(Error::UnexpectedEof));
}

#[test]
fn truncate_empty_and_ranges() {
    let slice = &[1, 2, 3, 4, 5];
    let mut cursor = EndianSlice::new(slice, Endianity::Little);
    assert_eq!(cursor.truncate(4), Ok(()));
    assert_eq!(cursor.slice(), &[1, 2, 3, 4]);
    assert_eq!(cursor.truncate(5), Err(Error::UnexpectedEof));
    cursor.empty();
    assert!(cursor.is_empty());

    let cursor = EndianSlice::new(slice, Endianity::Little);
    assert_eq!(cursor.range(1, 3).slice(), &[2, 3]);
    assert_eq!(cursor.range_from(2).slice(), &[3, 4, 5]);
    assert_eq!(cursor.range_to(3).slice(), &[1, 2, 3]);
    assert_eq!(cursor.buf(), slice);
    assert_eq!(cursor.to_slice(), slice);
}

#[test]
fn offset_from_sub_cursor() {
    let slice = &[1, 2, 3, 4, 5, 6];
    let base = EndianSlice::new(slice, Endianity::Little);
    let sub = base.range_from(2);
    assert_eq!(sub.offset_from(base), 2);
    let mut advanced = base;
    advanced.skip(5).unwrap();
    assert_eq!(advanced.offset_from(base), 5);
}

#[test]
fn to_string_checks_utf8() {
    let good = EndianSlice::new("caf\u{e9}".as_bytes(), Endianity::Little);
    assert_eq!(good.to_string(), Ok("caf\u{e9}"));
    assert_eq!(good.to_string_lossy(), "caf\u{e9}");

    let bad = EndianSlice::new(&[b'a', 0xff, b'b'], Endianity::Little);
    assert_eq!(bad.to_string(), Err(Error::BadUtf8));
    assert_eq!(bad.to_string_lossy(), "a\u{fffd}b");
}

#[test]
fn equality_is_by_contents() {
    let first = [1, 2, 3, 4];
    let second = [0, 1, 2, 3, 4];
    let a = EndianSlice::new(&first, Endianity::Little);
    let b = EndianSlice::new(&second, Endianity::Little).range_from(1);
    assert_eq!(a, b);
    assert!(a != EndianSlice::new(&first, Endianity::Big));
    assert!(a != EndianSlice::new(&first[..3], Endianity::Little));
}

#[test]
fn endian_accessors() {
    let slice = &[1, 2];
    let le = EndianSlice::new(slice, Endianity::Little);
    assert_eq!(le.endian(), Endianity::Little);
    assert!(le.endian().is_little_endian());
    assert!(!le.endian().is_big_endian());
    assert_eq!(le.len(), 2);
}
