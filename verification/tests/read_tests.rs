//! Tests for initial lengths, offsets and encoded-pointer resolution.

use gimli::common::Format;
use gimli::constants::DwEhPe;
use gimli::constants::DW_EH_PE_absptr;
use gimli::constants::DW_EH_PE_aligned;
use gimli::constants::DW_EH_PE_datarel;
use gimli::constants::DW_EH_PE_funcrel;
use gimli::constants::DW_EH_PE_indirect;
use gimli::constants::DW_EH_PE_omit;
use gimli::constants::DW_EH_PE_pcrel;
use gimli::constants::DW_EH_PE_sdata2;
use gimli::constants::DW_EH_PE_sdata4;
use gimli::constants::DW_EH_PE_sdata8;
use gimli::constants::DW_EH_PE_sleb128;
use gimli::constants::DW_EH_PE_textrel;
use gimli::constants::DW_EH_PE_udata2;
use gimli::constants::DW_EH_PE_udata4;
use gimli::constants::DW_EH_PE_udata8;
use gimli::constants::DW_EH_PE_uleb128;
use gimli::endianity::Endianity;
use gimli::read::cfi::BaseAddresses;
use gimli::read::cfi::SectionBaseAddresses;
use gimli::read::endian_slice::EndianSlice;
use gimli::read::parse_encoded_pointer;
use gimli::read::parse_pointer_encoding;
use gimli::read::reader::Reader;
use gimli::read::Error;
use gimli::read::Pointer;
use gimli::common::Register;

fn push_u16_le(v: &mut Vec<u8>, x: u16) {
    v.extend_from_slice(&x.to_le_bytes());
}

fn push_u32_le(v: &mut Vec<u8>, x: u32) {
    v.extend_from_slice(&x.to_le_bytes());
}

fn push_u64_le(v: &mut Vec<u8>, x: u64) {
    v.extend_from_slice(&x.to_le_bytes());
}

#[test]
fn test_parse_initial_length_32_ok() {
    let mut buf = Vec::new();
    push_u32_le(&mut buf, 0x7856_3412);

    let input = &mut EndianSlice::new(&buf, Endianity::Little);
    match input.read_initial_length() {
        Ok((length, format)) => {
            assert_eq!(input.len(), 0);
            assert_eq!(format, Format::Dwarf32);
            assert_eq!(0x7856_3412, length);
        }
        otherwise => panic!("Unexpected result: {:?}", otherwise),
    }
}

#[test]
fn test_parse_initial_length_64_ok() {
    let mut buf = Vec::new();
    push_u32_le(&mut buf, 0xffff_ffff);
    push_u64_le(&mut buf, 0xffde_bc9a_7856_3412);

    let input = &mut EndianSlice::new(&buf, Endianity::Little);
    match input.read_initial_length() {
        Ok((length, format)) => {
            assert_eq!(input.len(), 0);
            assert_eq!(format, Format::Dwarf64);
            assert_eq!(0xffde_bc9a_7856_3412, length);
        }
        otherwise => panic!("Unexpected result: {:?}", otherwise),
    }
}

#[test]
fn test_parse_initial_length_unknown_reserved_value() {
    let mut buf = Vec::new();
    push_u32_le(&mut buf, 0xffff_fffe);

    let input = &mut EndianSlice::new(&buf, Endianity::Little);
    match input.read_initial_length() {
        Err(Error::UnknownReservedLength) => assert!(true),
        otherwise => panic!("Unexpected result: {:?}", otherwise),
    };
}

#[test]
fn test_parse_initial_length_incomplete() {
    let buf = [0xff, 0xff, 0xff]; // Need at least 4 bytes.

    let input = &mut EndianSlice::new(&buf, Endianity::Little);
    match input.read_initial_length() {
        Err(Error::UnexpectedEof) => assert!(true),
        otherwise => panic!("Unexpected result: {:?}", otherwise),
    };
}

#[test]
fn test_parse_initial_length_64_incomplete() {
    let mut buf = Vec::new();
    push_u32_le(&mut buf, 0xffff_ffff);
    // The actual length is not long enough.
    push_u32_le(&mut buf, 0x7856_3412);

    let input = &mut EndianSlice::new(&buf, Endianity::Little);
    match input.read_initial_length() {
        Err(Error::UnexpectedEof) => assert!(true),
        otherwise => panic!("Unexpected result: {:?}", otherwise),
    };
}

#[test]
fn test_parse_offset_32() {
    let mut buf = Vec::new();
    push_u32_le(&mut buf, 0x0123_4567);

    let input = &mut EndianSlice::new(&buf, Endianity::Little);
    match input.read_offset(Format::Dwarf32) {
        Ok(val) => {
            assert_eq!(input.len(), 0);
            assert_eq!(val, 0x0123_4567);
        }
        otherwise => panic!("Unexpected result: {:?}", otherwise),
    };
}

#[test]
fn test_parse_offset_64_small() {
    let mut buf = Vec::new();
    push_u64_le(&mut buf, 0x0123_4567);

    let input = &mut EndianSlice::new(&buf, Endianity::Little);
    match input.read_offset(Format::Dwarf64) {
        Ok(val) => {
            assert_eq!(input.len(), 0);
            assert_eq!(val, 0x0123_4567);
        }
        otherwise => panic!("Unexpected result: {:?}", otherwise),
    };
}

#[test]
fn test_parse_offset_64_large() {
    let mut buf = Vec::new();
    push_u64_le(&mut buf, 0x0123_4567_89ab_cdef);

    let input = &mut EndianSlice::new(&buf, Endianity::Little);
    match input.read_offset(Format::Dwarf64) {
        Ok(val) => {
            assert_eq!(input.len(), 0);
            assert_eq!(val, 0x0123_4567_89ab_cdef);
        }
        otherwise => panic!("Unexpected result: {:?}", otherwise),
    };
}

#[test]
fn test_parse_pointer_encoding_ok() {
    let expected = DwEhPe(DW_EH_PE_uleb128 | DW_EH_PE_pcrel);
    let input = [expected.0, 1, 2, 3, 4];
    let input = &mut EndianSlice::new(&input, Endianity::Little);
    assert_eq!(parse_pointer_encoding(input), Ok(expected));
    assert_eq!(*input, EndianSlice::new(&[1, 2, 3, 4], Endianity::Little));
}

#[test]
fn test_parse_pointer_encoding_bad_encoding() {
    let expected = DwEhPe((DW_EH_PE_sdata8 + 1) | DW_EH_PE_pcrel);
    let input = [expected.0, 1, 2, 3, 4];
    let input = &mut EndianSlice::new(&input, Endianity::Little);
    assert_eq!(
        Err(Error::UnknownPointerEncoding),
        parse_pointer_encoding(input)
    );
}

#[test]
fn test_parse_encoded_pointer_absptr() {
    let encoding = DwEhPe(DW_EH_PE_absptr);
    let bases = SectionBaseAddresses::default();
    let address_size = 4;
    let expected_rest = [1, 2, 3, 4];

    let mut input = Vec::new();
    push_u32_le(&mut input, 0xf00d_f00d);
    input.extend_from_slice(&expected_rest);
    let input = EndianSlice::new(&input, Endianity::Little);
    let mut rest = input;

    assert_eq!(
        parse_encoded_pointer(encoding, &bases, address_size, &input, &mut rest),
        Ok(Pointer::Direct(0xf00d_f00d))
    );
    assert_eq!(rest, EndianSlice::new(&expected_rest, Endianity::Little));
}

#[test]
fn test_parse_encoded_pointer_pcrel() {
    let encoding = DwEhPe(DW_EH_PE_pcrel);

    let bases = BaseAddresses::default().set_eh_frame(0x100);

    let address_size = 4;
    let expected_rest = [1, 2, 3, 4];

    let mut input = Vec::new();
    input.extend_from_slice(&[0; 0x10]);
    push_u32_le(&mut input, 0x1);
    input.extend_from_slice(&expected_rest);
    let input = EndianSlice::new(&input, Endianity::Little);
    let mut rest = input.range_from(0x10);

    assert_eq!(
        parse_encoded_pointer(encoding, &bases.eh_frame, address_size, &input, &mut rest),
        Ok(Pointer::Direct(0x111))
    );
    assert_eq!(rest, EndianSlice::new(&expected_rest, Endianity::Little));
}

#[test]
fn test_parse_encoded_pointer_pcrel_undefined() {
    let encoding = DwEhPe(DW_EH_PE_pcrel);
    let bases = SectionBaseAddresses::default();
    let address_size = 4;

    let mut input = Vec::new();
    push_u32_le(&mut input, 0x1);
    let input = EndianSlice::new(&input, Endianity::Little);
    let mut rest = input;

    assert_eq!(
        parse_encoded_pointer(encoding, &bases, address_size, &input, &mut rest),
        Err(Error::PcRelativePointerButSectionBaseIsUndefined)
    );
}

#[test]
fn test_parse_encoded_pointer_textrel() {
    let encoding = DwEhPe(DW_EH_PE_textrel);

    let bases = BaseAddresses::default().set_text(0x10);

    let address_size = 4;
    let expected_rest = [1, 2, 3, 4];

    let mut input = Vec::new();
    push_u32_le(&mut input, 0x1);
    input.extend_from_slice(&expected_rest);
    let input = EndianSlice::new(&input, Endianity::Little);
    let mut rest = input;

    assert_eq!(
        parse_encoded_pointer(encoding, &bases.eh_frame, address_size, &input, &mut rest),
        Ok(Pointer::Direct(0x11))
    );
    assert_eq!(rest, EndianSlice::new(&expected_rest, Endianity::Little));
}

#[test]
fn test_parse_encoded_pointer_textrel_undefined() {
    let encoding = DwEhPe(DW_EH_PE_textrel);
    let bases = SectionBaseAddresses::default();
    let address_size = 4;

    let mut input = Vec::new();
    push_u32_le(&mut input, 0x1);
    let input = EndianSlice::new(&input, Endianity::Little);
    let mut rest = input;

    assert_eq!(
        parse_encoded_pointer(encoding, &bases, address_size, &input, &mut rest),
        Err(Error::TextRelativePointerButTextBaseIsUndefined)
    );
}

#[test]
fn test_parse_encoded_pointer_datarel() {
    let encoding = DwEhPe(DW_EH_PE_datarel);

    let bases = BaseAddresses::default().set_got(0x10);

    let address_size = 4;
    let expected_rest = [1, 2, 3, 4];

    let mut input = Vec::new();
    push_u32_le(&mut input, 0x1);
    input.extend_from_slice(&expected_rest);
    let input = EndianSlice::new(&input, Endianity::Little);
    let mut rest = input;

    assert_eq!(
        parse_encoded_pointer(encoding, &bases.eh_frame, address_size, &input, &mut rest),
        Ok(Pointer::Direct(0x11))
    );
    assert_eq!(rest, EndianSlice::new(&expected_rest, Endianity::Little));
}

#[test]
fn test_parse_encoded_pointer_datarel_undefined() {
    let encoding = DwEhPe(DW_EH_PE_datarel);
    let bases = SectionBaseAddresses::default();
    let address_size = 4;

    let mut input = Vec::new();
    push_u32_le(&mut input, 0x1);
    let input = EndianSlice::new(&input, Endianity::Little);
    let mut rest = input;

    assert_eq!(
        parse_encoded_pointer(encoding, &bases, address_size, &input, &mut rest),
        Err(Error::DataRelativePointerButDataBaseIsUndefined)
    );
}

#[test]
fn test_parse_encoded_pointer_funcrel() {
    let encoding = DwEhPe(DW_EH_PE_funcrel);

    let mut bases = SectionBaseAddresses::default();
    bases.func = Some(0x10);

    let address_size = 4;
    let expected_rest = [1, 2, 3, 4];

    let mut input = Vec::new();
    push_u32_le(&mut input, 0x1);
    input.extend_from_slice(&expected_rest);
    let input = EndianSlice::new(&input, Endianity::Little);
    let mut rest = input;

    assert_eq!(
        parse_encoded_pointer(encoding, &bases, address_size, &input, &mut rest),
        Ok(Pointer::Direct(0x11))
    );
    assert_eq!(rest, EndianSlice::new(&expected_rest, Endianity::Little));
}

#[test]
fn test_parse_encoded_pointer_funcrel_undefined() {
    let encoding = DwEhPe(DW_EH_PE_funcrel);
    let bases = SectionBaseAddresses::default();
    let address_size = 4;

    let mut input = Vec::new();
    push_u32_le(&mut input, 0x1);
    let input = EndianSlice::new(&input, Endianity::Little);
    let mut rest = input;

    assert_eq!(
        parse_encoded_pointer(encoding, &bases, address_size, &input, &mut rest),
        Err(Error::FuncRelativePointerInBadContext)
    );
}

#[test]
fn test_parse_encoded_pointer_uleb128() {
    let encoding = DwEhPe(DW_EH_PE_absptr | DW_EH_PE_uleb128);
    let bases = SectionBaseAddresses::default();
    let address_size = 4;
    let expected_rest = [1, 2, 3, 4];

    let mut input = Vec::new();
    // ULEB128 encoding of 0x12_3456.
    input.extend_from_slice(&[0xd6, 0xe8, 0x48]);
    input.extend_from_slice(&expected_rest);
    let input = EndianSlice::new(&input, Endianity::Little);
    let mut rest = input;

    assert_eq!(
        parse_encoded_pointer(encoding, &bases, address_size, &input, &mut rest),
        Ok(Pointer::Direct(0x12_3456))
    );
    assert_eq!(rest, EndianSlice::new(&expected_rest, Endianity::Little));
}

#[test]
fn test_parse_encoded_pointer_udata2() {
    let encoding = DwEhPe(DW_EH_PE_absptr | DW_EH_PE_udata2);
    let bases = SectionBaseAddresses::default();
    let address_size = 4;
    let expected_rest = [1, 2, 3, 4];

    let mut input = Vec::new();
    push_u16_le(&mut input, 0x1234);
    input.extend_from_slice(&expected_rest);
    let input = EndianSlice::new(&input, Endianity::Little);
    let mut rest = input;

    assert_eq!(
        parse_encoded_pointer(encoding, &bases, address_size, &input, &mut rest),
        Ok(Pointer::Direct(0x1234))
    );
    assert_eq!(rest, EndianSlice::new(&expected_rest, Endianity::Little));
}

#[test]
fn test_parse_encoded_pointer_udata4() {
    let encoding = DwEhPe(DW_EH_PE_absptr | DW_EH_PE_udata4);
    let bases = SectionBaseAddresses::default();
    let address_size = 4;
    let expected_rest = [1, 2, 3, 4];

    let mut input = Vec::new();
    push_u32_le(&mut input, 0x1234_5678);
    input.extend_from_slice(&expected_rest);
    let input = EndianSlice::new(&input, Endianity::Little);
    let mut rest = input;

    assert_eq!(
        parse_encoded_pointer(encoding, &bases, address_size, &input, &mut rest),
        Ok(Pointer::Direct(0x1234_5678))
    );
    assert_eq!(rest, EndianSlice::new(&expected_rest, Endianity::Little));
}

#[test]
fn test_parse_encoded_pointer_udata8() {
    let encoding = DwEhPe(DW_EH_PE_absptr | DW_EH_PE_udata8);
    let bases = SectionBaseAddresses::default();
    let address_size = 4;
    let expected_rest = [1, 2, 3, 4];

    let mut input = Vec::new();
    push_u64_le(&mut input, 0x1234_5678_1234_5678);
    input.extend_from_slice(&expected_rest);
    let input = EndianSlice::new(&input, Endianity::Little);
    let mut rest = input;

    assert_eq!(
        parse_encoded_pointer(encoding, &bases, address_size, &input, &mut rest),
        Ok(Pointer::Direct(0x1234_5678_1234_5678))
    );
    assert_eq!(rest, EndianSlice::new(&expected_rest, Endianity::Little));
}

#[test]
fn test_parse_encoded_pointer_sleb128() {
    let encoding = DwEhPe(DW_EH_PE_textrel | DW_EH_PE_sleb128);
    let bases = BaseAddresses::default().set_text(0x1111_1111);
    let address_size = 4;
    let expected_rest = [1, 2, 3, 4];

    let mut input = Vec::new();
    // SLEB128 encoding of -0x1111.
    input.extend_from_slice(&[0xef, 0x5d]);
    input.extend_from_slice(&expected_rest);
    let input = EndianSlice::new(&input, Endianity::Little);
    let mut rest = input;

    assert_eq!(
        parse_encoded_pointer(encoding, &bases.eh_frame, address_size, &input, &mut rest),
        Ok(Pointer::Direct(0x1111_0000))
    );
    assert_eq!(rest, EndianSlice::new(&expected_rest, Endianity::Little));
}

#[test]
fn test_parse_encoded_pointer_sdata2() {
    let encoding = DwEhPe(DW_EH_PE_absptr | DW_EH_PE_sdata2);
    let bases = SectionBaseAddresses::default();
    let address_size = 4;
    let expected_rest = [1, 2, 3, 4];
    let expected = 0x111 as i16;

    let mut input = Vec::new();
    push_u16_le(&mut input, expected as u16);
    input.extend_from_slice(&expected_rest);
    let input = EndianSlice::new(&input, Endianity::Little);
    let mut rest = input;

    assert_eq!(
        parse_encoded_pointer(encoding, &bases, address_size, &input, &mut rest),
        Ok(Pointer::Direct(expected as u64))
    );
    assert_eq!(rest, EndianSlice::new(&expected_rest, Endianity::Little));
}

#[test]
fn test_parse_encoded_pointer_sdata4() {
    let encoding = DwEhPe(DW_EH_PE_absptr | DW_EH_PE_sdata4);
    let bases = SectionBaseAddresses::default();
    let address_size = 4;
    let expected_rest = [1, 2, 3, 4];
    let expected = 0x111_1111 as i32;

    let mut input = Vec::new();
    push_u32_le(&mut input, expected as u32);
    input.extend_from_slice(&expected_rest);
    let input = EndianSlice::new(&input, Endianity::Little);
    let mut rest = input;

    assert_eq!(
        parse_encoded_pointer(encoding, &bases, address_size, &input, &mut rest),
        Ok(Pointer::Direct(expected as u64))
    );
    assert_eq!(rest, EndianSlice::new(&expected_rest, Endianity::Little));
}

#[test]
fn test_parse_encoded_pointer_sdata8() {
    let encoding = DwEhPe(DW_EH_PE_absptr | DW_EH_PE_sdata8);
    let bases = SectionBaseAddresses::default();
    let address_size = 4;
    let expected_rest = [1, 2, 3, 4];
    let expected = -0x11_1111_1222_2222 as i64;

    let mut input = Vec::new();
    push_u64_le(&mut input, expected as u64);
    input.extend_from_slice(&expected_rest);
    let input = EndianSlice::new(&input, Endianity::Little);
    let mut rest = input;

    assert_eq!(
        parse_encoded_pointer(encoding, &bases, address_size, &input, &mut rest),
        Ok(Pointer::Direct(expected as u64))
    );
    assert_eq!(rest, EndianSlice::new(&expected_rest, Endianity::Little));
}

#[test]
fn test_parse_encoded_pointer_omit() {
    let encoding = DwEhPe(DW_EH_PE_omit);
    let bases = SectionBaseAddresses::default();
    let address_size = 4;

    let mut input = Vec::new();
    push_u32_le(&mut input, 0x1);
    let input = EndianSlice::new(&input, Endianity::Little);
    let mut rest = input;

    assert_eq!(
        parse_encoded_pointer(encoding, &bases, address_size, &input, &mut rest),
        Ok(Pointer::default())
    );
    assert_eq!(rest, input);
}

#[test]
fn test_parse_encoded_pointer_bad_encoding() {
    let encoding = DwEhPe(DW_EH_PE_sdata8 + 1);
    let bases = SectionBaseAddresses::default();
    let address_size = 4;

    let mut input = Vec::new();
    push_u32_le(&mut input, 0x1);
    let input = EndianSlice::new(&input, Endianity::Little);
    let mut rest = input;

    assert_eq!(
        parse_encoded_pointer(encoding, &bases, address_size, &input, &mut rest),
        Err(Error::UnknownPointerEncoding)
    );
}

#[test]
fn test_parse_encoded_pointer_aligned() {
    let encoding = DwEhPe(DW_EH_PE_aligned);
    let bases = SectionBaseAddresses::default();
    let address_size = 4;

    let mut input = Vec::new();
    push_u32_le(&mut input, 0x1);
    let input = EndianSlice::new(&input, Endianity::Little);
    let mut rest = input;

    assert_eq!(
        parse_encoded_pointer(encoding, &bases, address_size, &input, &mut rest),
        Err(Error::UnsupportedPointerEncoding)
    );
}

#[test]
fn test_parse_encoded_pointer_indirect() {
    let expected_rest = [1, 2, 3, 4];

    let encoding = DwEhPe(DW_EH_PE_indirect);
    let bases = SectionBaseAddresses::default();
    let address_size = 4;

    let mut input = Vec::new();
    push_u32_le(&mut input, 0x1234_5678);
    input.extend_from_slice(&expected_rest);
    let input = EndianSlice::new(&input, Endianity::Little);
    let mut rest = input;

    assert_eq!(
        parse_encoded_pointer(encoding, &bases, address_size, &input, &mut rest),
        Ok(Pointer::Indirect(0x1234_5678))
    );
    assert_eq!(rest, EndianSlice::new(&expected_rest, Endianity::Little));
}

#[test]
fn encoded_pointer_big_endian_udata4() {
    let encoding = DwEhPe(DW_EH_PE_absptr | DW_EH_PE_udata4);
    let bases = SectionBaseAddresses::default();
    let input = [0x12, 0x34, 0x56, 0x78];
    let input = EndianSlice::new(&input, Endianity::Big);
    let mut rest = input;

    assert_eq!(
        parse_encoded_pointer(encoding, &bases, 4, &input, &mut rest),
        Ok(Pointer::Direct(0x1234_5678))
    );
}

#[test]
fn encoded_pointer_absptr_bad_address_size() {
    let encoding = DwEhPe(DW_EH_PE_absptr);
    let bases = SectionBaseAddresses::default();
    let input = [1, 2, 3, 4];
    let input = EndianSlice::new(&input, Endianity::Little);
    let mut rest = input;

    assert_eq!(
        parse_encoded_pointer(encoding, &bases, 3, &input, &mut rest),
        Err(Error::UnsupportedAddressSize(3))
    );
}

#[test]
fn read_address_and_sized_offset() {
    let buf = [0xaa, 0xbb, 0xcc, 0xdd, 0xee, 0xff, 0x11, 0x22];
    let mut input = EndianSlice::new(&buf, Endianity::Little);
    assert_eq!(input.read_address(2), Ok(0xbbaa));
    assert_eq!(input.read_sized_offset(4), Ok(0xffee_ddcc));
    assert_eq!(input.read_sized_offset(3), Err(Error::UnsupportedOffsetSize(3)));
    assert_eq!(input.read_address(5), Err(Error::UnsupportedAddressSize(5)));
    assert_eq!(input.read_address(4), Err(Error::UnexpectedEof));
}

#[test]
fn register_from_u64_bounds() {
    assert_eq!(Register::from_u64(0xffff), Ok(Register(0xffff)));
    assert_eq!(Register::from_u64(0x1_0000), Err(Error::UnsupportedRegister(0x1_0000)));
}

#[test]
fn error_descriptions_are_stable() {
    assert_eq!(
        Error::UnknownReservedLength.description(),
        "Found an unknown reserved length value"
    );
    assert_eq!(Error::Io.description(), "An I/O error occurred while reading.");
    assert_eq!(Error::BadUtf8.description(), "Found an invalid UTF-8 string.");
}

#[test]
fn format_sizes() {
    assert_eq!(Format::Dwarf32.initial_length_size(), 4);
    assert_eq!(Format::Dwarf64.initial_length_size(), 12);
    assert_eq!(Format::Dwarf32.word_size(), 4);
    assert_eq!(Format::Dwarf64.word_size(), 8);
}

#[test]
fn initial_length_big_endian() {
    let buf = [0x78, 0x56, 0x34, 0x12];
    let input = &mut EndianSlice::new(&buf, Endianity::Big);
    assert_eq!(input.read_initial_length(), Ok((0x7856_3412, Format::Dwarf32)));
}
