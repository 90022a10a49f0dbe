//! Tests for the `.debug_addr` section reader.

use gimli::common::DebugAddrBase;
use gimli::common::DebugAddrIndex;
use gimli::common::Format;
use gimli::endianity::Endianity;
use gimli::read::addr::DebugAddr;
use gimli::read::endian_slice::EndianSlice;
use gimli::read::Error;
use gimli::read::Section;

fn push_u16_le(v: &mut Vec<u8>, x: u16) {
    v.extend_from_slice(&x.to_le_bytes());
}

fn push_u32_le(v: &mut Vec<u8>, x: u32) {
    v.extend_from_slice(&x.to_le_bytes());
}

fn push_u64_le(v: &mut Vec<u8>, x: u64) {
    v.extend_from_slice(&x.to_le_bytes());
}

fn push_word_le(v: &mut Vec<u8>, size: u8, x: u64) {
    match size {
        4 => push_u32_le(v, x as u32),
        _ => push_u64_le(v, x),
    }
}

#[test]
fn test_get_address() {
    for format in [Format::Dwarf32, Format::Dwarf64] {
        for address_size in [4u8, 8u8] {
            // A set of addresses: initial length, version, address size,
            // segment selector size, then the addresses themselves.
            let mut section: Vec<u8> = Vec::new();
            let payload_len: u64 = 2 + 1 + 1 + 20 * address_size as u64;
            match format {
                Format::Dwarf32 => push_u32_le(&mut section, payload_len as u32),
                Format::Dwarf64 => {
                    push_u32_le(&mut section, 0xffff_ffff);
                    push_u64_le(&mut section, payload_len);
                }
            }
            push_u16_le(&mut section, 5);
            section.push(address_size);
            section.push(0);
            let base = DebugAddrBase(
                format.initial_length_size() as u64 + 4,
            );
            for i in 0..20 {
                push_word_le(&mut section, address_size, 1000 + i);
            }

            let debug_addr = DebugAddr::from(EndianSlice::new(&section, Endianity::Little));

            assert_eq!(
                debug_addr.get_address(address_size, base, DebugAddrIndex(0)),
                Ok(1000)
            );
            assert_eq!(
                debug_addr.get_address(address_size, base, DebugAddrIndex(19)),
                Ok(1019)
            );
        }
    }
}

#[test]
fn get_address_out_of_range() {
    let section = [0u8; 16];
    let debug_addr = DebugAddr::from(EndianSlice::new(&section, Endianity::Little));
    assert_eq!(
        debug_addr.get_address(8, DebugAddrBase(0), DebugAddrIndex(2)),
        Err(Error::UnexpectedEof)
    );
    assert_eq!(
        debug_addr.get_address(8, DebugAddrBase(17), DebugAddrIndex(0)),
        Err(Error::UnexpectedEof)
    );
    assert_eq!(
        debug_addr.get_address(3, DebugAddrBase(0), DebugAddrIndex(0)),
        Err(Error::UnsupportedAddressSize(3))
    );
}

#[test]
fn debug_addr_section_name() {
    assert_eq!(
        <DebugAddr<EndianSlice> as Section<EndianSlice>>::section_name(),
        ".debug_addr"
    );
}
