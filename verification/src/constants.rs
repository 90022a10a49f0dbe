//! Constants and newtypes for the flag and opcode values that appear in
//! DWARF-style sections.
#![allow(non_upper_case_globals)]

use vstd::prelude::*;

verus! {

/// A line-number program standard opcode.
#[derive(Debug, Clone, Copy, PartialEq, Eq, Structural, Hash)]
pub struct DwLns(pub u8);

/// A line-number program extended opcode.
#[derive(Debug, Clone, Copy, PartialEq, Eq, Structural, Hash)]
pub struct DwLne(pub u8);

/// An expression operation.
#[derive(Debug, Clone, Copy, PartialEq, Eq, Structural, Hash)]
pub struct DwOp(pub u8);

/// A call-frame instruction.
#[derive(Debug, Clone, Copy, PartialEq, Eq, Structural, Hash)]
pub struct DwCfa(pub u8);

/// An encoded-pointer description byte, as used in unwind metadata.
///
/// The low nibble selects the payload format, bits 4 to 6 select how a base
/// address is applied, and the top bit marks the decoded value as indirect.
#[derive(Debug, Clone, Copy, PartialEq, Eq, Structural, Hash)]
pub struct DwEhPe(pub u8);

/// Payload format: an address-sized value.
pub const DW_EH_PE_absptr: u8 = 0x00;

/// Payload format: an unsigned LEB128 value.
pub const DW_EH_PE_uleb128: u8 = 0x01;

/// Payload format: a 2-byte unsigned value.
pub const DW_EH_PE_udata2: u8 = 0x02;

/// Payload format: a 4-byte unsigned value.
pub const DW_EH_PE_udata4: u8 = 0x03;

/// Payload format: an 8-byte unsigned value.
pub const DW_EH_PE_udata8: u8 = 0x04;

/// Payload format: a signed LEB128 value.
pub const DW_EH_PE_sleb128: u8 = 0x09;

/// Payload format: a 2-byte signed value.
pub const DW_EH_PE_sdata2: u8 = 0x0a;

/// Payload format: a 4-byte signed value.
pub const DW_EH_PE_sdata4: u8 = 0x0b;

/// Payload format: an 8-byte signed value.
pub const DW_EH_PE_sdata8: u8 = 0x0c;

/// Application: the value is absolute.
pub const DW_EH_PE_pcrel: u8 = 0x10;

/// Application: the value is relative to the `.text` base.
pub const DW_EH_PE_textrel: u8 = 0x20;

/// Application: the value is relative to the data base.
pub const DW_EH_PE_datarel: u8 = 0x30;

/// Application: the value is relative to the current function's base.
pub const DW_EH_PE_funcrel: u8 = 0x40;

/// Application: the value is aligned within its section.
pub const DW_EH_PE_aligned: u8 = 0x50;

/// The decoded value is the address of the pointer, not the pointer itself.
pub const DW_EH_PE_indirect: u8 = 0x80;

/// No value is encoded at all.
pub const DW_EH_PE_omit: u8 = 0xff;

/// The payload-format bits (low nibble) of an encoding byte.
pub open spec fn spec_format(eh_pe: DwEhPe) -> u8 {
    (eh_pe.0 % 0x10) as u8
}

/// The base-application bits (bits 4 to 6) of an encoding byte.
pub open spec fn spec_application(eh_pe: DwEhPe) -> u8 {
    ((eh_pe.0 / 0x10) % 0x8 * 0x10) as u8
}

/// True when the encoding byte is the sentinel for an omitted value.
pub open spec fn spec_is_absent(eh_pe: DwEhPe) -> bool {
    eh_pe.0 == 0xff
}

/// True when the indirect bit (the top bit) of the encoding byte is set.
pub open spec fn spec_is_indirect(eh_pe: DwEhPe) -> bool {
    eh_pe.0 >= 0x80
}

/// True when the encoding byte names a known payload format and a known
/// base application, or is the omit sentinel.
pub open spec fn spec_is_valid_encoding(eh_pe: DwEhPe) -> bool {
    spec_is_absent(eh_pe) || ({
        let format = spec_format(eh_pe);
        let application = spec_application(eh_pe);
        (format == 0x00 || format == 0x01 || format == 0x02 || format == 0x03 || format == 0x04
            || format == 0x09 || format == 0x0a || format == 0x0b || format == 0x0c) && (
        application == 0x00 || application == 0x10 || application == 0x20 || application == 0x30
            || application == 0x40 || application == 0x50)
    })
}

impl DwEhPe {
    /// Extract the payload-format bits.
    #[inline]
    pub fn format(self) -> (r: DwEhPe)
        ensures
            r == DwEhPe(spec_format(self)),
    {
        DwEhPe(self.0 % 0x10)
    }

    /// Extract the base-application bits.
    #[inline]
    pub fn application(self) -> (r: DwEhPe)
        ensures
            r == DwEhPe(spec_application(self)),
    {
        DwEhPe(self.0 / 0x10 % 0x8 * 0x10)
    }

    /// True when the encoding is the sentinel for an omitted value.
    #[inline]
    pub fn is_absent(self) -> (r: bool)
        ensures
            r == spec_is_absent(self),
    {
        self.0 == 0xff
    }

    /// True when the indirect bit is set.
    #[inline]
    pub fn is_indirect(self) -> (r: bool)
        ensures
            r == spec_is_indirect(self),
    {
        self.0 >= 0x80
    }

    /// True when the encoding byte is one this crate knows how to interpret.
    pub fn is_valid_encoding(self) -> (r: bool)
        ensures
            r == spec_is_valid_encoding(self),
    {
        if self.is_absent() {
            return true;
        }
        let format = self.format().0;
        let format_ok = format == 0x00 || format == 0x01 || format == 0x02 || format == 0x03
            || format == 0x04 || format == 0x09 || format == 0x0a || format == 0x0b || format
            == 0x0c;
        let application = self.application().0;
        let application_ok = application == 0x00 || application == 0x10 || application == 0x20
            || application == 0x30 || application == 0x40 || application == 0x50;
        format_ok && application_ok
    }
}

} // verus!
