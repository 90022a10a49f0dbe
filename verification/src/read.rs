//! Read DWARF-style debugging metadata.

pub mod addr;
pub mod buffered;
pub mod cfi;
pub mod endian_slice;
pub mod reader;

use vstd::prelude::*;

verus! {

use crate::common::Register;
use crate::constants::DwEhPe;
use crate::constants::DW_EH_PE_absptr;
use crate::constants::DW_EH_PE_uleb128;
use crate::constants::DW_EH_PE_udata2;
use crate::constants::DW_EH_PE_udata4;
use crate::constants::DW_EH_PE_udata8;
use crate::constants::DW_EH_PE_sleb128;
use crate::constants::DW_EH_PE_sdata2;
use crate::constants::DW_EH_PE_sdata4;
use crate::constants::DW_EH_PE_sdata8;
use crate::constants::DW_EH_PE_pcrel;
use crate::constants::DW_EH_PE_textrel;
use crate::constants::DW_EH_PE_datarel;
use crate::constants::DW_EH_PE_funcrel;
use crate::constants::spec_application;
use crate::constants::spec_format;
use crate::constants::spec_is_absent;
use crate::constants::spec_is_indirect;
use crate::constants::spec_is_valid_encoding;
use crate::endianity::Endianity;
use crate::endianity::sign_extend;
use crate::endianity::spec_as_i16;
use crate::endianity::spec_as_i32;
use crate::endianity::spec_as_i64;
use crate::endianity::spec_sign_extend;
use crate::endianity::spec_u16;
use crate::endianity::spec_u32;
use crate::endianity::spec_u64;
use crate::endianity::spec_wrapping_add;
use crate::read::cfi::SectionBaseAddresses;
use crate::read::reader::Reader;
use crate::read::reader::spec_zero_extended;
use crate::constants::DwCfa;
use crate::constants::DwLne;
use crate::constants::DwLns;
use crate::constants::DwOp;

/// An error that occurred when parsing.
#[derive(Debug, Clone, Copy, PartialEq, Eq, Structural)]
pub enum Error {
    /// An I/O error occurred while reading.
    Io,
    /// Found a PC relative pointer, but the section base is undefined.
    PcRelativePointerButSectionBaseIsUndefined,
    /// Found a `.text` relative pointer, but the `.text` base is undefined.
    TextRelativePointerButTextBaseIsUndefined,
    /// Found a data relative pointer, but the data base is undefined.
    DataRelativePointerButDataBaseIsUndefined,
    /// Found a function relative pointer in a context that does not have a
    /// function base.
    FuncRelativePointerInBadContext,
    /// An error parsing an unsigned LEB128 value.
    BadUnsignedLeb128,
    /// An error parsing a signed LEB128 value.
    BadSignedLeb128,
    /// An abbreviation declared that its tag is zero, but zero is reserved for
    /// null records.
    AbbreviationTagZero,
    /// An attribute specification declared that its form is zero, but zero is
    /// reserved for null records.
    AttributeFormZero,
    /// The abbreviation's has-children byte was not one of
    /// `DW_CHILDREN_{yes,no}`.
    BadHasChildren,
    /// The specified length is impossible.
    BadLength,
    /// Found an unknown `DW_FORM_*` type.
    UnknownForm,
    /// Expected a zero, found something else.
    ExpectedZero,
    /// Found an abbreviation code that has already been used.
    DuplicateAbbreviationCode,
    /// Found a duplicate arange.
    DuplicateArange,
    /// Found an unknown reserved length value.
    UnknownReservedLength,
    /// Found an unknown DWARF version.
    UnknownVersion(u64),
    /// Found a record with an unknown abbreviation code.
    UnknownAbbreviation,
    /// Hit the end of input before it was expected.
    UnexpectedEof,
    /// Read a null entry before it was expected.
    UnexpectedNull,
    /// Found an unknown standard opcode.
    UnknownStandardOpcode(DwLns),
    /// Found an unknown extended opcode.
    UnknownExtendedOpcode(DwLne),
    /// The specified address size is not supported.
    UnsupportedAddressSize(u8),
    /// The specified offset size is not supported.
    UnsupportedOffsetSize(u8),
    /// The specified field size is not supported.
    UnsupportedFieldSize(u8),
    /// The minimum instruction length must not be zero.
    MinimumInstructionLengthZero,
    /// The maximum operations per instruction must not be zero.
    MaximumOperationsPerInstructionZero,
    /// The line range must not be zero.
    LineRangeZero,
    /// The opcode base must not be zero.
    OpcodeBaseZero,
    /// Found an invalid UTF-8 string.
    BadUtf8,
    /// Expected to find the CIE ID, but found something else.
    NotCieId,
    /// Expected to find a pointer to a CIE, but found the CIE ID instead.
    NotCiePointer,
    /// Expected to find a pointer to an FDE, but found a CIE instead.
    NotFdePointer,
    /// Invalid branch target for a DW_OP_bra or DW_OP_skip.
    BadBranchTarget(u64),
    /// DW_OP_push_object_address used but no address passed in.
    InvalidPushObjectAddress,
    /// Not enough items on the stack when evaluating an expression.
    NotEnoughStackItems,
    /// Too many iterations to compute the expression.
    TooManyIterations,
    /// An unrecognized operation was found while parsing a DWARF expression.
    InvalidExpression(DwOp),
    /// The expression had a piece followed by an expression terminator
    /// without a piece.
    InvalidPiece,
    /// An expression-terminating operation was followed by something other
    /// than the end of the expression or a piece operation.
    InvalidExpressionTerminator(u64),
    /// Division or modulus by zero when evaluating an expression.
    DivisionByZero,
    /// An expression operation used mismatching types.
    TypeMismatch,
    /// An expression operation required an integral type but saw a floating
    /// point type.
    IntegralTypeRequired,
    /// An expression operation used types that are not supported.
    UnsupportedTypeOperation,
    /// The shift value in an expression must be a non-negative integer.
    InvalidShiftExpression,
    /// An unknown DW_CFA_* instruction.
    UnknownCallFrameInstruction(DwCfa),
    /// The end of an address range was before the beginning.
    InvalidAddressRange,
    /// The end offset of a loc list entry was before the beginning.
    InvalidLocationAddressRange,
    /// Encountered a call frame instruction in a context in which it is not
    /// valid.
    CfiInstructionInInvalidContext,
    /// When evaluating call frame instructions, found a `DW_CFA_restore_state`
    /// stack pop instruction, but the stack was empty, and had nothing to pop.
    PopWithEmptyStack,
    /// Do not have unwind info for the given address.
    NoUnwindInfoForAddress,
    /// An offset value was larger than the maximum supported value.
    UnsupportedOffset,
    /// The given pointer encoding is either unknown or invalid.
    UnknownPointerEncoding,
    /// Did not find an entry at the given offset.
    NoEntryAtGivenOffset,
    /// The given offset is out of bounds.
    OffsetOutOfBounds,
    /// Found an unknown CFI augmentation.
    UnknownAugmentation,
    /// We do not support the given pointer encoding yet.
    UnsupportedPointerEncoding,
    /// Registers larger than `u16` are not supported.
    UnsupportedRegister(u64),
    /// The CFI program defined more register rules than we have storage for.
    TooManyRegisterRules,
    /// Attempted to push onto the CFI stack, but it was already at full
    /// capacity.
    CfiStackFull,
    /// The `.eh_frame_hdr` binary search table claims to be variable-length
    /// encoded, which makes binary search impossible.
    VariableLengthSearchTable,
    /// The `DW_UT_*` value for this unit is not supported yet.
    UnsupportedUnitType,
    /// Ranges using AddressIndex are not supported yet.
    UnsupportedAddressIndex,
    /// Nonzero segment selector sizes aren't supported yet.
    UnsupportedSegmentSize,
}

impl Error {
    /// A short description of the error.
    pub fn description(&self) -> &'static str {
        match *self {
            Error::Io => "An I/O error occurred while reading.",
            Error::PcRelativePointerButSectionBaseIsUndefined => {
                "Found a PC relative pointer, but the section base is undefined."
            },
            Error::TextRelativePointerButTextBaseIsUndefined => {
                "Found a `.text` relative pointer, but the `.text` base is undefined."
            },
            Error::DataRelativePointerButDataBaseIsUndefined => {
                "Found a data relative pointer, but the data base is undefined."
            },
            Error::FuncRelativePointerInBadContext => {
                "Found a function relative pointer in a context that does not have a function base."
            },
            Error::BadUnsignedLeb128 => "An error parsing an unsigned LEB128 value",
            Error::BadSignedLeb128 => "An error parsing a signed LEB128 value",
            Error::AbbreviationTagZero => {
                "An abbreviation declared that its tag is zero,
                 but zero is reserved for null records"
            },
            Error::AttributeFormZero => {
                "An attribute specification declared that its form is zero,
                 but zero is reserved for null records"
            },
            Error::BadHasChildren => {
                "The abbreviation's has-children byte was not one of
                 `DW_CHILDREN_{yes,no}`"
            },
            Error::BadLength => "The specified length is impossible",
            Error::UnknownForm => "Found an unknown `DW_FORM_*` type",
            Error::ExpectedZero => "Expected a zero, found something else",
            Error::DuplicateAbbreviationCode => {
                "Found an abbreviation code that has already been used"
            },
            Error::DuplicateArange => "Found a duplicate arange",
            Error::UnknownReservedLength => "Found an unknown reserved length value",
            Error::UnknownVersion(_) => "Found an unknown DWARF version",
            Error::UnknownAbbreviation => "Found a record with an unknown abbreviation code",
            Error::UnexpectedEof => "Hit the end of input before it was expected",
            Error::UnexpectedNull => "Read a null entry before it was expected.",
            Error::UnknownStandardOpcode(_) => "Found an unknown standard opcode",
            Error::UnknownExtendedOpcode(_) => "Found an unknown extended opcode",
            Error::UnsupportedAddressSize(_) => "The specified address size is not supported",
            Error::UnsupportedOffsetSize(_) => "The specified offset size is not supported",
            Error::UnsupportedFieldSize(_) => "The specified field size is not supported",
            Error::MinimumInstructionLengthZero => {
                "The minimum instruction length must not be zero."
            },
            Error::MaximumOperationsPerInstructionZero => {
                "The maximum operations per instruction must not be zero."
            },
            Error::LineRangeZero => "The line range must not be zero.",
            Error::OpcodeBaseZero => "The opcode base must not be zero.",
            Error::BadUtf8 => "Found an invalid UTF-8 string.",
            Error::NotCieId => "Expected to find the CIE ID, but found something else.",
            Error::NotCiePointer => "Expected to find a CIE pointer, but found the CIE ID instead.",
            Error::NotFdePointer => {
                "Expected to find an FDE pointer, but found a CIE pointer instead."
            },
            Error::BadBranchTarget(_) => "Invalid branch target in DWARF expression",
            Error::InvalidPushObjectAddress => {
                "DW_OP_push_object_address used but no object address given"
            },
            Error::NotEnoughStackItems => "Not enough items on stack when evaluating expression",
            Error::TooManyIterations => "Too many iterations to evaluate DWARF expression",
            Error::InvalidExpression(_) => "Invalid opcode in DWARF expression",
            Error::InvalidPiece => {
                "DWARF expression has piece followed by non-piece expression at end"
            },
            Error::InvalidExpressionTerminator(_) => "Expected DW_OP_piece or DW_OP_bit_piece",
            Error::DivisionByZero => "Division or modulus by zero when evaluating expression",
            Error::TypeMismatch => "Type mismatch when evaluating expression",
            Error::IntegralTypeRequired => "Integral type expected when evaluating expression",
            Error::UnsupportedTypeOperation => {
                "An expression operation used types that are not supported"
            },
            Error::InvalidShiftExpression => {
                "The shift value in an expression must be a non-negative integer."
            },
            Error::UnknownCallFrameInstruction(_) => "An unknown DW_CFA_* instructiion",
            Error::InvalidAddressRange => {
                "The end of an address range must not be before the beginning."
            },
            Error::InvalidLocationAddressRange => {
                "The end offset of a location list entry must not be before the beginning."
            },
            Error::CfiInstructionInInvalidContext => {
                "Encountered a call frame instruction in a context in which it is not valid."
            },
            Error::PopWithEmptyStack => {
                "When evaluating call frame instructions, found a `DW_CFA_restore_state` stack pop instruction, but the stack was empty, and had nothing to pop."
            },
            Error::NoUnwindInfoForAddress => "Do not have unwind info for the given address.",
            Error::UnsupportedOffset => {
                "An offset value was larger than the maximum supported value."
            },
            Error::UnknownPointerEncoding => {
                "The given pointer encoding is either unknown or invalid."
            },
            Error::NoEntryAtGivenOffset => "Did not find an entry at the given offset.",
            Error::OffsetOutOfBounds => "The given offset is out of bounds.",
            Error::UnknownAugmentation => "Found an unknown CFI augmentation.",
            Error::UnsupportedPointerEncoding => {
                "We do not support the given pointer encoding yet."
            },
            Error::UnsupportedRegister(_) => "Registers larger than `u16` are not supported.",
            Error::TooManyRegisterRules => {
                "The CFI program defined more register rules than we have storage for."
            },
            Error::CfiStackFull => {
                "Attempted to push onto the CFI stack, but it was already at full capacity."
            },
            Error::VariableLengthSearchTable => {
                "The `.eh_frame_hdr` binary search table claims to be variable-length encoded, which makes binary search impossible."
            },
            Error::UnsupportedUnitType => "The `DW_UT_*` value for this unit is not supported yet",
            Error::UnsupportedAddressIndex => "Ranges involving AddressIndex are not supported yet",
            Error::UnsupportedSegmentSize => "Nonzero segment size not supported yet",
        }
    }
}

/// A decoded pointer.
#[derive(Copy, Clone, Debug, PartialEq, Eq, Structural)]
pub enum Pointer {
    /// This value is the decoded pointer value.
    Direct(u64),
    /// This value is *not* the pointer value, but points to the address of
    /// where the real pointer value lives. In other words, deref this pointer
    /// to get the real pointer value.
    ///
    /// Chase this pointer at your own risk: do you trust the DWARF data it
    /// came from?
    Indirect(u64),
}

impl Default for Pointer {
    #[inline]
    fn default() -> (r: Self)
        ensures
            r == Pointer::Direct(0u64),
    {
        Pointer::Direct(0)
    }
}

impl Pointer {
    /// The numeric value carried by the pointer, whether direct or indirect.
    pub open spec fn spec_value(self) -> u64 {
        match self {
            Pointer::Direct(p) => p,
            Pointer::Indirect(p) => p,
        }
    }

    /// Wrap a resolved address, honouring the encoding's indirect bit.
    #[inline]
    pub fn new(encoding: crate::constants::DwEhPe, address: u64) -> (r: Pointer)
        ensures
            crate::constants::spec_is_indirect(encoding) ==> r == Pointer::Indirect(address),
            !crate::constants::spec_is_indirect(encoding) ==> r == Pointer::Direct(address),
    {
        if encoding.is_indirect() {
            Pointer::Indirect(address)
        } else {
            Pointer::Direct(address)
        }
    }

    /// The numeric value carried by the pointer, whether direct or indirect.
    #[inline]
    pub fn value(self) -> (r: u64)
        ensures
            r == self.spec_value(),
    {
        match self {
            Pointer::Direct(p) => p,
            Pointer::Indirect(p) => p,
        }
    }
}

impl From<Pointer> for u64 {
    #[inline]
    fn from(p: Pointer) -> (r: u64)
        ensures
            r == p.spec_value(),
    {
        p.value()
    }
}

impl vstd::std_specs::convert::FromSpecImpl<Pointer> for u64 {
    open spec fn obeys_from_spec() -> bool {
        true
    }

    open spec fn from_spec(p: Pointer) -> u64 {
        p.spec_value()
    }
}

impl Register {
    /// The register with the given number, when it fits in 16 bits.
    pub fn from_u64(x: u64) -> (r: Result<Register, Error>)
        ensures
            x <= u16::MAX ==> r == Ok::<Register, Error>(Register(x as u16)),
            x > u16::MAX ==> r == Err::<Register, Error>(Error::UnsupportedRegister(x)),
    {
        if x <= 0xffff {
            Ok(Register(x as u16))
        } else {
            Err(Error::UnsupportedRegister(x))
        }
    }
}

/// A convenience trait for loading DWARF sections from object files.
///
/// A type implementing `Section` stands for one named section; it is
/// built from a cursor over that section's raw bytes, which an object-file
/// loader locates by [`Section::section_name`].
pub trait Section<R: crate::read::reader::Reader>: From<R> {
    /// Returns the ELF section name for this type.
    fn section_name() -> &'static str;
}

/// The payload of an encoded pointer decoded from the front of `b`: the
/// value (sign-extended and reinterpreted as unsigned where the format is
/// signed) and the number of bytes it spans, or the error that stops the
/// decoding.
pub open spec fn spec_parse_data(
    format: u8,
    address_size: u8,
    endian: Endianity,
    b: Seq<u8>,
) -> Result<(u64, int), Error> {
    if format == DW_EH_PE_absptr {
        if address_size == 1 || address_size == 2 || address_size == 4 || address_size == 8 {
            if b.len() >= address_size {
                Ok((spec_zero_extended(endian, b.take(address_size as int), address_size), address_size as int))
            } else {
                Err(Error::UnexpectedEof)
            }
        } else {
            Err(Error::UnsupportedAddressSize(address_size))
        }
    } else if format == DW_EH_PE_uleb128 {
        match crate::leb128::spec_uleb128(b) {
            Ok((v, n)) => Ok((v, n)),
            Err(e) => Err(e),
        }
    } else if format == DW_EH_PE_udata2 {
        if b.len() >= 2 {
            Ok((spec_u16(endian, b.take(2)) as u64, 2))
        } else {
            Err(Error::UnexpectedEof)
        }
    } else if format == DW_EH_PE_udata4 {
        if b.len() >= 4 {
            Ok((spec_u32(endian, b.take(4)) as u64, 4))
        } else {
            Err(Error::UnexpectedEof)
        }
    } else if format == DW_EH_PE_udata8 {
        if b.len() >= 8 {
            Ok((spec_u64(endian, b.take(8)), 8))
        } else {
            Err(Error::UnexpectedEof)
        }
    } else if format == DW_EH_PE_sleb128 {
        match crate::leb128::spec_sleb128(b) {
            Ok((v, n)) => Ok((spec_sign_extend(v), n)),
            Err(e) => Err(e),
        }
    } else if format == DW_EH_PE_sdata2 {
        if b.len() >= 2 {
            Ok((spec_sign_extend(spec_as_i16(spec_u16(endian, b.take(2))) as i64), 2))
        } else {
            Err(Error::UnexpectedEof)
        }
    } else if format == DW_EH_PE_sdata4 {
        if b.len() >= 4 {
            Ok((spec_sign_extend(spec_as_i32(spec_u32(endian, b.take(4))) as i64), 4))
        } else {
            Err(Error::UnexpectedEof)
        }
    } else if format == DW_EH_PE_sdata8 {
        if b.len() >= 8 {
            Ok((spec_sign_extend(spec_as_i64(spec_u64(endian, b.take(8)))), 8))
        } else {
            Err(Error::UnexpectedEof)
        }
    } else {
        Err(Error::UnknownPointerEncoding)
    }
}

/// The pointer that an encoding byte and a resolved address make: the
/// indirect bit decides between the two variants.
pub open spec fn spec_pointer(encoding: DwEhPe, address: u64) -> Pointer {
    if spec_is_indirect(encoding) {
        Pointer::Indirect(address)
    } else {
        Pointer::Direct(address)
    }
}

/// The result of resolving an encoded pointer read from the front of `b`:
/// the resolved pointer and the number of payload bytes consumed, or the
/// error that stops the resolution.
///
/// `section_offset` is the distance of the payload's start from the start
/// of its section; it only matters to pc-relative pointers. Base addresses
/// are added with wraparound arithmetic, as the producing toolchains
/// intend.
pub open spec fn spec_parse_encoded_pointer(
    encoding: DwEhPe,
    bases: SectionBaseAddresses,
    address_size: u8,
    section_offset: u64,
    endian: Endianity,
    b: Seq<u8>,
) -> Result<(Pointer, int), Error> {
    if !spec_is_valid_encoding(encoding) {
        Err(Error::UnknownPointerEncoding)
    } else if spec_is_absent(encoding) {
        Ok((Pointer::Direct(0), 0))
    } else {
        let application = spec_application(encoding);
        let payload = spec_parse_data(spec_format(encoding), address_size, endian, b);
        if application == DW_EH_PE_absptr {
            match payload {
                Ok((v, n)) => Ok((spec_pointer(encoding, v), n)),
                Err(e) => Err(e),
            }
        } else if application == DW_EH_PE_pcrel {
            match bases.section {
                Some(section_base) => match payload {
                    Ok((v, n)) => Ok(
                        (
                            spec_pointer(
                                encoding,
                                spec_wrapping_add(
                                    spec_wrapping_add(section_base, section_offset),
                                    v,
                                ),
                            ),
                            n,
                        ),
                    ),
                    Err(e) => Err(e),
                },
                None => Err(Error::PcRelativePointerButSectionBaseIsUndefined),
            }
        } else if application == DW_EH_PE_textrel {
            match bases.text {
                Some(text_base) => match payload {
                    Ok((v, n)) => Ok(
                        (spec_pointer(encoding, spec_wrapping_add(text_base, v)), n),
                    ),
                    Err(e) => Err(e),
                },
                None => Err(Error::TextRelativePointerButTextBaseIsUndefined),
            }
        } else if application == DW_EH_PE_datarel {
            match bases.data {
                Some(data_base) => match payload {
                    Ok((v, n)) => Ok(
                        (spec_pointer(encoding, spec_wrapping_add(data_base, v)), n),
                    ),
                    Err(e) => Err(e),
                },
                None => Err(Error::DataRelativePointerButDataBaseIsUndefined),
            }
        } else if application == DW_EH_PE_funcrel {
            match bases.func {
                Some(func_base) => match payload {
                    Ok((v, n)) => Ok(
                        (spec_pointer(encoding, spec_wrapping_add(func_base, v)), n),
                    ),
                    Err(e) => Err(e),
                },
                None => Err(Error::FuncRelativePointerInBadContext),
            }
        } else {
            Err(Error::UnsupportedPointerEncoding)
        }
    }
}

/// Parse an encoded-pointer description byte; an unknown bit pattern is
/// rejected after being consumed.
pub fn parse_pointer_encoding<R: Reader>(input: &mut R) -> (r: Result<DwEhPe, Error>)
    ensures
        final(input).endianness() == old(input).endianness(),
        old(input).bytes().len() == 0 ==> r == Err::<DwEhPe, Error>(Error::UnexpectedEof)
            && *final(input) == *old(input),
        old(input).bytes().len() >= 1 ==> ({
            let eh_pe = DwEhPe(old(input).bytes()[0]);
            &&& final(input).bytes() == old(input).bytes().skip(1)
            &&& spec_is_valid_encoding(eh_pe) ==> r == Ok::<DwEhPe, Error>(eh_pe)
            &&& !spec_is_valid_encoding(eh_pe) ==> r == Err::<DwEhPe, Error>(
                Error::UnknownPointerEncoding,
            )
        }),
{
    let eh_pe = match input.read_u8() {
        Ok(byte) => DwEhPe(byte),
        Err(e) => {
            return Err(e);
        },
    };
    if eh_pe.is_valid_encoding() {
        Ok(eh_pe)
    } else {
        Err(Error::UnknownPointerEncoding)
    }
}

/// Decode the numeric payload of an encoded pointer, per the encoding's
/// format bits: signed formats are sign-extended and reinterpreted as
/// unsigned so that wraparound addition applies them to a base.
fn parse_data<R: Reader>(encoding: DwEhPe, address_size: u8, input: &mut R) -> (r: Result<
    u64,
    Error,
>)
    requires
        spec_is_valid_encoding(encoding),
        !spec_is_absent(encoding),
    ensures
        final(input).endianness() == old(input).endianness(),
        match spec_parse_data(
            spec_format(encoding),
            address_size,
            old(input).endianness(),
            old(input).bytes(),
        ) {
            Ok((v, n)) => r == Ok::<u64, Error>(v) && final(input).bytes() == old(
                input,
            ).bytes().skip(n),
            Err(e) => r == Err::<u64, Error>(e),
        },
{
    let format = encoding.format().0;
    if format == DW_EH_PE_absptr {
        input.read_address(address_size)
    } else if format == DW_EH_PE_uleb128 {
        crate::leb128::read_unsigned(input)
    } else if format == DW_EH_PE_udata2 {
        match input.read_u16() {
            Ok(v) => Ok(v as u64),
            Err(e) => Err(e),
        }
    } else if format == DW_EH_PE_udata4 {
        match input.read_u32() {
            Ok(v) => Ok(v as u64),
            Err(e) => Err(e),
        }
    } else if format == DW_EH_PE_udata8 {
        input.read_u64()
    } else if format == DW_EH_PE_sleb128 {
        match crate::leb128::read_signed(input) {
            Ok(v) => Ok(sign_extend(v)),
            Err(e) => Err(e),
        }
    } else if format == DW_EH_PE_sdata2 {
        match input.read_i16() {
            Ok(v) => Ok(sign_extend(v as i64)),
            Err(e) => Err(e),
        }
    } else if format == DW_EH_PE_sdata4 {
        match input.read_i32() {
            Ok(v) => Ok(sign_extend(v as i64)),
            Err(e) => Err(e),
        }
    } else if format == DW_EH_PE_sdata8 {
        match input.read_i64() {
            Ok(v) => Ok(sign_extend(v)),
            Err(e) => Err(e),
        }
    } else {
        Err(Error::UnknownPointerEncoding)
    }
}

/// Resolve a base-relative encoded pointer.
///
/// `section` must be the cursor at the origin of the section that `input`
/// reads from, so that pc-relative pointers can measure where the payload
/// stands; `input` is positioned at the payload and is advanced past it.
pub fn parse_encoded_pointer<R: Reader>(
    encoding: DwEhPe,
    bases: &SectionBaseAddresses,
    address_size: u8,
    section: &R,
    input: &mut R,
) -> (r: Result<Pointer, Error>)
    requires
        (spec_is_valid_encoding(encoding) && !spec_is_absent(encoding) && spec_application(
            encoding,
        ) == DW_EH_PE_pcrel && old(input).derived_from(section)) || !(spec_is_valid_encoding(
            encoding,
        ) && !spec_is_absent(encoding) && spec_application(encoding) == DW_EH_PE_pcrel
            && bases.section is Some),
    ensures
        final(input).endianness() == old(input).endianness(),
        match spec_parse_encoded_pointer(
            encoding,
            *bases,
            address_size,
            old(input).spec_offset_from(section) as u64,
            old(input).endianness(),
            old(input).bytes(),
        ) {
            Ok((p, n)) => r == Ok::<Pointer, Error>(p) && final(input).bytes() == old(
                input,
            ).bytes().skip(n),
            Err(e) => r == Err::<Pointer, Error>(e),
        },
{
    if !encoding.is_valid_encoding() {
        return Err(Error::UnknownPointerEncoding);
    }
    if encoding.is_absent() {
        return Ok(Pointer::Direct(0));
    }
    let application = encoding.application().0;
    if application == DW_EH_PE_absptr {
        match parse_data(encoding, address_size, input) {
            Ok(addr) => Ok(Pointer::new(encoding, addr)),
            Err(e) => Err(e),
        }
    } else if application == DW_EH_PE_pcrel {
        match bases.section {
            Some(section_base) => {
                let offset_from_section = input.offset_from(section);
                match parse_data(encoding, address_size, input) {
                    Ok(offset) => {
                        let p = section_base.wrapping_add(offset_from_section).wrapping_add(
                            offset,
                        );
                        Ok(Pointer::new(encoding, p))
                    },
                    Err(e) => Err(e),
                }
            },
            None => Err(Error::PcRelativePointerButSectionBaseIsUndefined),
        }
    } else if application == DW_EH_PE_textrel {
        match bases.text {
            Some(text_base) => {
                match parse_data(encoding, address_size, input) {
                    Ok(offset) => Ok(Pointer::new(encoding, text_base.wrapping_add(offset))),
                    Err(e) => Err(e),
                }
            },
            None => Err(Error::TextRelativePointerButTextBaseIsUndefined),
        }
    } else if application == DW_EH_PE_datarel {
        match bases.data {
            Some(data_base) => {
                match parse_data(encoding, address_size, input) {
                    Ok(offset) => Ok(Pointer::new(encoding, data_base.wrapping_add(offset))),
                    Err(e) => Err(e),
                }
            },
            None => Err(Error::DataRelativePointerButDataBaseIsUndefined),
        }
    } else if application == DW_EH_PE_funcrel {
        match bases.func {
            Some(func_base) => {
                match parse_data(encoding, address_size, input) {
                    Ok(offset) => Ok(Pointer::new(encoding, func_base.wrapping_add(offset))),
                    Err(e) => Err(e),
                }
            },
            None => Err(Error::FuncRelativePointerInBadContext),
        }
    } else {
        Err(Error::UnsupportedPointerEncoding)
    }
}

} // verus!
