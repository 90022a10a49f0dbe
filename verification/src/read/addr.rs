//! The raw contents of the `.debug_addr` section.

use vstd::prelude::*;

verus! {

use crate::common::DebugAddrBase;
use crate::common::DebugAddrIndex;
use crate::read::Error;
use crate::read::Section;
use crate::read::reader::Reader;
use crate::read::reader::spec_zero_extended;

/// The raw contents of the `.debug_addr` section.
#[derive(Debug, Clone)]
pub struct DebugAddr<R: Reader> {
    section: R,
}

impl<R: Reader> DebugAddr<R> {
    /// The cursor over the whole section's bytes.
    pub closed spec fn spec_section(&self) -> R {
        self.section
    }

    /// Returns the address at the given `base` and `index`.
    ///
    /// A set of addresses in the `.debug_addr` section consists of a header
    /// followed by a series of addresses.
    ///
    /// The `base` must be the `DW_AT_addr_base` value from the compilation
    /// unit DIE. This is an offset that points to the first address
    /// following the header.
    ///
    /// The `index` is the value of a `DW_FORM_addrx` attribute.
    ///
    /// The `address_size` must be the size of the address for the
    /// compilation unit. This value must also match the header. However,
    /// note that we do not parse the header to validate this, since
    /// locating the header is unreliable, and the GNU extensions do not
    /// emit it.
    pub fn get_address(&self, address_size: u8, base: DebugAddrBase, index: DebugAddrIndex) -> (r:
        Result<u64, Error>)
        requires
            index.0 * address_size <= u64::MAX,
        ensures
            ({
                let b = self.spec_section().bytes();
                let off = base.0 + index.0 * address_size;
                &&& base.0 > b.len() ==> r == Err::<u64, Error>(Error::UnexpectedEof)
                &&& base.0 <= b.len() && off > b.len() ==> r == Err::<u64, Error>(
                    Error::UnexpectedEof,
                )
                &&& off <= b.len() ==> ({
                    &&& !(address_size == 1 || address_size == 2 || address_size == 4
                        || address_size == 8) ==> r == Err::<u64, Error>(
                        Error::UnsupportedAddressSize(address_size),
                    )
                    &&& (address_size == 1 || address_size == 2 || address_size == 4
                        || address_size == 8) ==> ({
                        &&& off + address_size > b.len() ==> r == Err::<u64, Error>(
                            Error::UnexpectedEof,
                        )
                        &&& off + address_size <= b.len() ==> r == Ok::<u64, Error>(
                            spec_zero_extended(
                                self.spec_section().endianness(),
                                b.subrange(off, off + address_size),
                                address_size,
                            ),
                        )
                    })
                })
            }),
    {
        let ghost b = self.spec_section().bytes();
        let mut input = self.section.clone_reader();
        match input.skip(base.0) {
            Ok(_) => {},
            Err(e) => {
                return Err(e);
            },
        }
        match input.skip(index.0 * (address_size as u64)) {
            Ok(_) => {},
            Err(e) => {
                return Err(e);
            },
        }
        proof {
            assert(b.skip(base.0 as int).skip((index.0 * address_size) as int) =~= b.skip(
                base.0 + index.0 * address_size,
            ));
            let off = base.0 + index.0 * address_size;
            assert(off + address_size <= b.len() ==> b.skip(off).take(address_size as int)
                =~= b.subrange(off, off + address_size));
        }
        input.read_address(address_size)
    }
}

impl<R: Reader> Section<R> for DebugAddr<R> {
    fn section_name() -> (r: &'static str) {
        ".debug_addr"
    }
}

impl<R: Reader> From<R> for DebugAddr<R> {
    /// Construct the section from the cursor over its raw bytes.
    fn from(section: R) -> (r: Self)
        ensures
            r.spec_section() == section,
    {
        DebugAddr { section }
    }
}

impl<R: Reader> vstd::std_specs::convert::FromSpecImpl<R> for DebugAddr<R> {
    open spec fn obeys_from_spec() -> bool {
        true
    }

    closed spec fn from_spec(section: R) -> Self {
        DebugAddr { section }
    }
}

} // verus!
