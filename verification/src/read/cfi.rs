//! Base addresses for resolving relocation-relative encoded pointers in
//! call-frame information.

use vstd::prelude::*;

verus! {

/// Optional base addresses for the relative pointer encodings found in a
/// single unwind section.
///
/// The `func` base changes per enclosing frame-description entry: the
/// caller sets it before resolving that entry's function-relative pointers
/// and clears or replaces it afterwards.
#[derive(Debug, Clone)]
pub struct SectionBaseAddresses {
    /// The address of the section containing the pointer (for pc-relative
    /// pointers).
    pub section: Option<u64>,
    /// The base address for text relative pointers.
    pub text: Option<u64>,
    /// The base address for data relative pointers.
    pub data: Option<u64>,
    /// The starting address of the function being unwound, for function
    /// relative pointers.
    pub func: Option<u64>,
}

impl Default for SectionBaseAddresses {
    /// A base-address set with every base undefined.
    fn default() -> (r: Self)
        ensures
            r.section is None,
            r.text is None,
            r.data is None,
            r.func is None,
    {
        SectionBaseAddresses { section: None, text: None, data: None, func: None }
    }
}

/// Optional base addresses for the relative pointer encodings of the
/// `.eh_frame_hdr` and `.eh_frame` sections.
#[derive(Debug, Clone)]
pub struct BaseAddresses {
    /// The base addresses to use for pointers in the `.eh_frame_hdr`
    /// section.
    pub eh_frame_hdr: SectionBaseAddresses,
    /// The base addresses to use for pointers in the `.eh_frame` section.
    pub eh_frame: SectionBaseAddresses,
}

impl Default for BaseAddresses {
    /// A base-address set with every base undefined.
    fn default() -> (r: Self)
        ensures
            r.eh_frame_hdr.section is None,
            r.eh_frame_hdr.text is None,
            r.eh_frame_hdr.data is None,
            r.eh_frame_hdr.func is None,
            r.eh_frame.section is None,
            r.eh_frame.text is None,
            r.eh_frame.data is None,
            r.eh_frame.func is None,
    {
        BaseAddresses {
            eh_frame_hdr: SectionBaseAddresses::default(),
            eh_frame: SectionBaseAddresses::default(),
        }
    }
}

impl BaseAddresses {
    /// Set the `.eh_frame_hdr` section base address.
    pub fn set_eh_frame_hdr(self, addr: u64) -> (r: Self)
        ensures
            r.eh_frame_hdr.section == Some(addr),
            r.eh_frame_hdr.text == self.eh_frame_hdr.text,
            r.eh_frame_hdr.data == self.eh_frame_hdr.data,
            r.eh_frame_hdr.func == self.eh_frame_hdr.func,
            r.eh_frame == self.eh_frame,
    {
        BaseAddresses {
            eh_frame_hdr: SectionBaseAddresses { section: Some(addr), ..self.eh_frame_hdr },
            ..self
        }
    }

    /// Set the `.eh_frame` section base address.
    pub fn set_eh_frame(self, addr: u64) -> (r: Self)
        ensures
            r.eh_frame.section == Some(addr),
            r.eh_frame.text == self.eh_frame.text,
            r.eh_frame.data == self.eh_frame.data,
            r.eh_frame.func == self.eh_frame.func,
            r.eh_frame_hdr == self.eh_frame_hdr,
    {
        BaseAddresses {
            eh_frame: SectionBaseAddresses { section: Some(addr), ..self.eh_frame },
            ..self
        }
    }

    /// Set the `.text` base address, for both unwind sections.
    pub fn set_text(self, addr: u64) -> (r: Self)
        ensures
            r.eh_frame_hdr.text == Some(addr),
            r.eh_frame.text == Some(addr),
            r.eh_frame_hdr.section == self.eh_frame_hdr.section,
            r.eh_frame_hdr.data == self.eh_frame_hdr.data,
            r.eh_frame_hdr.func == self.eh_frame_hdr.func,
            r.eh_frame.section == self.eh_frame.section,
            r.eh_frame.data == self.eh_frame.data,
            r.eh_frame.func == self.eh_frame.func,
    {
        BaseAddresses {
            eh_frame_hdr: SectionBaseAddresses { text: Some(addr), ..self.eh_frame_hdr },
            eh_frame: SectionBaseAddresses { text: Some(addr), ..self.eh_frame },
        }
    }

    /// Set the data base address, for both unwind sections; this is
    /// typically the global offset table.
    pub fn set_got(self, addr: u64) -> (r: Self)
        ensures
            r.eh_frame_hdr.data == Some(addr),
            r.eh_frame.data == Some(addr),
            r.eh_frame_hdr.section == self.eh_frame_hdr.section,
            r.eh_frame_hdr.text == self.eh_frame_hdr.text,
            r.eh_frame_hdr.func == self.eh_frame_hdr.func,
            r.eh_frame.section == self.eh_frame.section,
            r.eh_frame.text == self.eh_frame.text,
            r.eh_frame.func == self.eh_frame.func,
    {
        BaseAddresses {
            eh_frame_hdr: SectionBaseAddresses { data: Some(addr), ..self.eh_frame_hdr },
            eh_frame: SectionBaseAddresses { data: Some(addr), ..self.eh_frame },
        }
    }
}

} // verus!
