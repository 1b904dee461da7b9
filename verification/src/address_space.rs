//! Page-cache mapping state shared with the host, as plain values, and
//! the table of address-space operations a driver installs on it.

use vstd::prelude::*;

verus! {

/// Which address-space operations the driver fills into the table.
#[derive(Clone, Copy, PartialEq, Eq, Structural, Debug)]
pub struct ToUse {
    pub readpage: bool,
    pub write_begin: bool,
    pub write_end: bool,
    pub set_page_dirty: bool,
}

/// The slice of an address space this core reasons about.
#[derive(Clone, Copy, PartialEq, Eq, Structural, Debug)]
pub struct AddressSpace {
    /// Pages currently held by the mapping.
    pub nrpages: u64,
    /// The installed operation table, once one is set.
    pub a_ops: Option<ToUse>,
}

impl AddressSpace {
    /// Installs the operation table on the mapping.
    pub fn set_address_space_operations(&mut self, ops: ToUse)
        ensures
            final(self).a_ops == Some(ops),
            final(self).nrpages == old(self).nrpages,
    {
        self.a_ops = Some(ops);
    }
}

} // verus!
