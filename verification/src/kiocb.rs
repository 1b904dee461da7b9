//! Kernel I/O control-block state shared with the host, as plain values:
//! the file position a read or write iterates from.

use vstd::prelude::*;

verus! {

/// The slice of an I/O control block this core reasons about.
#[derive(Clone, Copy, PartialEq, Eq, Structural, Debug)]
pub struct Kiocb {
    /// Current position of the iterated I/O.
    pub ki_pos: u64,
}

impl Kiocb {
    /// The current position.
    pub fn get_offset(&self) -> (r: u64)
        ensures
            r == self.ki_pos,
    {
        self.ki_pos
    }

    /// Moves the position.
    pub fn set_offset(&mut self, offset: u64)
        ensures
            final(self).ki_pos == offset,
    {
        self.ki_pos = offset;
    }
}

} // verus!
