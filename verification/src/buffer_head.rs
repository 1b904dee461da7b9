//! A block read from the device, as plain values: its block number and
//! its bytes. The host's buffer cache owns the real buffer.

use vstd::prelude::*;

verus! {

/// One cached device block.
pub struct BufferHead {
    /// Block number on the device.
    pub b_blocknr: u64,
    /// The block's bytes; the length is the block size it was read with.
    pub b_data: Vec<u8>,
}

impl BufferHead {
    /// The block's size in bytes.
    pub fn b_size(&self) -> (r: usize)
        ensures
            r == self.b_data@.len(),
    {
        self.b_data.len()
    }
}

} // verus!
