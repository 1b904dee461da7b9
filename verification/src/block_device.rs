//! The block-device state the mount path consults, as plain values.

use vstd::prelude::*;

verus! {

/// The slice of a block device this core reasons about.
#[derive(Clone, Copy, PartialEq, Eq, Structural, Debug)]
pub struct BlockDevice {
    /// The device's current logical block size in bytes.
    pub block_size: u64,
}

} // verus!
