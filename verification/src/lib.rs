//! Core on-disk logic for a FAT12/16 filesystem: boot-sector decoding and
//! validation, superblock geometry derivation, FAT timestamp conversion, and
//! the coarse time-truncation policy, all with machine-checked contracts.
//!
//! Block I/O, inode lifecycle and VFS registration are outside this crate;
//! the host driver hands plain values in and takes plain values back.

pub mod address_space;
pub mod arith;
pub mod block_device;
pub mod bootsector;
pub mod buffer_head;
pub mod dentry;
pub mod error;
pub mod file;
pub mod file_operations;
pub mod file_system;
pub mod inode;
pub mod kiocb;
pub mod super_block;
pub mod super_ops;
pub mod time;
pub mod types;
