//! File-operation plumbing shared with the host: seek positions, the
//! dispatch table the driver declares, and ioctl command decoding.

use vstd::prelude::*;

verus! {

use crate::error::Error;

/// C `whence` value for seeking from the start of the file.
pub const SEEK_SET: u32 = 0;

/// C `whence` value for seeking from the current position.
pub const SEEK_CUR: u32 = 1;

/// C `whence` value for seeking from the end of the file.
pub const SEEK_END: u32 = 2;

/// Where a seek starts from.
#[derive(Clone, Copy, PartialEq, Eq, Structural, Debug)]
pub enum SeekFrom {
    /// An absolute position.
    Start(u64),
    /// An offset from the end of the file.
    End(i64),
    /// An offset from the current position.
    Current(i64),
}

impl SeekFrom {
    /// The (position, whence) pair the C seek interface takes.
    pub fn into_pos_and_whence(self) -> (r: (i64, u32))
        ensures
            self matches SeekFrom::Start(off) ==> r == (off as i64, SEEK_SET),
            self matches SeekFrom::End(off) ==> r == (off, SEEK_END),
            self matches SeekFrom::Current(off) ==> r == (off, SEEK_CUR),
    {
        match self {
            SeekFrom::Start(off) => (off as i64, SEEK_SET),
            SeekFrom::End(off) => (off, SEEK_END),
            SeekFrom::Current(off) => (off, SEEK_CUR),
        }
    }
}

/// Which file operations the driver fills into its dispatch table.
#[derive(Clone, Copy, PartialEq, Eq, Structural, Debug)]
pub struct ToUse {
    pub read_iter: bool,
    pub write_iter: bool,
    pub seek: bool,
    pub ioctl: bool,
    pub compat_ioctl: bool,
    pub fsync: bool,
    pub mmap: bool,
    pub splice_read: bool,
    pub splice_write: bool,
    pub allocate_file: bool,
    pub release: bool,
}

/// Direction field of an ioctl command: bits 31-30.
pub const IOC_DIRSHIFT: u32 = 30;

/// Mask of the direction field, after the shift.
pub const IOC_DIRMASK: u32 = 3;

/// Direction value of an ioctl without a buffer.
pub const IOC_NONE: u32 = 0;

/// Direction value of an ioctl that reads a user buffer.
pub const IOC_WRITE: u32 = 1;

/// Direction value of an ioctl that fills a user buffer.
pub const IOC_READ: u32 = 2;

/// Handlers for the four ioctl buffer directions. Every direction a
/// driver leaves unimplemented reports an invalid argument.
pub trait IoctlHandler {
    /// Handles an ioctl without a buffer.
    fn pure(&self, cmd: u32, arg: usize) -> Result<i32, Error>;

    /// Handles an ioctl that fills the given output buffer.
    fn read(&self, cmd: u32, writer: &mut Vec<u8>) -> Result<i32, Error>;

    /// Handles an ioctl that consumes the given input buffer.
    fn write(&self, cmd: u32, reader: &Vec<u8>) -> Result<i32, Error>;

    /// Handles an ioctl that both consumes and fills the given buffer.
    fn read_write(&self, cmd: u32, data: &mut Vec<u8>) -> Result<i32, Error>;
}

/// An ioctl command: the raw command word, the pointer-sized argument,
/// and the user buffer the command's size field described, which a
/// dispatch consumes.
pub struct IoctlCommand {
    pub cmd: u32,
    pub arg: usize,
    pub user_slice: Option<Vec<u8>>,
}

impl IoctlCommand {
    /// Routes the command to the handler for its direction bits. The
    /// buffer is handed over at most once; a buffered direction without a
    /// buffer left reports an invalid argument.
    pub fn dispatch<T: IoctlHandler>(&mut self, handler: &T) -> (r: Result<i32, Error>)
        ensures
            final(self).cmd == old(self).cmd,
            final(self).arg == old(self).arg,
    {
        let dir: u32 = (self.cmd >> IOC_DIRSHIFT) & IOC_DIRMASK;
        if dir == IOC_NONE {
            return handler.pure(self.cmd, self.arg);
        }

        let taken: Option<Vec<u8>> = self.user_slice.take();
        let mut data: Vec<u8> = match taken {
            Some(d) => d,
            None => {
                return Err(Error::einval());
            },
        };
        if dir == IOC_WRITE {
            handler.write(self.cmd, &data)
        } else if dir == IOC_READ {
            handler.read(self.cmd, &mut data)
        } else if dir == IOC_READ | IOC_WRITE {
            handler.read_write(self.cmd, &mut data)
        } else {
            Err(Error::einval())
        }
    }

    /// The raw command word and the pointer-sized argument.
    pub fn raw(&self) -> (r: (u32, usize))
        ensures
            r == (self.cmd, self.arg),
    {
        (self.cmd, self.arg)
    }
}

} // verus!
