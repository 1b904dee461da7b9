//! Error values for the FAT core, modelled on integer kernel error codes.
//!
//! Two top-level failure kinds exist during a mount: the device simply does
//! not hold a recognizable FAT filesystem (an invalid format, reported as
//! `EINVAL`), and operational failures such as I/O errors or exhausted
//! memory, which carry their own code.

use vstd::prelude::*;

verus! {

/// The largest magnitude a kernel error code may have.
pub const MAX_ERRNO: i32 = 4095;

/// Generic integer kernel error.
///
/// The wrapped value is a valid errno: negative, and no smaller than
/// `-MAX_ERRNO`.
#[derive(Clone, Copy, PartialEq, Eq, Structural, Debug)]
pub struct Error(i32);

impl Error {
    /// The wrapped error code, as a mathematical integer.
    pub closed spec fn code(self) -> int {
        self.0 as int
    }

    /// Every constructor keeps the code inside the valid errno range.
    pub open spec fn is_valid(self) -> bool {
        -MAX_ERRNO <= self.code() < 0
    }

    /// Invalid argument: the boot sector or geometry is not a valid FAT format.
    pub fn einval() -> (e: Error)
        ensures
            e.code() == -22,
            e.is_valid(),
    {
        Error(-22)
    }

    /// Input/output error.
    pub fn eio() -> (e: Error)
        ensures
            e.code() == -5,
            e.is_valid(),
    {
        Error(-5)
    }

    /// Out of memory.
    pub fn enomem() -> (e: Error)
        ensures
            e.code() == -12,
            e.is_valid(),
    {
        Error(-12)
    }

    /// No space left on device.
    pub fn enospc() -> (e: Error)
        ensures
            e.code() == -28,
            e.is_valid(),
    {
        Error(-28)
    }

    /// Operation not supported.
    pub fn eopnotsupp() -> (e: Error)
        ensures
            e.code() == -95,
            e.is_valid(),
    {
        Error(-95)
    }

    /// Creates an [`Error`] from a kernel error code; an out-of-range code
    /// falls back to `EINVAL`.
    pub fn from_kernel_errno(errno: i32) -> (e: Error)
        ensures
            e.is_valid(),
            -MAX_ERRNO <= errno < 0 ==> e.code() == errno,
            !(-MAX_ERRNO <= errno < 0) ==> e.code() == -22,
    {
        if errno < -MAX_ERRNO || errno >= 0 {
            return Error::einval();
        }
        Error(errno)
    }

    /// Returns the kernel error code.
    pub fn to_kernel_errno(self) -> (r: i32)
        ensures
            r as int == self.code(),
    {
        self.0
    }
}

/// How a mount attempt fails: the volume is not a recognizable FAT
/// filesystem (recoverable, the mount is simply refused), or an underlying
/// operational error that is propagated as it stands.
#[derive(Clone, Copy, PartialEq, Eq, Structural, Debug)]
pub enum FillSuperErrorKind {
    /// Bad format: reported to the caller as `EINVAL`.
    Invalid,
    /// An I/O or allocation failure with its own code.
    Fail(Error),
}

impl FillSuperErrorKind {
    /// The single error value a failed mount reports for this kind.
    pub fn to_error(self) -> (e: Error)
        ensures
            self is Invalid ==> e.code() == -22,
            forall|inner: Error| self == FillSuperErrorKind::Fail(inner) ==> e == inner,
    {
        match self {
            FillSuperErrorKind::Invalid => Error::einval(),
            FillSuperErrorKind::Fail(e) => e,
        }
    }
}

/// Transforms a result into a kernel C integer result: the value itself on
/// success, the negative error code on failure.
pub fn from_kernel_result_helper(r: Result<i64, Error>) -> (v: i64)
    ensures
        forall|x: i64| r == Ok::<i64, Error>(x) ==> v == x,
        forall|e: Error| r == Err::<i64, Error>(e) ==> v as int == e.code(),
{
    match r {
        Ok(x) => x,
        Err(e) => e.to_kernel_errno() as i64,
    }
}

} // verus!
