//! Error model of the library.
//!
//! Every fallible operation reports one of these variants. The text that a
//! variant displays is produced outside the verified library; the data each
//! variant carries is fixed here.

use vstd::prelude::*;

verus! {

/// The error a string conversion reports when the text holds a NUL byte and
/// therefore cannot be handed to C as a string.
#[derive(Debug, Clone)]
pub struct NulError {
    /// Index of the first NUL byte.
    pub nul_position: usize,
    /// The bytes of the text that was rejected.
    pub bytes: Vec<u8>,
}

impl NulError {
    /// Position of the NUL byte that caused the conversion to fail.
    pub fn nul_position(&self) -> (p: usize)
        ensures
            p == self.nul_position,
    {
        self.nul_position
    }

    /// The bytes of the rejected text.
    pub fn into_vec(self) -> (v: Vec<u8>)
        ensures
            v@ == self.bytes@,
    {
        self.bytes
    }
}

/// Error type of the library.
#[derive(Debug, Clone)]
pub enum Error {
    /// SPDK environment initialization failed.
    EnvInit(String),
    /// SPDK environment already initialized.
    AlreadyInitialized,
    /// SPDK environment not initialized.
    NotInitialized,
    /// Invalid argument provided.
    InvalidArgument(String),
    /// A string handed to SPDK contains a NUL byte.
    NulError(NulError),
    /// An I/O operation failed.
    IoError,
    /// Device not found.
    DeviceNotFound(String),
    /// I/O channel allocation failed.
    ChannelAlloc,
    /// Memory allocation failed.
    MemoryAlloc,
    /// Operation was cancelled.
    Cancelled,
    /// OS error with errno.
    Os(i32),
    /// DMA buffer allocation of the given size failed.
    DmaAlloc(usize),
    /// No NVMe controller could be attached.
    ControllerNotFound,
    /// NVMe I/O queue pair allocation failed.
    QpairAlloc,
    /// An NVMe command completed with a non-success status.
    NvmeError { sct: u8, sc: u8 },
    /// A spawned thread panicked.
    ThreadPanic,
}

/// The error code for "invalid argument".
pub const EINVAL: i32 = 22;

/// The error code for "try again": an operation is still in progress.
pub const EAGAIN: i32 = 11;

/// The errno that an SPDK return code carries: its magnitude.
pub open spec fn rc_errno(rc: int) -> int {
    if rc < 0 {
        -rc
    } else {
        rc
    }
}

impl Error {
    /// Create an OS error from errno.
    pub fn from_errno(errno: i32) -> (e: Error)
        ensures
            e == Error::Os(errno),
    {
        Error::Os(errno)
    }

    /// Create an error from an SPDK return code, which is a negative errno;
    /// a positive code is taken as the errno itself.
    pub fn from_rc(rc: i32) -> (e: Error)
        requires
            rc != i32::MIN,
        ensures
            e == Error::Os(rc_errno(rc as int) as i32),
    {
        if rc < 0 {
            Error::Os(-rc)
        } else {
            Error::Os(rc)
        }
    }
}

/// The result of an SPDK completion callback that reports a status code:
/// zero is success, anything else is a negative errno.
pub fn status_result(status: i32) -> (r: Result<(), Error>)
    requires
        status != i32::MIN,
    ensures
        status == 0 ==> r == Ok::<(), Error>(()),
        status != 0 ==> r == Err::<(), Error>(Error::Os(-status as i32)),
{
    if status == 0 {
        Ok(())
    } else {
        Err(Error::from_errno(-status))
    }
}

/// The result of an SPDK call that returns a negative errno on failure and
/// zero on success.
pub fn neg_errno_result(rc: i32) -> (r: Result<(), Error>)
    requires
        rc != i32::MIN,
    ensures
        rc == 0 ==> r == Ok::<(), Error>(()),
        rc != 0 ==> r == Err::<(), Error>(Error::Os(-rc as i32)),
{
    status_result(rc)
}

/// Law: an SPDK return code and its negation name the same OS error.
pub proof fn lemma_from_rc_sign_insensitive(rc: i32)
    requires
        rc != i32::MIN,
    ensures
        rc_errno(rc as int) == rc_errno(-rc),
        rc_errno(rc as int) >= 0,
{
}

} // verus!
