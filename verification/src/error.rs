//! Error codes of drivers, the status domain of the block layer, and the
//! violations of the bridging contract that the trampolines detect.

use vstd::prelude::*;

verus! {

/// Largest magnitude of an error number.
pub const MAX_ERRNO: i32 = 4095;

/// I/O error.
pub const EIO: i32 = 5;

/// No such device or address.
pub const ENXIO: i32 = 6;

/// Try again.
pub const EAGAIN: i32 = 11;

/// Out of memory.
pub const ENOMEM: i32 = 12;

/// Device or resource busy.
pub const EBUSY: i32 = 16;

/// Invalid argument.
pub const EINVAL: i32 = 22;

/// No space left on device.
pub const ENOSPC: i32 = 28;

/// Invalid exchange.
pub const EBADE: i32 = 52;

/// No data available.
pub const ENODATA: i32 = 61;

/// Link has been severed.
pub const ENOLINK: i32 = 67;

/// Illegal byte sequence.
pub const EILSEQ: i32 = 84;

/// Operation not supported.
pub const EOPNOTSUPP: i32 = 95;

/// Connection timed out.
pub const ETIMEDOUT: i32 = 110;

/// Remote I/O error.
pub const EREMOTEIO: i32 = 121;

/// Whether `errno` is a negated error number, the form in which errors cross
/// the boundary to the block layer.
pub open spec fn valid_errno(errno: int) -> bool {
    -(MAX_ERRNO as int) <= errno < 0
}

/// The error number that `Error::from_errno` keeps for `errno`: the number
/// itself where it is valid, and that of an invalid argument where it is not.
pub open spec fn normalized_errno(errno: int) -> int {
    if valid_errno(errno) {
        errno
    } else {
        -(EINVAL as int)
    }
}

/// An error reported by a driver: a negated error number between
/// `-MAX_ERRNO` and `-1`.
#[derive(Clone, Copy, Debug, PartialEq, Eq, Structural)]
pub struct Error {
    errno: i32,
}

impl View for Error {
    type V = int;

    /// The negated error number.
    closed spec fn view(&self) -> int {
        self.errno as int
    }
}

impl Error {
    #[verifier::type_invariant]
    spec fn in_range(self) -> bool {
        valid_errno(self.errno as int)
    }

    /// Makes an error from a negated error number. A number out of range is
    /// a defect of the caller and gives the error of an invalid argument.
    pub fn from_errno(errno: i32) -> (e: Error)
        ensures
            e@ == normalized_errno(errno as int),
            valid_errno(e@),
    {
        if errno < -MAX_ERRNO || errno >= 0 {
            Error { errno: -EINVAL }
        } else {
            Error { errno }
        }
    }

    /// The negated error number, as it is returned to the block layer.
    pub fn to_errno(&self) -> (errno: i32)
        ensures
            errno as int == self@,
            valid_errno(errno as int),
    {
        proof {
            use_type_invariant(self);
        }
        self.errno
    }

    /// The status that the block layer is given for this error.
    pub fn to_blk_status(&self) -> (status: BlkStatus)
        ensures
            status == errno_to_blk_status(self@),
            status != BlkStatus::Success,
    {
        let errno: i32 = self.to_errno();
        if errno == -EOPNOTSUPP {
            BlkStatus::NotSupp
        } else if errno == -ETIMEDOUT {
            BlkStatus::Timeout
        } else if errno == -ENOSPC {
            BlkStatus::NoSpc
        } else if errno == -ENOLINK {
            BlkStatus::Transport
        } else if errno == -EREMOTEIO {
            BlkStatus::Target
        } else if errno == -EBADE {
            BlkStatus::ResvConflict
        } else if errno == -ENODATA {
            BlkStatus::Medium
        } else if errno == -EILSEQ {
            BlkStatus::Protection
        } else if errno == -ENOMEM {
            BlkStatus::Resource
        } else if errno == -EAGAIN {
            BlkStatus::Again
        } else if errno == -EBUSY {
            BlkStatus::DevResource
        } else {
            BlkStatus::IoErr
        }
    }
}

/// The status of a submission in the block layer's domain.
#[derive(Clone, Copy, Debug, PartialEq, Eq, Structural)]
pub enum BlkStatus {
    /// The request was accepted.
    Success,
    /// The operation is not supported.
    NotSupp,
    /// The device timed out.
    Timeout,
    /// The device has no space left.
    NoSpc,
    /// The transport failed and may recover.
    Transport,
    /// The target failed.
    Target,
    /// A reservation conflicts.
    ResvConflict,
    /// The medium failed.
    Medium,
    /// Protection information did not match.
    Protection,
    /// The system is short of a resource.
    Resource,
    /// Any other I/O error.
    IoErr,
    /// The request would block and should be tried again.
    Again,
    /// The device is short of a resource: it is busy.
    DevResource,
}

/// The status for a negated error number: the one status that stands for that
/// number, and `IoErr` for every number that has none of its own.
pub open spec fn errno_to_blk_status(errno: int) -> BlkStatus {
    if errno == -(EOPNOTSUPP as int) {
        BlkStatus::NotSupp
    } else if errno == -(ETIMEDOUT as int) {
        BlkStatus::Timeout
    } else if errno == -(ENOSPC as int) {
        BlkStatus::NoSpc
    } else if errno == -(ENOLINK as int) {
        BlkStatus::Transport
    } else if errno == -(EREMOTEIO as int) {
        BlkStatus::Target
    } else if errno == -(EBADE as int) {
        BlkStatus::ResvConflict
    } else if errno == -(ENODATA as int) {
        BlkStatus::Medium
    } else if errno == -(EILSEQ as int) {
        BlkStatus::Protection
    } else if errno == -(ENOMEM as int) {
        BlkStatus::Resource
    } else if errno == -(EAGAIN as int) {
        BlkStatus::Again
    } else if errno == -(EBUSY as int) {
        BlkStatus::DevResource
    } else {
        BlkStatus::IoErr
    }
}

/// The number by which the block layer knows a status.
pub open spec fn blk_status_code(status: BlkStatus) -> int {
    match status {
        BlkStatus::Success => 0,
        BlkStatus::NotSupp => 1,
        BlkStatus::Timeout => 2,
        BlkStatus::NoSpc => 3,
        BlkStatus::Transport => 4,
        BlkStatus::Target => 5,
        BlkStatus::ResvConflict => 6,
        BlkStatus::Medium => 7,
        BlkStatus::Protection => 8,
        BlkStatus::Resource => 9,
        BlkStatus::IoErr => 10,
        BlkStatus::Again => 12,
        BlkStatus::DevResource => 13,
    }
}

impl BlkStatus {
    /// The number by which the block layer knows this status: zero for
    /// success and for nothing else.
    pub fn code(&self) -> (code: u8)
        ensures
            code as int == blk_status_code(*self),
            code == 0 <==> *self == BlkStatus::Success,
    {
        match self {
            BlkStatus::Success => 0,
            BlkStatus::NotSupp => 1,
            BlkStatus::Timeout => 2,
            BlkStatus::NoSpc => 3,
            BlkStatus::Transport => 4,
            BlkStatus::Target => 5,
            BlkStatus::ResvConflict => 6,
            BlkStatus::Medium => 7,
            BlkStatus::Protection => 8,
            BlkStatus::Resource => 9,
            BlkStatus::IoErr => 10,
            BlkStatus::Again => 12,
            BlkStatus::DevResource => 13,
        }
    }

    /// Whether this status reports success.
    pub fn is_ok(&self) -> (ok: bool)
        ensures
            ok <==> *self == BlkStatus::Success,
    {
        match self {
            BlkStatus::Success => true,
            _ => false,
        }
    }
}

/// A breach of the bridging contract by the caller of a trampoline. A
/// trampoline that detects one changes nothing and calls no driver code.
#[derive(Clone, Copy, Debug, PartialEq, Eq, Structural)]
pub enum Violation {
    /// A request was handed over whose reference count is zero: it has
    /// already been retired.
    ZeroRefcount,
    /// A reference was given up, or handed to the driver, that does not
    /// exist or is not its holder's to give.
    RefcountUnderflow,
    /// The request's payload has not been constructed, or has been destroyed.
    PayloadNotLive,
    /// The request's payload has been constructed before.
    PayloadNotVacant,
    /// The request is in use: the block layer issues it while references to
    /// it remain, retires it from the pool while references remain, or
    /// gives up its last reference while the driver still holds one.
    RequestBusy,
    /// The hardware context has not been constructed, or has been torn down.
    ContextNotActive,
    /// The hardware context is constructed while it is active.
    ContextActive,
    /// The hardware context is constructed again in a slot in which its
    /// construction failed.
    ContextFailed,
    /// The driver does not implement the operation.
    Unsupported,
}

/// The number that a fallible constructor's outcome gives to the block layer:
/// zero for success, the negated error number for a failure.
pub open spec fn errno_of_result(failure: Option<Error>) -> int {
    match failure {
        None => 0,
        Some(e) => e@,
    }
}

} // verus!
