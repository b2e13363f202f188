use vstd::prelude::*;

verus! {

/// Kernel error number for a missing name (Linux `ENOENT`).
pub const ERRNO_NOENT: i32 = 2;

/// Kernel error number for a denied permission (Linux `EACCES`).
pub const ERRNO_ACCES: i32 = 13;

/// Kernel error number for a name that is already taken (Linux `EEXIST`).
pub const ERRNO_EXIST: i32 = 17;

/// Kernel error number for an invalid argument (Linux `EINVAL`).
pub const ERRNO_INVAL: i32 = 22;

/// Kernel error number for an over-long name (Linux `ENAMETOOLONG`).
pub const ERRNO_NAMETOOLONG: i32 = 36;

/// Why opening or creating a named queue failed.
#[derive(Clone, Copy, Debug, PartialEq, Eq, Structural)]
pub enum OpenFailReason {
    /// The name does not satisfy the namespace's rules.
    NameInvalid,
    /// Exclusive creation was requested, but the name is already taken.
    AlreadyExists,
    /// Connection to an existing queue was requested, but none of that name exists.
    DoesNotExist,
    /// The caller lacks the permission matching its requested access mode.
    PermissionDenied,
    /// Any other kernel-reported open failure, carrying its error number.
    Other(i32),
}

/// Every failure this layer reports to its callers.
#[derive(Clone, Copy, Debug, PartialEq, Eq, Structural)]
pub enum IpcError {
    /// The queue could not be opened, created, or connected to.
    QueueOpenFailed(OpenFailReason),
    /// The encoded value is longer than the queue's maximum message size;
    /// nothing was transmitted.
    MessageTooLarge,
    /// A received payload is not a well-formed encoding of a command.
    /// The message has still been consumed from the queue.
    DeserializationFailed,
    /// Any other kernel-reported failure, carrying its error number.
    SystemCallFailed(i32),
}

/// The open-failure reason that a kernel error number stands for.
pub open spec fn spec_open_fail_reason(errno: i32) -> OpenFailReason {
    if errno == ERRNO_NOENT {
        OpenFailReason::DoesNotExist
    } else if errno == ERRNO_ACCES {
        OpenFailReason::PermissionDenied
    } else if errno == ERRNO_EXIST {
        OpenFailReason::AlreadyExists
    } else if errno == ERRNO_INVAL || errno == ERRNO_NAMETOOLONG {
        OpenFailReason::NameInvalid
    } else {
        OpenFailReason::Other(errno)
    }
}

/// Interprets the error number of a failed open call.
pub fn open_fail_reason(errno: i32) -> (r: OpenFailReason)
    ensures
        r == spec_open_fail_reason(errno),
{
    if errno == ERRNO_NOENT {
        OpenFailReason::DoesNotExist
    } else if errno == ERRNO_ACCES {
        OpenFailReason::PermissionDenied
    } else if errno == ERRNO_EXIST {
        OpenFailReason::AlreadyExists
    } else if errno == ERRNO_INVAL || errno == ERRNO_NAMETOOLONG {
        OpenFailReason::NameInvalid
    } else {
        OpenFailReason::Other(errno)
    }
}

} // verus!
