use vstd::prelude::*;
use vstd::string::StrSliceExecFns;
use crate::errors::{open_fail_reason, IpcError, OpenFailReason, ERRNO_EXIST};
use nix::mqueue::MqdT;
use nix::mqueue::MQ_OFlag;
use nix::mqueue::MqAttr;
use nix::sys::stat::Mode;

verus! {

/// The kernel's descriptor for an open queue.  Opaque to this library and
/// deliberately not clonable, so each descriptor has a single owner.
#[verifier::external_type_specification]
#[verifier::external_body]
pub struct ExMqdT(MqdT);

/// Longest queue name the namespace accepts: the leading separator and at
/// most 254 further characters.
pub const MAX_NAME_LEN: usize = 255;

/// The namespace's rules for a queue name: it begins with the separator
/// `/`, contains no further separator and no terminator character, and
/// stays within the kernel's length limit.
pub open spec fn spec_name_valid(name: Seq<char>) -> bool {
    &&& 2 <= name.len() <= MAX_NAME_LEN
    &&& name[0] == '/'
    &&& forall|i: int| 1 <= i < name.len() ==> #[trigger] name[i] != '/' && name[i] != '\0'
}

/// Checks a queue name against the namespace's rules.
pub fn name_valid(name: &str) -> (r: bool)
    ensures
        r == spec_name_valid(name@),
{
    let len = name.unicode_len();
    if len < 2 || len > MAX_NAME_LEN {
        return false;
    }
    if name.get_char(0) != '/' {
        return false;
    }
    let mut i: usize = 1;
    while i < len
        invariant
            len == name@.len(),
            2 <= len <= MAX_NAME_LEN,
            1 <= i <= len,
            forall|j: int| 1 <= j < i ==> #[trigger] name@[j] != '/' && name@[j] != '\0',
        decreases len - i,
    {
        let c = name.get_char(i);
        if c == '/' || c == '\0' {
            return false;
        }
        i += 1;
    }
    true
}

/// The access with which an endpoint opens its descriptor.
#[derive(Clone, Copy, Debug, PartialEq, Eq, Structural)]
pub enum AccessMode {
    /// Messages can only be received through the descriptor.
    ReadOnly,
    /// Messages can only be sent through the descriptor.
    WriteOnly,
    /// Messages can be sent and received through the descriptor.
    ReadWrite,
}

/// The attributes a queue is created with, fixed for its whole lifetime.
#[derive(Clone, Copy, Debug, PartialEq, Eq, Structural)]
pub struct QueueAttributes {
    /// Greatest number of messages the queue holds at once.
    pub max_pending_messages: i64,
    /// Greatest length in bytes of a single message.
    pub max_message_size: i64,
}

impl QueueAttributes {
    /// The kernel accepts only positive bounds.
    pub open spec fn wf(&self) -> bool {
        self.max_pending_messages > 0 && self.max_message_size > 0
    }
}

/// Relies on nix::mqueue::mq_open: opens the named queue with the access
/// chosen by `read`/`write` and returns its descriptor, or the kernel's
/// error number.  With `create` the queue is created if absent — exclusively
/// so with `exclusive` — holding at most `max_pending` messages of at most
/// `max_size` bytes, with owner read/write permission.  The call never
/// panics; a name the kernel cannot take is reported as an error number.
#[verifier::external_body]
fn mq_open_raw(
    name: &str,
    read: bool,
    write: bool,
    create: bool,
    exclusive: bool,
    max_pending: i64,
    max_size: i64,
) -> (r: Result<MqdT, i32>) {
    let mut flags = if read && write {
        MQ_OFlag::O_RDWR
    } else if write {
        MQ_OFlag::O_WRONLY
    } else {
        MQ_OFlag::O_RDONLY
    };
    flags.set(MQ_OFlag::O_CREAT, create);
    flags.set(MQ_OFlag::O_EXCL, exclusive);
    let mode = Mode::S_IWUSR | Mode::S_IRUSR;
    let attr = MqAttr::new(0, max_pending, max_size, 0);
    let attr_opt = if create { Some(&attr) } else { None };
    nix::mqueue::mq_open(name, flags, mode, attr_opt).map_err(|e| e as i32)
}

/// Relies on nix::mqueue::mq_send: submits the bytes as one message with the
/// given priority, blocking while the queue is full; on failure it returns
/// the kernel's error number and the queue is unchanged.
#[verifier::external_body]
fn mq_send_raw(mqd: &MqdT, msg: &[u8], priority: u32) -> (r: Result<(), i32>) {
    nix::mqueue::mq_send(mqd, msg, priority).map_err(|e| e as i32)
}

/// Relies on nix::mqueue::mq_receive: blocks until a message is pending,
/// removes the one the kernel delivers first, copies its payload into the
/// start of the buffer and returns its length together with its priority.
/// The kernel rejects a buffer shorter than the queue's message size, so a
/// returned length never exceeds the buffer's; the buffer keeps its length.
#[verifier::external_body]
fn mq_receive_raw(mqd: &MqdT, buf: &mut Vec<u8>) -> (r: Result<(usize, u32), i32>)
    ensures
        final(buf)@.len() == old(buf)@.len(),
        r matches Ok(p) ==> p.0 <= final(buf)@.len(),
{
    let mut prio: u32 = 0;
    match nix::mqueue::mq_receive(mqd, buf.as_mut_slice(), &mut prio) {
        Ok(len) => Ok((len, prio)),
        Err(e) => Err(e as i32),
    }
}

/// Relies on nix::mqueue::mq_close: releases the descriptor, which the call
/// consumes; on failure it returns the kernel's error number.
#[verifier::external_body]
fn mq_close_raw(mqd: MqdT) -> (r: Result<(), i32>) {
    nix::mqueue::mq_close(mqd).map_err(|e| e as i32)
}

/// Relies on nix::mqueue::mq_unlink: removes the named queue from the kernel
/// namespace; descriptors already open on it keep working.  On failure it
/// returns the kernel's error number.
#[verifier::external_body]
fn mq_unlink_raw(name: &str) -> (r: Result<(), i32>) {
    nix::mqueue::mq_unlink(name).map_err(|e| e as i32)
}

/// Owns one kernel queue descriptor and mediates every interaction with the
/// queue namespace.  A handle is never duplicated, and `close` consumes it,
/// so the descriptor is released at most once and no operation can follow
/// the release.
pub struct QueueHandle {
    mqd: MqdT,
    created: bool,
}

impl QueueHandle {
    /// Whether the open that produced this handle created the queue, as
    /// opposed to attaching to one that already existed.
    pub closed spec fn spec_created(&self) -> bool {
        self.created
    }

    /// Whether this handle's open created the queue.
    pub fn created(&self) -> (r: bool)
        ensures
            r == self.spec_created(),
    {
        self.created
    }

    /// Opens the named queue with the given access, creating it with the
    /// given attributes if it is absent.  The name is checked first: a
    /// malformed one is rejected without consulting the kernel.  Creation is
    /// requested exclusively, so the handle records faithfully whether this
    /// call created the queue; when the name turns out to be taken, the call
    /// attaches to the existing queue instead.
    pub fn open_or_create(name: &str, attributes: QueueAttributes, access: AccessMode) -> (r:
        Result<QueueHandle, IpcError>)
        requires
            attributes.wf(),
        ensures
            !spec_name_valid(name@) ==> r == Err::<QueueHandle, IpcError>(
                IpcError::QueueOpenFailed(OpenFailReason::NameInvalid),
            ),
            r matches Err(e) ==> e matches IpcError::QueueOpenFailed(_),
            r matches Ok(h) ==> spec_name_valid(name@),
    {
        if !name_valid(name) {
            return Err(IpcError::QueueOpenFailed(OpenFailReason::NameInvalid));
        }
        let (read, write) = access_flags(access);
        match mq_open_raw(
            name,
            read,
            write,
            true,
            true,
            attributes.max_pending_messages,
            attributes.max_message_size,
        ) {
            Ok(mqd) => Ok(QueueHandle { mqd, created: true }),
            Err(e) => {
                if e == ERRNO_EXIST {
                    match mq_open_raw(name, read, write, false, false, 0, 0) {
                        Ok(mqd) => Ok(QueueHandle { mqd, created: false }),
                        Err(e2) => Err(IpcError::QueueOpenFailed(open_fail_reason(e2))),
                    }
                } else {
                    Err(IpcError::QueueOpenFailed(open_fail_reason(e)))
                }
            },
        }
    }

    /// Attaches to an already-existing queue; never creates one, so a client
    /// cannot bring a queue into being with attributes its owner never
    /// chose.  A malformed name is rejected without consulting the kernel,
    /// and a missing queue is reported as such.
    pub fn connect(name: &str, access: AccessMode) -> (r: Result<QueueHandle, IpcError>)
        ensures
            !spec_name_valid(name@) ==> r == Err::<QueueHandle, IpcError>(
                IpcError::QueueOpenFailed(OpenFailReason::NameInvalid),
            ),
            r matches Err(e) ==> e matches IpcError::QueueOpenFailed(_),
            r matches Ok(h) ==> spec_name_valid(name@) && !h.spec_created(),
    {
        if !name_valid(name) {
            return Err(IpcError::QueueOpenFailed(OpenFailReason::NameInvalid));
        }
        let (read, write) = access_flags(access);
        match mq_open_raw(name, read, write, false, false, 0, 0) {
            Ok(mqd) => Ok(QueueHandle { mqd, created: false }),
            Err(e) => Err(IpcError::QueueOpenFailed(open_fail_reason(e))),
        }
    }

    /// Releases the descriptor.  The handle is consumed, so release happens
    /// at most once and no queue operation can follow it.  A kernel failure
    /// during release is ignored: teardown must not fail.
    pub fn close(self) {
        let QueueHandle { mqd, created: _ } = self;
        let _ = mq_close_raw(mqd);
    }

    /// Removes the named queue from the kernel namespace.  Descriptors still
    /// open on the queue keep working; only the name goes away.  Meant for
    /// the endpoint that created the queue, at its teardown.
    pub fn unlink(name: &str) -> (r: Result<(), IpcError>)
        ensures
            r matches Err(e) ==> e matches IpcError::SystemCallFailed(_),
    {
        match mq_unlink_raw(name) {
            Ok(u) => Ok(u),
            Err(e) => Err(IpcError::SystemCallFailed(e)),
        }
    }

    /// Submits one message through this descriptor, blocking while the queue
    /// is full; a failure carries the kernel's error number.
    pub(crate) fn send_msg(&self, msg: &[u8], priority: u32) -> (r: Result<(), i32>) {
        mq_send_raw(&self.mqd, msg, priority)
    }

    /// Blocks until a message is pending, removes the one the kernel
    /// delivers first into the start of the buffer, and returns its length
    /// and priority; a failure carries the kernel's error number.
    pub(crate) fn receive_msg(&self, buf: &mut Vec<u8>) -> (r: Result<(usize, u32), i32>)
        ensures
            final(buf)@.len() == old(buf)@.len(),
            r matches Ok(p) ==> p.0 <= final(buf)@.len(),
    {
        mq_receive_raw(&self.mqd, buf)
    }
}

/// The read and write bits that an access mode asks of the kernel.
fn access_flags(access: AccessMode) -> (r: (bool, bool))
    ensures
        r.0 == (access == AccessMode::ReadOnly || access == AccessMode::ReadWrite),
        r.1 == (access == AccessMode::WriteOnly || access == AccessMode::ReadWrite),
{
    match access {
        AccessMode::ReadOnly => (true, false),
        AccessMode::WriteOnly => (false, true),
        AccessMode::ReadWrite => (true, true),
    }
}

} // verus!
