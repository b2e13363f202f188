use vstd::prelude::*;
use vstd::slice::{slice_subrange, slice_to_vec};
use crate::codec::{decode, spec_wellformed, HEADER_LEN};
use crate::command::RawCommand;
use crate::errors::{IpcError, OpenFailReason};
use crate::queue::{spec_name_valid, AccessMode, QueueAttributes, QueueHandle};

verus! {

/// The receiving endpoint.  It opens the named queue with create-or-attach
/// semantics — becoming the queue's owner exactly when the open created it —
/// and exposes a blocking typed receive.  On teardown it releases its
/// descriptor and, only as the owner, removes the queue from the namespace.
pub struct IpcReceiver<const MESSAGE_SIZE: usize> {
    handle: QueueHandle,
    name: &'static str,
    buffer: Vec<u8>,
}

impl<const MESSAGE_SIZE: usize> IpcReceiver<MESSAGE_SIZE> {
    /// The endpoint's scratch buffer is sized to the queue's message size,
    /// reused across receives; it is no part of the public contract.
    pub closed spec fn wf(&self) -> bool {
        self.buffer@.len() == MESSAGE_SIZE
    }

    /// Whether this endpoint created the queue, and so owes its removal.
    pub closed spec fn spec_owner(&self) -> bool {
        self.handle.spec_created()
    }

    /// The name this endpoint opened, kept for removal at teardown.
    pub closed spec fn spec_name(&self) -> Seq<char> {
        self.name@
    }

    /// Whether this endpoint created the queue, and so owes its removal.
    pub fn is_owner(&self) -> (r: bool)
        ensures
            r == self.spec_owner(),
    {
        self.handle.created()
    }

    /// Opens the named queue for reading, creating it if absent with room
    /// for `capacity` pending messages of at most `MESSAGE_SIZE` bytes.  A
    /// malformed name is rejected as such without consulting the kernel.
    /// The endpoint records whether it created the queue; only then will
    /// its teardown remove the name.
    pub fn init(name: &'static str, capacity: i64) -> (r: Result<Self, IpcError>)
        requires
            0 < capacity,
            0 < MESSAGE_SIZE <= i64::MAX,
        ensures
            !spec_name_valid(name@) ==> r == Err::<Self, IpcError>(
                IpcError::QueueOpenFailed(OpenFailReason::NameInvalid),
            ),
            r matches Err(e) ==> e matches IpcError::QueueOpenFailed(_),
            r matches Ok(ep) ==> ep.wf() && spec_name_valid(name@) && ep.spec_name() == name@,
    {
        let attributes = QueueAttributes {
            max_pending_messages: capacity,
            max_message_size: MESSAGE_SIZE as i64,
        };
        match QueueHandle::open_or_create(name, attributes, AccessMode::ReadOnly) {
            Ok(handle) => {
                let buffer: Vec<u8> = vec![0u8; MESSAGE_SIZE];
                Ok(IpcReceiver { handle, name, buffer })
            },
            Err(e) => Err(e),
        }
    }

    /// Blocks until a message is pending, removes the one the kernel
    /// delivers first — highest priority, first-in first-out among equals —
    /// and returns its payload with the priority it was sent under.  The
    /// payload never exceeds `MESSAGE_SIZE` bytes.
    pub fn receive_bytes(&mut self) -> (r: Result<(Vec<u8>, u32), IpcError>)
        requires
            old(self).wf(),
        ensures
            final(self).wf(),
            final(self).spec_owner() == old(self).spec_owner(),
            final(self).spec_name() == old(self).spec_name(),
            r matches Ok(p) ==> p.0@.len() <= MESSAGE_SIZE,
            r matches Err(e) ==> e matches IpcError::SystemCallFailed(_),
    {
        match self.handle.receive_msg(&mut self.buffer) {
            Ok((len, priority)) => {
                let payload = slice_to_vec(slice_subrange(self.buffer.as_slice(), 0, len));
                Ok((payload, priority))
            },
            Err(e) => Err(IpcError::SystemCallFailed(e)),
        }
    }

    /// Blocks until a message is pending, removes the one the kernel
    /// delivers first, and decodes its payload into a command.  A payload
    /// that is not a well-formed encoding yields a decode failure — the
    /// message is still consumed, with no retry and no peek.  Every command
    /// returned is the decoding of some well-formed payload that fits the
    /// queue's message size.
    pub fn receive(&mut self) -> (r: Result<RawCommand, IpcError>)
        requires
            old(self).wf(),
        ensures
            final(self).wf(),
            final(self).spec_owner() == old(self).spec_owner(),
            final(self).spec_name() == old(self).spec_name(),
            r matches Ok(c) ==> exists|b: Seq<u8>|
                b.len() <= MESSAGE_SIZE && #[trigger] spec_wellformed(b) && c@ == (
                    b[0],
                    b.skip(HEADER_LEN as int),
                ),
            r matches Err(e) ==> (e == IpcError::DeserializationFailed || e matches
                IpcError::SystemCallFailed(_)),
    {
        match self.receive_bytes() {
            Ok((payload, _priority)) => {
                let r = decode(payload.as_slice());
                proof {
                    if r is Ok {
                        assert(spec_wellformed(payload@));
                    }
                }
                r
            },
            Err(e) => Err(e),
        }
    }

    /// Tears the endpoint down: releases its descriptor and, exactly when
    /// this endpoint created the queue, removes the name from the kernel
    /// namespace.  Returns whether removal was performed.  An endpoint that
    /// merely attached never removes the queue.  Consuming the endpoint,
    /// teardown happens at most once, and no receive can follow it; kernel
    /// failures during cleanup are ignored rather than propagated.
    pub fn close(self) -> (removed: bool)
        ensures
            removed == self.spec_owner(),
    {
        let IpcReceiver { handle, name, buffer: _ } = self;
        let owner = handle.created();
        handle.close();
        if owner {
            let _ = QueueHandle::unlink(name);
            true
        } else {
            false
        }
    }
}

} // verus!
