use vstd::prelude::*;
use crate::codec::{encode, HEADER_LEN};
use crate::command::{lemma_raw_command_view, RawCommand};
use crate::errors::{IpcError, OpenFailReason};
use crate::queue::{spec_name_valid, AccessMode, QueueHandle};

verus! {

/// The sending endpoint.  It attaches to a queue some receiving endpoint
/// created — never creating one itself — and exposes a typed send with an
/// explicit priority.  On teardown it releases only its own descriptor and
/// never removes the queue from the namespace.
pub struct IpcSender<const MESSAGE_SIZE: usize> {
    handle: QueueHandle,
}

impl<const MESSAGE_SIZE: usize> IpcSender<MESSAGE_SIZE> {
    /// Attaches to the already-existing queue of the given name.  Fails if
    /// no such queue exists; never creates one, so a client cannot bring a
    /// queue into being with attributes its owner never chose.
    pub fn connect_to_queue(name: &str) -> (r: Result<Self, IpcError>)
        ensures
            !spec_name_valid(name@) ==> r == Err::<Self, IpcError>(
                IpcError::QueueOpenFailed(OpenFailReason::NameInvalid),
            ),
            r matches Err(e) ==> e matches IpcError::QueueOpenFailed(_),
    {
        match QueueHandle::connect(name, AccessMode::ReadWrite) {
            Ok(handle) => Ok(IpcSender { handle }),
            Err(e) => Err(e),
        }
    }

    /// Submits an already-encoded payload with the given priority, blocking
    /// while the queue is full.  A payload longer than the queue's message
    /// size is rejected — exactly then — before anything is transmitted.
    pub fn send_bytes(&self, payload: &[u8], priority: u32) -> (r: Result<(), IpcError>)
        ensures
            (r == Err::<(), IpcError>(IpcError::MessageTooLarge)) <==> payload@.len()
                > MESSAGE_SIZE,
            r matches Err(e) ==> (e == IpcError::MessageTooLarge || e matches
                IpcError::SystemCallFailed(_)),
    {
        if payload.len() > MESSAGE_SIZE {
            return Err(IpcError::MessageTooLarge);
        }
        match self.handle.send_msg(payload, priority) {
            Ok(u) => Ok(u),
            Err(e) => Err(IpcError::SystemCallFailed(e)),
        }
    }

    /// Encodes the command and submits it with the given priority, blocking
    /// while the queue is full.  A command whose wire form would exceed the
    /// queue's message size is rejected — exactly then — before anything is
    /// transmitted, so no receiver ever observes it.
    pub fn send(&self, command: &RawCommand, priority: u32) -> (r: Result<(), IpcError>)
        ensures
            (r == Err::<(), IpcError>(IpcError::MessageTooLarge)) <==> HEADER_LEN + command@.1.len()
                > MESSAGE_SIZE,
            r matches Err(e) ==> (e == IpcError::MessageTooLarge || e matches
                IpcError::SystemCallFailed(_)),
    {
        proof {
            lemma_raw_command_view(command);
        }
        if MESSAGE_SIZE < HEADER_LEN || command.data.len() > MESSAGE_SIZE - HEADER_LEN {
            return Err(IpcError::MessageTooLarge);
        }
        let bytes = encode(command);
        match self.handle.send_msg(bytes.as_slice(), priority) {
            Ok(u) => Ok(u),
            Err(e) => Err(IpcError::SystemCallFailed(e)),
        }
    }

    /// Tears the endpoint down: releases its own descriptor and nothing
    /// else — a sending endpoint never removes the queue from the
    /// namespace.  Consuming the endpoint, teardown happens at most once,
    /// and no send can follow it; kernel failures during cleanup are
    /// ignored rather than propagated.
    pub fn close(self) {
        let IpcSender { handle } = self;
        handle.close();
    }
}

} // verus!
