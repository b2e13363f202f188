mod codec;
mod command;
mod errors;
mod model;
mod queue;
mod receiver;
mod sender;

pub use codec::{decode, encode, lemma_round_trip, spec_encode, spec_wellformed, HEADER_LEN};
pub use command::RawCommand;
pub use errors::{open_fail_reason, spec_open_fail_reason, IpcError, OpenFailReason};
pub use errors::{ERRNO_ACCES, ERRNO_EXIST, ERRNO_INVAL, ERRNO_NAMETOOLONG, ERRNO_NOENT};
pub use queue::{
    name_valid, spec_name_valid, AccessMode, QueueAttributes, QueueHandle, MAX_NAME_LEN,
};
pub use model::{
    delivery_order, lemma_delivery_is_permutation, lemma_fifo_tie_break,
    lemma_next_delivery_is_first_max,
    lemma_priority_ordering, lemma_two_messages, next_delivery,
};
pub use receiver::IpcReceiver;
pub use sender::IpcSender;
