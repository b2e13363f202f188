use vstd::prelude::*;
use vstd::bytes::{
    lemma_auto_spec_u64_to_from_le_bytes, spec_u64_from_le_bytes, spec_u64_to_le_bytes,
    u64_from_le_bytes, u64_to_le_bytes,
};
use vstd::slice::{slice_index_get, slice_subrange, slice_to_vec};
use crate::command::RawCommand;
use crate::errors::IpcError;

verus! {

/// Length of the fixed header that precedes the payload on the wire: one
/// origin byte followed by the payload length as eight little-endian bytes.
pub const HEADER_LEN: usize = 9;

/// The wire form of a command: the origin byte, the payload length as eight
/// little-endian bytes, then the payload itself.
pub open spec fn spec_encode(sender: u8, data: Seq<u8>) -> Seq<u8>
    recommends
        data.len() <= u64::MAX,
{
    seq![sender] + spec_u64_to_le_bytes(data.len() as u64) + data
}

/// Whether a byte sequence is a well-formed wire form: long enough to hold
/// the header, with a length field that matches the number of payload bytes
/// that follow it.
pub open spec fn spec_wellformed(bytes: Seq<u8>) -> bool {
    bytes.len() >= HEADER_LEN && spec_u64_from_le_bytes(
        bytes.subrange(1, HEADER_LEN as int),
    ) == bytes.len() - HEADER_LEN
}

/// Serializes a command into its wire form.
pub fn encode(c: &RawCommand) -> (r: Vec<u8>)
    requires
        c@.1.len() + HEADER_LEN <= usize::MAX,
    ensures
        r@ == spec_encode(c@.0, c@.1),
        r@.len() == HEADER_LEN + c@.1.len(),
{
    proof {
        crate::command::lemma_raw_command_view(c);
    }
    let mut out: Vec<u8> = Vec::new();
    out.push(c.sender);
    let mut len_bytes = u64_to_le_bytes(c.data.len() as u64);
    out.append(&mut len_bytes);
    out.extend_from_slice(c.data.as_slice());
    proof {
        assert(out@ =~= spec_encode(c@.0, c@.1));
    }
    out
}

/// Recovers a command from its wire form.  Succeeds exactly on well-formed
/// byte sequences; any other input is rejected as undecodable.
pub fn decode(bytes: &[u8]) -> (r: Result<RawCommand, IpcError>)
    ensures
        spec_wellformed(bytes@) ==> (r matches Ok(c) && c@ == (
            bytes@[0],
            bytes@.skip(HEADER_LEN as int),
        )),
        !spec_wellformed(bytes@) ==> r == Err::<RawCommand, IpcError>(
            IpcError::DeserializationFailed,
        ),
{
    if bytes.len() < HEADER_LEN {
        return Err(IpcError::DeserializationFailed);
    }
    let len_field = u64_from_le_bytes(slice_subrange(bytes, 1, HEADER_LEN));
    let payload_len: usize = bytes.len() - HEADER_LEN;
    if len_field != payload_len as u64 {
        return Err(IpcError::DeserializationFailed);
    }
    let data = slice_to_vec(slice_subrange(bytes, HEADER_LEN, bytes.len()));
    proof {
        assert(data@ =~= bytes@.skip(HEADER_LEN as int));
    }
    let cmd = RawCommand { sender: *slice_index_get(bytes, 0), data };
    proof {
        crate::command::lemma_raw_command_view(&cmd);
    }
    Ok(cmd)
}

/// Round trip: every command's wire form is well formed and decodes back to
/// the same origin and payload, so `decode` applied to `encode` of a command
/// returns that command.
pub proof fn lemma_round_trip(sender: u8, data: Seq<u8>)
    requires
        data.len() + HEADER_LEN <= usize::MAX,
    ensures
        spec_wellformed(spec_encode(sender, data)),
        spec_encode(sender, data)[0] == sender,
        spec_encode(sender, data).skip(HEADER_LEN as int) == data,
        spec_encode(sender, data).len() == HEADER_LEN + data.len(),
{
    lemma_auto_spec_u64_to_from_le_bytes();
    let e = spec_encode(sender, data);
    assert(e.subrange(1, HEADER_LEN as int) =~= spec_u64_to_le_bytes(data.len() as u64));
    assert(e.skip(HEADER_LEN as int) =~= data);
}

} // verus!
