use vstd::prelude::*;

verus! {

/// A command envelope: an origin identifier paired with an opaque payload.
/// It carries no behaviour of its own; the transport layer moves its encoded
/// form through the queue.
pub struct RawCommand {
    pub(crate) sender: u8,
    pub(crate) data: Vec<u8>,
}

impl View for RawCommand {
    type V = (u8, Seq<u8>);

    closed spec fn view(&self) -> (u8, Seq<u8>) {
        (self.sender, self.data@)
    }
}

/// What a command's view holds: its origin identifier and the view of its
/// payload bytes.
pub(crate) proof fn lemma_raw_command_view(c: &RawCommand)
    ensures
        c@ == (c.sender, c.data@),
{
}

impl RawCommand {
    pub fn new(sender: u8, data: Vec<u8>) -> (r: RawCommand)
        ensures
            r@ == (sender, data@),
    {
        RawCommand { sender, data }
    }

    pub fn sender(&self) -> (r: u8)
        ensures
            r == self@.0,
    {
        self.sender
    }

    pub fn data(self) -> (r: Vec<u8>)
        ensures
            r@ == self@.1,
    {
        self.data
    }
}

} // verus!
