//! Reassembly of application messages from decoded frames: frames flagged
//! `more` are gathered until a final frame completes the message.

use vstd::prelude::*;
use crate::bytes::append_all;

verus! {

/// The plaintext of the frames received so far of a message not yet complete.
pub struct Reassembler {
    pending: Vec<u8>,
}

impl Reassembler {
    /// What has been gathered of the current message.
    pub closed spec fn pending(&self) -> Seq<u8> {
        self.pending@
    }

    /// A reassembler with nothing pending.
    pub fn new() -> (r: Reassembler)
        ensures
            r.pending() == Seq::<u8>::empty(),
    {
        Reassembler { pending: Vec::new() }
    }

    /// Takes in one decoded frame. A final frame returns the whole message
    /// and leaves nothing pending; one flagged `more` is kept.
    pub fn push(&mut self, more: bool, plaintext: &Vec<u8>) -> (r: Option<Vec<u8>>)
        ensures
            more ==> r is None && final(self).pending() == old(self).pending() + plaintext@,
            !more ==> r is Some && r->Some_0@ == old(self).pending() + plaintext@
                && final(self).pending() == Seq::<u8>::empty(),
    {
        append_all(&mut self.pending, plaintext);
        if more {
            None
        } else {
            let message = self.pending.clone();
            self.pending = Vec::new();
            Some(message)
        }
    }
}

} // verus!
