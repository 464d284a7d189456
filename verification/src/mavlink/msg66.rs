//! The 'data stream request' message (id 66): six zero bytes, sent only.

use crate::mavlink::{frame, CodecError, Sequence, HEADER_LEN};
use crate::wire::{put_zeros, zeros};
use vstd::prelude::*;
use vstd::slice::slice_to_vec;

verus! {

/// A data stream request.  It has no fields: every payload is the same.
pub struct Message {
    /// The frame last serialised or deserialised.
    pub buffy: Vec<u8>,
}

impl Message {
    /// A request that holds no frame yet.
    pub fn new() -> (m: Message)
        ensures
            crate::mavlink::Message::buffer(&m) == Seq::<u8>::empty(),
    {
        Message { buffy: Vec::new() }
    }
}

impl crate::mavlink::Message for Message {
    const MSGID: u8 = 66;

    const EXTRA: u8 = 0x94;

    const PAYLEN: usize = 6;

    proof fn lemma_kind()
        ensures
            Self::MSGID == 66,
            Self::EXTRA == 0x94,
            Self::PAYLEN == 6,
    {
    }

    open spec fn is_payload(&self, payload: Seq<u8>) -> bool {
        payload == zeros(6)
    }

    open spec fn infallible() -> bool {
        true
    }

    open spec fn unpacked(&self, payload: Seq<u8>) -> Result<Self, CodecError> {
        Err(CodecError::NotImplemented)
    }

    open spec fn buffer(&self) -> Seq<u8> {
        self.buffy@
    }

    proof fn lemma_payload_len(&self, payload: Seq<u8>) {
    }

    fn serialise(&mut self, seq: &mut Sequence) -> (ret: &mut Self)
        ensures
            ret.buffer() == frame(6, old(seq).value(), 66, 0x94, zeros(6)),
    {
        self.buffy = self.serialise_message(seq);
        self
    }

    fn deserialise(&mut self, buffy: &[u8]) -> (r: Result<(), CodecError>)
        ensures
            r == Err::<(), CodecError>(
                if buffy@.len() < HEADER_LEN + 6 {
                    CodecError::Truncated
                } else {
                    CodecError::NotImplemented
                },
            ),
    {
        self.buffy = slice_to_vec(buffy);
        self.deserialise_message(buffy)
    }

    fn message(&self) -> (bytes: &[u8]) {
        self.buffy.as_slice()
    }

    fn pack_payload(&self, buffy: &mut Vec<u8>) -> (r: Result<(), CodecError>)
        ensures
            final(buffy)@ == old(buffy)@ + zeros(6),
    {
        put_zeros(buffy, 6);
        assert(buffy@.take(old(buffy)@.len() as int) =~= old(buffy)@);
        assert(buffy@.skip(old(buffy)@.len() as int) =~= zeros(6));
        Ok(())
    }

    fn unpack_payload(&mut self, payload: &[u8]) -> (r: Result<(), CodecError>) {
        Err(CodecError::NotImplemented)
    }
}

} // verus!
