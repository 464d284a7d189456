//! The 'status' message (id 203): one status byte, sent only.

use crate::mavlink::{frame, CodecError, Sequence, HEADER_LEN};
use vstd::prelude::*;
use vstd::slice::slice_to_vec;

verus! {

/// A status report of the transponder.
pub struct Message {
    /// The frame last serialised or deserialised.
    pub buffy: Vec<u8>,
    /// The status byte as it goes on the wire.
    pub status: u8,
}

impl Message {
    /// A report with status 1 that holds no frame yet.
    pub fn new() -> (m: Message)
        ensures
            m.status == 1,
            crate::mavlink::Message::buffer(&m) == Seq::<u8>::empty(),
    {
        Message { buffy: Vec::new(), status: 1 }
    }
}

impl crate::mavlink::Message for Message {
    const MSGID: u8 = 203;

    const EXTRA: u8 = 0x55;

    const PAYLEN: usize = 1;

    proof fn lemma_kind()
        ensures
            Self::MSGID == 203,
            Self::EXTRA == 0x55,
            Self::PAYLEN == 1,
    {
    }

    open spec fn is_payload(&self, payload: Seq<u8>) -> bool {
        payload == seq![self.status]
    }

    open spec fn infallible() -> bool {
        true
    }

    open spec fn unpacked(&self, payload: Seq<u8>) -> Result<Self, CodecError> {
        Err(CodecError::NotImplemented)
    }

    open spec fn buffer(&self) -> Seq<u8> {
        self.buffy@
    }

    proof fn lemma_payload_len(&self, payload: Seq<u8>) {
    }

    fn serialise(&mut self, seq: &mut Sequence) -> (ret: &mut Self)
        ensures
            ret.status == old(self).status,
            ret.buffer() == frame(1, old(seq).value(), 203, 0x55, seq![old(self).status]),
    {
        self.buffy = self.serialise_message(seq);
        self
    }

    fn deserialise(&mut self, buffy: &[u8]) -> (r: Result<(), CodecError>)
        ensures
            r == Err::<(), CodecError>(
                if buffy@.len() < HEADER_LEN + 1 {
                    CodecError::Truncated
                } else {
                    CodecError::NotImplemented
                },
            ),
            final(self).status == old(self).status,
    {
        self.buffy = slice_to_vec(buffy);
        self.deserialise_message(buffy)
    }

    fn message(&self) -> (bytes: &[u8]) {
        self.buffy.as_slice()
    }

    fn pack_payload(&self, buffy: &mut Vec<u8>) -> (r: Result<(), CodecError>)
        ensures
            final(buffy)@ == old(buffy)@.push(self.status),
    {
        buffy.push(self.status);
        assert(buffy@.take(old(buffy)@.len() as int) =~= old(buffy)@);
        assert(buffy@.skip(old(buffy)@.len() as int) =~= seq![self.status]);
        Ok(())
    }

    fn unpack_payload(&mut self, payload: &[u8]) -> (r: Result<(), CodecError>) {
        Err(CodecError::NotImplemented)
    }
}

} // verus!
