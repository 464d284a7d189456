//! The 'set position target local NED' message (id 84): a command to the
//! vehicle, of which the simulator heeds the velocity.
//!
//! The message speaks in single-precision floating point.  Here each such
//! field is held as the 32 bits that the wire carries, in the IEEE 754
//! layout; what number they stand for is for the caller to say.

use crate::mavlink::{
    frame, lemma_frame_payload, payload_part, CodecError, Message as _, Sequence, HEADER_LEN,
};
use crate::wire::{
    from_le16, from_le32, get_u16, get_u32, le16, le32, lemma_le16_roundtrip,
    lemma_le32_roundtrip, put_u16, put_u32, put_u8,
};
use vstd::prelude::*;
use vstd::slice::slice_to_vec;

verus! {

broadcast use {crate::wire::lemma_le16_len, crate::wire::lemma_le32_len};

/// A position target in the local north-east-down frame.
pub struct Message {
    /// The frame last serialised or deserialised.
    pub buffy: Vec<u8>,
    /// Milliseconds since the sender booted.
    pub time_boot_ms: u32,
    /// System that the command is for.
    pub system_id: u8,
    /// Component that the command is for.
    pub component_id: u8,
    /// Frame of reference of the coordinates.
    pub coordinate_frame: u8,
    /// Which of the fields the receiver is to ignore.
    pub type_mask: u16,
    /// Position north in metres, as the bits of a float.
    pub x: u32,
    /// Position east in metres, as the bits of a float.
    pub y: u32,
    /// Position down in metres, as the bits of a float.
    pub z: u32,
    /// Velocity north in metres per second, as the bits of a float.
    pub vx: u32,
    /// Velocity east in metres per second, as the bits of a float.
    pub vy: u32,
    /// Velocity down in metres per second, as the bits of a float.
    pub vz: u32,
    /// Acceleration north, as the bits of a float.
    pub afx: u32,
    /// Acceleration east, as the bits of a float.
    pub afy: u32,
    /// Acceleration down, as the bits of a float.
    pub afz: u32,
    /// Yaw in radians, as the bits of a float.
    pub yaw: u32,
    /// Yaw rate in radians per second, as the bits of a float.
    pub yaw_rate: u32,
}

impl Message {
    /// The payload of this command, field by field in wire order.
    pub open spec fn payload(&self) -> Seq<u8> {
        le32(self.time_boot_ms) + le32(self.x) + le32(self.y) + le32(self.z) + le32(self.vx)
            + le32(self.vy) + le32(self.vz) + le32(self.afx) + le32(self.afy) + le32(self.afz)
            + le32(self.yaw) + le32(self.yaw_rate) + le16(self.type_mask) + seq![
            self.system_id,
            self.component_id,
            self.coordinate_frame,
        ]
    }

    /// The command that `payload` spells, holding the frame that `self` holds.
    pub open spec fn decoded(&self, payload: Seq<u8>) -> Message {
        Message {
            buffy: self.buffy,
            time_boot_ms: from_le32(payload, 0),
            x: from_le32(payload, 4),
            y: from_le32(payload, 8),
            z: from_le32(payload, 12),
            vx: from_le32(payload, 16),
            vy: from_le32(payload, 20),
            vz: from_le32(payload, 24),
            afx: from_le32(payload, 28),
            afy: from_le32(payload, 32),
            afz: from_le32(payload, 36),
            yaw: from_le32(payload, 40),
            yaw_rate: from_le32(payload, 44),
            type_mask: from_le16(payload, 48),
            system_id: payload[50],
            component_id: payload[51],
            coordinate_frame: payload[52],
        }
    }

    /// A command with every field zero that holds no frame yet.
    pub fn new() -> (m: Message)
        ensures
            m.buffy@ == Seq::<u8>::empty(),
            m.time_boot_ms == 0,
            m.system_id == 0,
            m.component_id == 0,
            m.coordinate_frame == 0,
            m.type_mask == 0,
            m.x == 0,
            m.y == 0,
            m.z == 0,
            m.vx == 0,
            m.vy == 0,
            m.vz == 0,
            m.afx == 0,
            m.afy == 0,
            m.afz == 0,
            m.yaw == 0,
            m.yaw_rate == 0,
    {
        Message {
            buffy: Vec::new(),
            time_boot_ms: 0,
            system_id: 0,
            component_id: 0,
            coordinate_frame: 0,
            type_mask: 0,
            x: 0,
            y: 0,
            z: 0,
            vx: 0,
            vy: 0,
            vz: 0,
            afx: 0,
            afy: 0,
            afz: 0,
            yaw: 0,
            yaw_rate: 0,
        }
    }

    /// Unpacking the payload of `m` gives back every field of `m`.
    pub proof fn lemma_roundtrip(m: Message, holder: Message)
        ensures
            m.payload().len() == 53,
            holder.decoded(m.payload()) == (Message { buffy: holder.buffy, ..m }),
    {
        let p = m.payload();
        let e = Seq::<u8>::empty();
        let f0 = le32(m.time_boot_ms);
        let f1 = f0 + le32(m.x);
        let f2 = f1 + le32(m.y);
        let f3 = f2 + le32(m.z);
        let f4 = f3 + le32(m.vx);
        let f5 = f4 + le32(m.vy);
        let f6 = f5 + le32(m.vz);
        let f7 = f6 + le32(m.afx);
        let f8 = f7 + le32(m.afy);
        let f9 = f8 + le32(m.afz);
        let f10 = f9 + le32(m.yaw);
        let f11 = f10 + le32(m.yaw_rate);
        let f12 = f11 + le16(m.type_mask);
        let tail = seq![m.system_id, m.component_id, m.coordinate_frame];
        assert(p == f12 + tail);
        lemma_le32_roundtrip(m.time_boot_ms, e, p.skip(4));
        assert(p =~= e + le32(m.time_boot_ms) + p.skip(4));
        lemma_le32_roundtrip(m.x, f0, p.skip(8));
        assert(p =~= f0 + le32(m.x) + p.skip(8));
        lemma_le32_roundtrip(m.y, f1, p.skip(12));
        assert(p =~= f1 + le32(m.y) + p.skip(12));
        lemma_le32_roundtrip(m.z, f2, p.skip(16));
        assert(p =~= f2 + le32(m.z) + p.skip(16));
        lemma_le32_roundtrip(m.vx, f3, p.skip(20));
        assert(p =~= f3 + le32(m.vx) + p.skip(20));
        lemma_le32_roundtrip(m.vy, f4, p.skip(24));
        assert(p =~= f4 + le32(m.vy) + p.skip(24));
        lemma_le32_roundtrip(m.vz, f5, p.skip(28));
        assert(p =~= f5 + le32(m.vz) + p.skip(28));
        lemma_le32_roundtrip(m.afx, f6, p.skip(32));
        assert(p =~= f6 + le32(m.afx) + p.skip(32));
        lemma_le32_roundtrip(m.afy, f7, p.skip(36));
        assert(p =~= f7 + le32(m.afy) + p.skip(36));
        lemma_le32_roundtrip(m.afz, f8, p.skip(40));
        assert(p =~= f8 + le32(m.afz) + p.skip(40));
        lemma_le32_roundtrip(m.yaw, f9, p.skip(44));
        assert(p =~= f9 + le32(m.yaw) + p.skip(44));
        lemma_le32_roundtrip(m.yaw_rate, f10, p.skip(48));
        assert(p =~= f10 + le32(m.yaw_rate) + p.skip(48));
        lemma_le16_roundtrip(m.type_mask, f11, p.skip(50));
        assert(p =~= f11 + le16(m.type_mask) + p.skip(50));
        assert(p[50] == m.system_id);
        assert(p[51] == m.component_id);
        assert(p[52] == m.coordinate_frame);
    }
}

/// A command read back from its own frame has every field that was sent,
/// whoever reads it.
pub proof fn lemma_frame_roundtrip(sent: Message, seqno: u8, reader: Message)
    ensures
        ({
            let bytes = frame(53, seqno, 84, 0xb8, sent.payload());
            &&& bytes.len() == HEADER_LEN + 53 + 2
            &&& reader.unpacked(payload_part(bytes, 53)) == Ok::<Message, CodecError>(
                Message { buffy: reader.buffy, ..sent },
            )
        }),
{
    Message::lemma_roundtrip(sent, reader);
    lemma_frame_payload(53, seqno, 84, 0xb8, sent.payload());
}

impl crate::mavlink::Message for Message {
    const MSGID: u8 = 84;

    const EXTRA: u8 = 0xb8;

    const PAYLEN: usize = 53;

    proof fn lemma_kind()
        ensures
            Self::MSGID == 84,
            Self::EXTRA == 0xb8,
            Self::PAYLEN == 53,
    {
    }

    open spec fn is_payload(&self, payload: Seq<u8>) -> bool {
        payload == self.payload()
    }

    open spec fn infallible() -> bool {
        true
    }

    open spec fn unpacked(&self, payload: Seq<u8>) -> Result<Self, CodecError> {
        if payload.len() < 53 {
            Err(CodecError::Truncated)
        } else {
            Ok(self.decoded(payload))
        }
    }

    open spec fn buffer(&self) -> Seq<u8> {
        self.buffy@
    }

    proof fn lemma_payload_len(&self, payload: Seq<u8>) {
        Message::lemma_roundtrip(*self, *self);
    }

    fn serialise(&mut self, seq: &mut Sequence) -> (ret: &mut Self)
        ensures
            *ret == (Message { buffy: ret.buffy, ..*old(self) }),
            ret.buffy@ == frame(53, old(seq).value(), 84, 0xb8, old(self).payload()),
    {
        self.buffy = self.serialise_message(seq);
        self
    }

    fn deserialise(&mut self, buffy: &[u8]) -> (r: Result<(), CodecError>)
        ensures
            r is Ok <==> buffy@.len() >= HEADER_LEN + 53,
            r is Err ==> r == Err::<(), CodecError>(CodecError::Truncated),
            buffy@.len() < HEADER_LEN + 53 ==> *final(self) == (Message {
                buffy: final(self).buffy,
                ..*old(self)
            }),
            buffy@.len() >= HEADER_LEN + 53 ==> *final(self) == (Message {
                buffy: final(self).buffy,
                ..old(self).decoded(payload_part(buffy@, 53))
            }),
    {
        self.buffy = slice_to_vec(buffy);
        self.deserialise_message(buffy)
    }

    fn message(&self) -> (bytes: &[u8]) {
        self.buffy.as_slice()
    }

    fn pack_payload(&self, buffy: &mut Vec<u8>) -> (r: Result<(), CodecError>)
        ensures
            final(buffy)@ == old(buffy)@ + self.payload(),
    {
        put_u32(buffy, self.time_boot_ms);
        put_u32(buffy, self.x);
        put_u32(buffy, self.y);
        put_u32(buffy, self.z);
        put_u32(buffy, self.vx);
        put_u32(buffy, self.vy);
        put_u32(buffy, self.vz);
        put_u32(buffy, self.afx);
        put_u32(buffy, self.afy);
        put_u32(buffy, self.afz);
        put_u32(buffy, self.yaw);
        put_u32(buffy, self.yaw_rate);
        put_u16(buffy, self.type_mask);
        put_u8(buffy, self.system_id);
        put_u8(buffy, self.component_id);
        put_u8(buffy, self.coordinate_frame);
        assert(buffy@ =~= old(buffy)@ + self.payload());
        assert(buffy@.take(old(buffy)@.len() as int) =~= old(buffy)@);
        assert(buffy@.skip(old(buffy)@.len() as int) =~= self.payload());
        Ok(())
    }

    fn unpack_payload(&mut self, payload: &[u8]) -> (r: Result<(), CodecError>) {
        if payload.len() < 53 {
            return Err(CodecError::Truncated);
        }
        self.time_boot_ms = get_u32(payload, 0);
        self.x = get_u32(payload, 4);
        self.y = get_u32(payload, 8);
        self.z = get_u32(payload, 12);
        self.vx = get_u32(payload, 16);
        self.vy = get_u32(payload, 20);
        self.vz = get_u32(payload, 24);
        self.afx = get_u32(payload, 28);
        self.afy = get_u32(payload, 32);
        self.afz = get_u32(payload, 36);
        self.yaw = get_u32(payload, 40);
        self.yaw_rate = get_u32(payload, 44);
        self.type_mask = get_u16(payload, 48);
        self.system_id = payload[50];
        self.component_id = payload[51];
        self.coordinate_frame = payload[52];
        Ok(())
    }
}

} // verus!
