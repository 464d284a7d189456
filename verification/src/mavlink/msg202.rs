//! The 'own-ship' report (id 202): where the vehicle is and how it moves.
//!
//! The report is sent every tick, and read back where one simulator feeds
//! another its position.  Positions and velocities are scaled integers:
//! latitude and longitude in 1e-7 degrees, altitude in millimetres,
//! velocities in centimetres per second.

use crate::clock::utc_timestamp;
use crate::coords::ScaledCwithV;
use crate::mavlink::{
    frame, lemma_frame_payload, payload_part, CodecError, Message as _, Sequence, HEADER_LEN,
};
use crate::wire::{
    bits16, bits32, from_le16, from_le32, get_i16, get_i32, get_u16, get_u32, le16, le32,
    lemma_from_le_subrange, lemma_le16_roundtrip, lemma_le32_roundtrip, lemma_signed_bits, put_i16, put_i32, put_u16,
    put_u32, put_u8, signed16, signed32,
};
use vstd::prelude::*;
use vstd::slice::slice_to_vec;

verus! {

broadcast use {crate::wire::lemma_le16_len, crate::wire::lemma_le32_len};

/// An own-ship report.
pub struct Message {
    /// The frame last serialised or deserialised.
    pub buffy: Vec<u8>,
    /// Seconds since the Unix epoch, as last read from a frame.  A frame that
    /// is sent carries the time of its packing instead.
    pub utctime: u32,
    /// Latitude in units of 1e-7 degrees.
    pub latitude: i32,
    /// Longitude in units of 1e-7 degrees.
    pub longitude: i32,
    /// Pressure altitude in millimetres.
    pub altpres: i32,
    /// GNSS altitude in millimetres.
    pub altgnss: i32,
    /// Horizontal accuracy in millimetres.
    pub acchoriz: u32,
    /// Vertical accuracy in centimetres.
    pub accvert: u16,
    /// Velocity accuracy in millimetres per second.
    pub accvel: u16,
    /// Rate of climb in centimetres per second.
    pub velvert: i16,
    /// Velocity towards north in centimetres per second.
    pub nsvog: i16,
    /// Velocity towards east in centimetres per second.
    pub ewvog: i16,
    /// State flags.
    pub state: u16,
    /// Transponder code.
    pub squawk: u16,
    /// Kind of GNSS fix.
    pub fixtype: u8,
    /// Number of satellites in view.
    pub numsats: u8,
    /// Emergency status.
    pub emstatus: u8,
    /// Control flags.
    pub control: u8,
}

impl Message {
    /// The payload of this report stamped with `utctime`, field by field in
    /// wire order.  The report's own `utctime` is not part of it.
    pub open spec fn payload_at(&self, utctime: u32) -> Seq<u8> {
        le32(utctime) + le32(bits32(self.latitude)) + le32(bits32(self.longitude)) + le32(
            bits32(self.altpres),
        ) + le32(bits32(self.altgnss)) + le32(self.acchoriz) + le16(self.accvert) + le16(
            self.accvel,
        ) + le16(bits16(self.velvert)) + le16(bits16(self.nsvog)) + le16(bits16(self.ewvog))
            + le16(self.state) + le16(self.squawk) + seq![
            self.fixtype,
            self.numsats,
            self.emstatus,
            self.control,
        ]
    }

    /// The report that `payload` spells, holding the frame that `self` holds.
    pub open spec fn decoded(&self, payload: Seq<u8>) -> Message {
        Message {
            buffy: self.buffy,
            utctime: from_le32(payload, 0),
            latitude: signed32(from_le32(payload, 4)),
            longitude: signed32(from_le32(payload, 8)),
            altpres: signed32(from_le32(payload, 12)),
            altgnss: signed32(from_le32(payload, 16)),
            acchoriz: from_le32(payload, 20),
            accvert: from_le16(payload, 24),
            accvel: from_le16(payload, 26),
            velvert: signed16(from_le16(payload, 28)),
            nsvog: signed16(from_le16(payload, 30)),
            ewvog: signed16(from_le16(payload, 32)),
            state: from_le16(payload, 34),
            squawk: from_le16(payload, 36),
            fixtype: payload[38],
            numsats: payload[39],
            emstatus: payload[40],
            control: payload[41],
        }
    }

    /// A report of a vehicle at rest at the origin, squawking 0xdead with a
    /// 3D fix on seven satellites, that holds no frame yet.
    pub fn new() -> (m: Message)
        ensures
            m.buffy@ == Seq::<u8>::empty(),
            m.utctime == 0,
            m.latitude == 0,
            m.longitude == 0,
            m.altpres == 0,
            m.altgnss == 0,
            m.acchoriz == 0,
            m.accvert == 0,
            m.accvel == 0,
            m.velvert == 0,
            m.nsvog == 0,
            m.ewvog == 0,
            m.state == 0,
            m.squawk == 0xdead,
            m.fixtype == 4,
            m.numsats == 7,
            m.emstatus == 0,
            m.control == 0x03,
    {
        Message {
            buffy: Vec::new(),
            utctime: 0,
            latitude: 0,
            longitude: 0,
            altpres: 0,
            altgnss: 0,
            acchoriz: 0,
            accvert: 0,
            accvel: 0,
            velvert: 0,
            nsvog: 0,
            ewvog: 0,
            state: 0,
            squawk: 0xdead,
            fixtype: 4,
            numsats: 7,
            emstatus: 0,
            control: 0x03,
        }
    }

    /// Appends the payload stamped with `utctime`.
    pub fn pack_payload_at(&self, utctime: u32, buffy: &mut Vec<u8>)
        ensures
            final(buffy)@ == old(buffy)@ + self.payload_at(utctime),
    {
        put_u32(buffy, utctime);
        put_i32(buffy, self.latitude);
        put_i32(buffy, self.longitude);
        put_i32(buffy, self.altpres);
        put_i32(buffy, self.altgnss);
        put_u32(buffy, self.acchoriz);
        put_u16(buffy, self.accvert);
        put_u16(buffy, self.accvel);
        put_i16(buffy, self.velvert);
        put_i16(buffy, self.nsvog);
        put_i16(buffy, self.ewvog);
        put_u16(buffy, self.state);
        put_u16(buffy, self.squawk);
        put_u8(buffy, self.fixtype);
        put_u8(buffy, self.numsats);
        put_u8(buffy, self.emstatus);
        put_u8(buffy, self.control);
        assert(buffy@ =~= old(buffy)@ + self.payload_at(utctime));
    }

    /// Sets the latitude, in units of 1e-7 degrees.
    pub fn set_latitude(&mut self, latitude: i32) -> (ret: &mut Self)
        ensures
            *final(self) == *final(ret),
            *ret == (Message { latitude, ..*old(self) }),
    {
        self.latitude = latitude;
        self
    }

    /// Sets the longitude, in units of 1e-7 degrees.
    pub fn set_longitude(&mut self, longitude: i32) -> (ret: &mut Self)
        ensures
            *final(self) == *final(ret),
            *ret == (Message { longitude, ..*old(self) }),
    {
        self.longitude = longitude;
        self
    }

    /// Sets the pressure altitude, in millimetres.
    pub fn set_altitude(&mut self, altitude: i32) -> (ret: &mut Self)
        ensures
            *final(self) == *final(ret),
            *ret == (Message { altpres: altitude, ..*old(self) }),
    {
        self.altpres = altitude;
        self
    }

    /// Sets the rate of climb, in centimetres per second.
    pub fn set_rateofclimb(&mut self, updown_velocity: i16) -> (ret: &mut Self)
        ensures
            *final(self) == *final(ret),
            *ret == (Message { velvert: updown_velocity, ..*old(self) }),
    {
        self.velvert = updown_velocity;
        self
    }

    /// Sets the velocity towards north, in centimetres per second.
    pub fn set_ns_velocity(&mut self, northsouth_velocity: i16) -> (ret: &mut Self)
        ensures
            *final(self) == *final(ret),
            *ret == (Message { nsvog: northsouth_velocity, ..*old(self) }),
    {
        self.nsvog = northsouth_velocity;
        self
    }

    /// Sets the velocity towards east, in centimetres per second.
    pub fn set_ew_velocity(&mut self, eastwest_velocity: i16) -> (ret: &mut Self)
        ensures
            *final(self) == *final(ret),
            *ret == (Message { ewvog: eastwest_velocity, ..*old(self) }),
    {
        self.ewvog = eastwest_velocity;
        self
    }

    /// Takes position and velocity from `cwithv`, and leaves every other field.
    pub fn set_cwithv(&mut self, cwithv: &ScaledCwithV) -> (ret: &mut Self)
        ensures
            *final(self) == *final(ret),
            *ret == (Message {
                latitude: cwithv.latitude,
                longitude: cwithv.longitude,
                altpres: cwithv.altitude,
                nsvog: cwithv.ns_velocity,
                ewvog: cwithv.ew_velocity,
                velvert: cwithv.ud_velocity,
                ..*old(self)
            }),
            ret.get_cwithv_spec() == *cwithv,
    {
        self.set_latitude(cwithv.latitude);
        self.set_longitude(cwithv.longitude);
        self.set_altitude(cwithv.altitude);
        self.set_ns_velocity(cwithv.ns_velocity);
        self.set_ew_velocity(cwithv.ew_velocity);
        self.set_rateofclimb(cwithv.ud_velocity);
        self
    }

    /// The latitude, in units of 1e-7 degrees.
    pub fn get_latitude(&self) -> (r: i32)
        ensures
            r == self.latitude,
    {
        self.latitude
    }

    /// The longitude, in units of 1e-7 degrees.
    pub fn get_longitude(&self) -> (r: i32)
        ensures
            r == self.longitude,
    {
        self.longitude
    }

    /// The pressure altitude, in millimetres.
    pub fn get_altitude(&self) -> (r: i32)
        ensures
            r == self.altpres,
    {
        self.altpres
    }

    /// The rate of climb, in centimetres per second.
    pub fn get_rateofclimb(&self) -> (r: i16)
        ensures
            r == self.velvert,
    {
        self.velvert
    }

    /// The velocity towards north, in centimetres per second.
    pub fn get_ns_velocity(&self) -> (r: i16)
        ensures
            r == self.nsvog,
    {
        self.nsvog
    }

    /// The velocity towards east, in centimetres per second.
    pub fn get_ew_velocity(&self) -> (r: i16)
        ensures
            r == self.ewvog,
    {
        self.ewvog
    }

    /// The position and velocity that the report carries.
    pub open spec fn get_cwithv_spec(&self) -> ScaledCwithV {
        ScaledCwithV {
            latitude: self.latitude,
            longitude: self.longitude,
            altitude: self.altpres,
            ns_velocity: self.nsvog,
            ew_velocity: self.ewvog,
            ud_velocity: self.velvert,
        }
    }

    /// Overwrites `cwithv` with the position and velocity that the report carries.
    pub fn get_cwithv(&self, cwithv: &mut ScaledCwithV) -> (ret: &Self)
        ensures
            ret == self,
            *final(cwithv) == self.get_cwithv_spec(),
    {
        cwithv.set_position(self.get_latitude(), self.get_longitude(), self.get_altitude());
        cwithv.set_velocity(
            self.get_ns_velocity(),
            self.get_ew_velocity(),
            self.get_rateofclimb(),
        );
        self
    }

    /// Unpacking a payload of `m` gives back every field of `m`, and for the
    /// time the stamp that the payload carries.
    pub proof fn lemma_roundtrip(m: Message, utctime: u32, holder: Message)
        ensures
            m.payload_at(utctime).len() == 42,
            holder.decoded(m.payload_at(utctime)) == (Message {
                buffy: holder.buffy,
                utctime,
                ..m
            }),
    {
        let p = m.payload_at(utctime);
        let f0 = le32(utctime);
        let f1 = f0 + le32(bits32(m.latitude));
        let f2 = f1 + le32(bits32(m.longitude));
        let f3 = f2 + le32(bits32(m.altpres));
        let f4 = f3 + le32(bits32(m.altgnss));
        let f5 = f4 + le32(m.acchoriz);
        let f6 = f5 + le16(m.accvert);
        let f7 = f6 + le16(m.accvel);
        let f8 = f7 + le16(bits16(m.velvert));
        let f9 = f8 + le16(bits16(m.nsvog));
        let f10 = f9 + le16(bits16(m.ewvog));
        let f11 = f10 + le16(m.state);
        let f12 = f11 + le16(m.squawk);
        let tail = seq![m.fixtype, m.numsats, m.emstatus, m.control];
        assert(p == f12 + tail);
        let e = Seq::<u8>::empty();
        lemma_le32_roundtrip(utctime, e, p.skip(4));
        assert(p =~= e + le32(utctime) + p.skip(4));
        lemma_le32_roundtrip(bits32(m.latitude), f0, p.skip(8));
        assert(p =~= f0 + le32(bits32(m.latitude)) + p.skip(8));
        lemma_le32_roundtrip(bits32(m.longitude), f1, p.skip(12));
        assert(p =~= f1 + le32(bits32(m.longitude)) + p.skip(12));
        lemma_le32_roundtrip(bits32(m.altpres), f2, p.skip(16));
        assert(p =~= f2 + le32(bits32(m.altpres)) + p.skip(16));
        lemma_le32_roundtrip(bits32(m.altgnss), f3, p.skip(20));
        assert(p =~= f3 + le32(bits32(m.altgnss)) + p.skip(20));
        lemma_le32_roundtrip(m.acchoriz, f4, p.skip(24));
        assert(p =~= f4 + le32(m.acchoriz) + p.skip(24));
        lemma_le16_roundtrip(m.accvert, f5, p.skip(26));
        assert(p =~= f5 + le16(m.accvert) + p.skip(26));
        lemma_le16_roundtrip(m.accvel, f6, p.skip(28));
        assert(p =~= f6 + le16(m.accvel) + p.skip(28));
        lemma_le16_roundtrip(bits16(m.velvert), f7, p.skip(30));
        assert(p =~= f7 + le16(bits16(m.velvert)) + p.skip(30));
        lemma_le16_roundtrip(bits16(m.nsvog), f8, p.skip(32));
        assert(p =~= f8 + le16(bits16(m.nsvog)) + p.skip(32));
        lemma_le16_roundtrip(bits16(m.ewvog), f9, p.skip(34));
        assert(p =~= f9 + le16(bits16(m.ewvog)) + p.skip(34));
        lemma_le16_roundtrip(m.state, f10, p.skip(36));
        assert(p =~= f10 + le16(m.state) + p.skip(36));
        lemma_le16_roundtrip(m.squawk, f11, p.skip(38));
        assert(p =~= f11 + le16(m.squawk) + p.skip(38));
        lemma_signed_bits(m.velvert, m.latitude, 0, 0);
        lemma_signed_bits(m.nsvog, m.longitude, 0, 0);
        lemma_signed_bits(m.ewvog, m.altpres, 0, 0);
        lemma_signed_bits(0, m.altgnss, 0, 0);
        assert(p[38] == m.fixtype);
        assert(p[39] == m.numsats);
        assert(p[40] == m.emstatus);
        assert(p[41] == m.control);
    }
}

/// A report read back from its own frame has every field that was sent, and
/// for its time the stamp that the frame carries, whoever reads it.
pub proof fn lemma_frame_roundtrip(sent: Message, seqno: u8, utctime: u32, reader: Message)
    ensures
        ({
            let bytes = frame(42, seqno, 202, 0x07, sent.payload_at(utctime));
            &&& bytes.len() == HEADER_LEN + 42 + 2
            &&& sent.is_payload(payload_part(bytes, 42))
            &&& reader.unpacked(payload_part(bytes, 42)) == Ok::<Message, CodecError>(
                Message { buffy: reader.buffy, utctime, ..sent },
            )
        }),
{
    Message::lemma_roundtrip(sent, utctime, reader);
    Message::lemma_roundtrip(sent, utctime, sent);
    lemma_frame_payload(42, seqno, 202, 0x07, sent.payload_at(utctime));
}

impl crate::mavlink::Message for Message {
    const MSGID: u8 = 202;

    const EXTRA: u8 = 0x07;

    const PAYLEN: usize = 42;

    proof fn lemma_kind()
        ensures
            Self::MSGID == 202,
            Self::EXTRA == 0x07,
            Self::PAYLEN == 42,
    {
    }

    open spec fn is_payload(&self, payload: Seq<u8>) -> bool {
        payload == self.payload_at(from_le32(payload, 0))
    }

    open spec fn infallible() -> bool {
        true
    }

    open spec fn unpacked(&self, payload: Seq<u8>) -> Result<Self, CodecError> {
        if payload.len() < 42 {
            Err(CodecError::Truncated)
        } else {
            Ok(self.decoded(payload))
        }
    }

    open spec fn buffer(&self) -> Seq<u8> {
        self.buffy@
    }

    proof fn lemma_payload_len(&self, payload: Seq<u8>) {
        Message::lemma_roundtrip(*self, from_le32(payload, 0), *self);
    }

    fn serialise(&mut self, seq: &mut Sequence) -> (ret: &mut Self)
        ensures
            *ret == (Message { buffy: ret.buffy, ..*old(self) }),
            ret.buffy@ == frame(
                42,
                old(seq).value(),
                202,
                0x07,
                old(self).payload_at(from_le32(ret.buffy@, HEADER_LEN as int)),
            ),
    {
        self.buffy = self.serialise_message(seq);
        proof {
            let p = payload_part(self.buffy@, 42);
            lemma_from_le_subrange(self.buffy@, 6, 48, 0);
        }
        self
    }

    fn deserialise(&mut self, buffy: &[u8]) -> (r: Result<(), CodecError>)
        ensures
            r is Ok <==> buffy@.len() >= HEADER_LEN + 42,
            r is Err ==> r == Err::<(), CodecError>(CodecError::Truncated),
            buffy@.len() < HEADER_LEN + 42 ==> *final(self) == (Message {
                buffy: final(self).buffy,
                ..*old(self)
            }),
            buffy@.len() >= HEADER_LEN + 42 ==> *final(self) == (Message {
                buffy: final(self).buffy,
                ..old(self).decoded(payload_part(buffy@, 42))
            }),
    {
        self.buffy = slice_to_vec(buffy);
        self.deserialise_message(buffy)
    }

    fn message(&self) -> (bytes: &[u8]) {
        self.buffy.as_slice()
    }

    fn pack_payload(&self, buffy: &mut Vec<u8>) -> (r: Result<(), CodecError>) {
        let now: i64 = utc_timestamp();
        let utctime: u32 = #[verifier::truncate] (now as u32);
        self.pack_payload_at(utctime, buffy);
        proof {
            let p = self.payload_at(utctime);
            Message::lemma_roundtrip(*self, utctime, *self);
            assert(buffy@.take(old(buffy)@.len() as int) =~= old(buffy)@);
            assert(buffy@.skip(old(buffy)@.len() as int) =~= p);
        }
        Ok(())
    }

    fn unpack_payload(&mut self, payload: &[u8]) -> (r: Result<(), CodecError>) {
        if payload.len() < 42 {
            return Err(CodecError::Truncated);
        }
        self.utctime = get_u32(payload, 0);
        self.latitude = get_i32(payload, 4);
        self.longitude = get_i32(payload, 8);
        self.altpres = get_i32(payload, 12);
        self.altgnss = get_i32(payload, 16);
        self.acchoriz = get_u32(payload, 20);
        self.accvert = get_u16(payload, 24);
        self.accvel = get_u16(payload, 26);
        self.velvert = get_i16(payload, 28);
        self.nsvog = get_i16(payload, 30);
        self.ewvog = get_i16(payload, 32);
        self.state = get_u16(payload, 34);
        self.squawk = get_u16(payload, 36);
        self.fixtype = payload[38];
        self.numsats = payload[39];
        self.emstatus = payload[40];
        self.control = payload[41];
        Ok(())
    }
}

} // verus!
