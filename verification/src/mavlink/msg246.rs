//! The 'traffic report' message (id 246): another vehicle as the transponder
//! sees it.  Sent only.
//!
//! Besides the values, the report says which of them are valid.  A report
//! that is filled from a vehicle's position drops what an earlier fill marked
//! valid, so that it never vouches for a value that this fill did not set.

use crate::coords::ScaledCwithV;
use crate::mavlink::{frame, CodecError, Sequence, HEADER_LEN};
use crate::wire::{
    bits16, bits32, le16, le32, put_i16, put_i32, put_u16, put_u32, put_u8, zeros,
};
use vstd::prelude::*;
use vstd::slice::slice_to_vec;
use vstd::string::StringSliceAdditionalSpecFns;

verus! {

broadcast use {crate::wire::lemma_le16_len, crate::wire::lemma_le32_len};

/// Latitude and longitude are valid.
pub const LAT_LON_VALID: u16 = 0x0001;

/// The altitude is valid.
pub const ALTITUDE_VALID: u16 = 0x0002;

/// The heading is valid.
pub const HEADING_VALID: u16 = 0x0004;

/// The speed over ground is valid.
pub const VELOCITY_VALID: u16 = 0x0008;

/// The callsign is valid.
pub const CALLSIGN_VALID: u16 = 0x0010;

/// The rate of climb is valid.
pub const VERTICAL_VELOCITY_VALID: u16 = 0x0080;

/// Every flag that a fill from a vehicle's position sets.
pub const FILLED_VALID: u16 = 0x008f;

/// Number of bytes that the callsign takes on the wire.
pub const CALLSIGN_LEN: usize = 9;

/// The callsign field for the name `bytes`: the name, then zeros to the end.
pub open spec fn padded(bytes: Seq<u8>) -> Seq<u8> {
    bytes + zeros((CALLSIGN_LEN - bytes.len()) as nat)
}

/// The bytes of "D-RisQ", the callsign of a new report.
pub open spec fn default_callsign() -> Seq<u8> {
    seq![0x44u8, 0x2d, 0x52, 0x69, 0x73, 0x51]
}

/// A traffic report.
pub struct Message {
    /// The frame last serialised.
    pub buffy: Vec<u8>,
    /// ICAO address of the vehicle.
    pub icao: u32,
    /// Latitude in units of 1e-7 degrees.
    pub lat: i32,
    /// Longitude in units of 1e-7 degrees.
    pub lon: i32,
    /// Altitude in millimetres.
    pub altitude: i32,
    /// Course over ground in hundredths of a degree.
    pub heading: i16,
    /// Speed over ground in centimetres per second.
    pub horvelocity: u16,
    /// Rate of climb in centimetres per second.
    pub vervelocity: i16,
    /// Which of the values are valid.
    pub validflags: u16,
    /// Transponder code.
    pub squawk: u16,
    /// Kind of altitude.
    pub altitudetype: u8,
    /// Callsign, padded with zeros.
    pub callsign: [u8; 9],
    /// Kind of emitter.
    pub emittertype: u8,
    /// Seconds since the vehicle was last heard.
    pub tslc: u8,
}

impl Message {
    /// The payload of this report, field by field in wire order.
    pub open spec fn payload(&self) -> Seq<u8> {
        le32(self.icao) + le32(bits32(self.lat)) + le32(bits32(self.lon)) + le32(
            bits32(self.altitude),
        ) + le16(bits16(self.heading)) + le16(self.horvelocity) + le16(bits16(self.vervelocity))
            + le16(self.validflags) + le16(self.squawk) + seq![self.altitudetype]
            + self.callsign@ + seq![self.emittertype, self.tslc]
    }

    /// A report about nothing yet but the callsign "D-RisQ", squawking
    /// 0xdead, last heard a second ago.
    pub fn new() -> (m: Message)
        ensures
            m.buffy@ == Seq::<u8>::empty(),
            m.icao == 0,
            m.lat == 0,
            m.lon == 0,
            m.altitude == 0,
            m.heading == 0,
            m.horvelocity == 0,
            m.vervelocity == 0,
            m.validflags == CALLSIGN_VALID,
            m.squawk == 0xdead,
            m.altitudetype == 0,
            m.callsign@ == padded(default_callsign()),
            m.emittertype == 0,
            m.tslc == 1,
    {
        let mut safe = Message {
            buffy: Vec::new(),
            icao: 0,
            lat: 0,
            lon: 0,
            altitude: 0,
            heading: 0,
            horvelocity: 0,
            vervelocity: 0,
            validflags: 0,
            squawk: 0xdead,
            altitudetype: 0,
            callsign: [0, 0, 0, 0, 0, 0, 0, 0, 0],
            emittertype: 0,
            tslc: 1,
        };
        proof {
            reveal_strlit("D-RisQ");
            vstd::string::is_ascii_spec_bytes("D-RisQ");
            assert("D-RisQ".spec_bytes() =~= default_callsign());
            assert(0u16 | CALLSIGN_VALID == CALLSIGN_VALID) by (bit_vector);
        }
        safe.set_callsign("D-RisQ");
        safe
    }

    /// Sets the callsign to the bytes of `callsign`, padded with zeros, and
    /// marks it valid.  The name must fit the field.
    pub fn set_callsign(&mut self, callsign: &str) -> (ret: &mut Self)
        requires
            callsign.spec_bytes().len() <= CALLSIGN_LEN,
        ensures
            *final(self) == *final(ret),
            ret.callsign@ == padded(callsign.spec_bytes()),
            *ret == (Message {
                callsign: ret.callsign,
                validflags: old(self).validflags | CALLSIGN_VALID,
                ..*old(self)
            }),
    {
        let safe = callsign.as_bytes();
        let n: usize = safe.len();
        let mut ii: usize = 0;
        while ii < CALLSIGN_LEN
            invariant
                ii <= CALLSIGN_LEN,
                n == safe@.len(),
                n <= CALLSIGN_LEN,
                forall|k: int| 0 <= k < ii ==> self.callsign@[k] == padded(safe@)[k],
                *self == (Message { callsign: self.callsign, ..*old(self) }),
            decreases CALLSIGN_LEN - ii,
        {
            if ii < n {
                self.callsign[ii] = safe[ii];
            } else {
                self.callsign[ii] = 0;
            }
            ii = ii + 1;
        }
        assert(self.callsign@ =~= padded(safe@));
        self.validflags = self.validflags | CALLSIGN_VALID;
        self
    }

    /// Sets latitude and longitude, in units of 1e-7 degrees, and marks them valid.
    pub fn set_gps(&mut self, latitude: i32, longitude: i32) -> (ret: &mut Self)
        ensures
            *final(self) == *final(ret),
            *ret == (Message {
                lat: latitude,
                lon: longitude,
                validflags: old(self).validflags | LAT_LON_VALID,
                ..*old(self)
            }),
    {
        self.lat = latitude;
        self.lon = longitude;
        self.validflags = self.validflags | LAT_LON_VALID;
        self
    }

    /// Sets the altitude, in millimetres, and marks it valid.
    pub fn set_altitude(&mut self, altitude: i32) -> (ret: &mut Self)
        ensures
            *final(self) == *final(ret),
            *ret == (Message {
                altitude,
                validflags: old(self).validflags | ALTITUDE_VALID,
                ..*old(self)
            }),
    {
        self.altitude = altitude;
        self.validflags = self.validflags | ALTITUDE_VALID;
        self
    }

    /// Sets the rate of climb, in centimetres per second, and marks it valid.
    pub fn set_rateofclimb(&mut self, updown_velocity: i16) -> (ret: &mut Self)
        ensures
            *final(self) == *final(ret),
            *ret == (Message {
                vervelocity: updown_velocity,
                validflags: old(self).validflags | VERTICAL_VELOCITY_VALID,
                ..*old(self)
            }),
    {
        self.vervelocity = updown_velocity;
        self.validflags = self.validflags | VERTICAL_VELOCITY_VALID;
        self
    }

    /// Sets the course over ground, in hundredths of a degree, and marks it valid.
    pub fn set_heading(&mut self, heading: i16) -> (ret: &mut Self)
        ensures
            *final(self) == *final(ret),
            *ret == (Message {
                heading,
                validflags: old(self).validflags | HEADING_VALID,
                ..*old(self)
            }),
    {
        self.heading = heading;
        self.validflags = self.validflags | HEADING_VALID;
        self
    }

    /// Sets the speed over ground, in centimetres per second, and marks it valid.
    pub fn set_groundspeed(&mut self, speed: u16) -> (ret: &mut Self)
        ensures
            *final(self) == *final(ret),
            *ret == (Message {
                horvelocity: speed,
                validflags: old(self).validflags | VELOCITY_VALID,
                ..*old(self)
            }),
    {
        self.horvelocity = speed;
        self.validflags = self.validflags | VELOCITY_VALID;
        self
    }

    /// Fills the report from a vehicle: position, altitude and rate of climb
    /// from `cwithv`, course and speed over ground as given.  Of the flags
    /// that were set before, only the callsign's stays; the five values
    /// filled here are marked valid.
    pub fn set_cwithv(&mut self, cwithv: &ScaledCwithV, heading: i16, groundspeed: u16) -> (ret:
        &mut Self)
        ensures
            *final(self) == *final(ret),
            *ret == (Message {
                lat: cwithv.latitude,
                lon: cwithv.longitude,
                altitude: cwithv.altitude,
                vervelocity: cwithv.ud_velocity,
                heading,
                horvelocity: groundspeed,
                validflags: (old(self).validflags & CALLSIGN_VALID) | FILLED_VALID,
                ..*old(self)
            }),
    {
        let kept: u16 = self.validflags & CALLSIGN_VALID;
        self.validflags = kept;
        self.set_gps(cwithv.latitude, cwithv.longitude);
        self.set_altitude(cwithv.altitude);
        self.set_rateofclimb(cwithv.ud_velocity);
        self.set_heading(heading);
        self.set_groundspeed(groundspeed);
        assert(((((kept | LAT_LON_VALID) | ALTITUDE_VALID) | VERTICAL_VELOCITY_VALID)
            | HEADING_VALID) | VELOCITY_VALID == kept | FILLED_VALID) by (bit_vector);
        self
    }

    /// What a fill leaves of the flags `before`: each of the five flags of
    /// the values filled, the callsign's flag exactly where it was set
    /// before, and no other bit, whatever was set before.
    pub proof fn lemma_fill_drops_stale_flags(before: u16)
        ensures
            ({
                let after = (before & CALLSIGN_VALID) | FILLED_VALID;
                &&& after & LAT_LON_VALID == LAT_LON_VALID
                &&& after & ALTITUDE_VALID == ALTITUDE_VALID
                &&& after & HEADING_VALID == HEADING_VALID
                &&& after & VELOCITY_VALID == VELOCITY_VALID
                &&& after & VERTICAL_VELOCITY_VALID == VERTICAL_VELOCITY_VALID
                &&& after & CALLSIGN_VALID == before & CALLSIGN_VALID
                &&& after & !(FILLED_VALID | CALLSIGN_VALID) == 0
            }),
    {
        let after = (before & CALLSIGN_VALID) | FILLED_VALID;
        assert(after == (before & 0x0010u16) | 0x008fu16);
        assert(((before & 0x0010u16) | 0x008fu16) & 0x0001u16 == 0x0001u16) by (bit_vector);
        assert(((before & 0x0010u16) | 0x008fu16) & 0x0002u16 == 0x0002u16) by (bit_vector);
        assert(((before & 0x0010u16) | 0x008fu16) & 0x0004u16 == 0x0004u16) by (bit_vector);
        assert(((before & 0x0010u16) | 0x008fu16) & 0x0008u16 == 0x0008u16) by (bit_vector);
        assert(((before & 0x0010u16) | 0x008fu16) & 0x0080u16 == 0x0080u16) by (bit_vector);
        assert(((before & 0x0010u16) | 0x008fu16) & 0x0010u16 == before & 0x0010u16)
            by (bit_vector);
        assert(((before & 0x0010u16) | 0x008fu16) & !(0x008fu16 | 0x0010u16) == 0)
            by (bit_vector);
    }
}

impl crate::mavlink::Message for Message {
    const MSGID: u8 = 246;

    const EXTRA: u8 = 0xb8;

    const PAYLEN: usize = 38;

    proof fn lemma_kind()
        ensures
            Self::MSGID == 246,
            Self::EXTRA == 0xb8,
            Self::PAYLEN == 38,
    {
    }

    open spec fn is_payload(&self, payload: Seq<u8>) -> bool {
        payload == self.payload()
    }

    open spec fn infallible() -> bool {
        true
    }

    open spec fn unpacked(&self, payload: Seq<u8>) -> Result<Self, CodecError> {
        Err(CodecError::NotImplemented)
    }

    open spec fn buffer(&self) -> Seq<u8> {
        self.buffy@
    }

    proof fn lemma_payload_len(&self, payload: Seq<u8>) {
    }

    fn serialise(&mut self, seq: &mut Sequence) -> (ret: &mut Self)
        ensures
            *ret == (Message { buffy: ret.buffy, ..*old(self) }),
            ret.buffy@ == frame(38, old(seq).value(), 246, 0xb8, old(self).payload()),
    {
        self.buffy = self.serialise_message(seq);
        self
    }

    fn deserialise(&mut self, buffy: &[u8]) -> (r: Result<(), CodecError>)
        ensures
            r == Err::<(), CodecError>(
                if buffy@.len() < HEADER_LEN + 38 {
                    CodecError::Truncated
                } else {
                    CodecError::NotImplemented
                },
            ),
            *final(self) == (Message { buffy: final(self).buffy, ..*old(self) }),
    {
        self.buffy = slice_to_vec(buffy);
        self.deserialise_message(buffy)
    }

    fn message(&self) -> (bytes: &[u8]) {
        self.buffy.as_slice()
    }

    fn pack_payload(&self, buffy: &mut Vec<u8>) -> (r: Result<(), CodecError>)
        ensures
            final(buffy)@ == old(buffy)@ + self.payload(),
    {
        put_u32(buffy, self.icao);
        put_i32(buffy, self.lat);
        put_i32(buffy, self.lon);
        put_i32(buffy, self.altitude);
        put_i16(buffy, self.heading);
        put_u16(buffy, self.horvelocity);
        put_i16(buffy, self.vervelocity);
        put_u16(buffy, self.validflags);
        put_u16(buffy, self.squawk);
        put_u8(buffy, self.altitudetype);
        let ghost before = buffy@;
        let mut ii: usize = 0;
        while ii < CALLSIGN_LEN
            invariant
                ii <= CALLSIGN_LEN,
                buffy@ == before + self.callsign@.take(ii as int),
            decreases CALLSIGN_LEN - ii,
        {
            put_u8(buffy, self.callsign[ii]);
            ii = ii + 1;
            assert(buffy@ =~= before + self.callsign@.take(ii as int));
        }
        assert(self.callsign@.take(CALLSIGN_LEN as int) =~= self.callsign@);
        put_u8(buffy, self.emittertype);
        put_u8(buffy, self.tslc);
        assert(buffy@ =~= old(buffy)@ + self.payload());
        assert(buffy@.take(old(buffy)@.len() as int) =~= old(buffy)@);
        assert(buffy@.skip(old(buffy)@.len() as int) =~= self.payload());
        Ok(())
    }

    fn unpack_payload(&mut self, payload: &[u8]) -> (r: Result<(), CodecError>) {
        Err(CodecError::NotImplemented)
    }
}

} // verus!
