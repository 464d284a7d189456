//! What one tick of the simulation decides.
//!
//! A tick takes in the frames that arrived since the last one, lets the
//! vehicles move, sends a burst of reports, and waits for the second to end.
//! Moving the vehicles, sending and waiting belong to the caller.  Decided
//! here: what an inbound frame asks for, which velocity the own-ship flies
//! this tick, which frames make up the burst, and how long to wait.

use crate::coords::ScaledCwithV;
use crate::mavlink::msg202;
use crate::mavlink::msg203;
use crate::mavlink::msg246;
use crate::mavlink::msg66;
use crate::mavlink::msg84;
use crate::mavlink::{
    advanced, frame, lemma_frame_payload, lemma_sequence_wraps, CodecError, Message, Sequence,
    HEADER_LEN, MSGID_AT, SEQNO_AT,
};
use crate::wire::{from_le16, from_le32, lemma_from_le_subrange, signed16, signed32, zeros};
use vstd::prelude::*;
use vstd::slice::slice_to_vec;

verus! {

broadcast use {crate::wire::lemma_le16_len, crate::wire::lemma_le32_len};

/// Length of a tick in nanoseconds.
pub const TICK_NANOS: u64 = 1_000_000_000;

/// ICAO address that the intruder is reported under where no topic names one.
pub const DEFAULT_ICAO: u32 = 0x00300159;

/// A velocity in metres per second, each component as the bits of a
/// single-precision float, the way a command carries it.
#[derive(Clone, Copy, Debug, PartialEq, Eq, Structural)]
pub struct Velocity {
    /// Towards north.
    pub ns: u32,
    /// Towards east.
    pub ew: u32,
    /// Vertical: the third component of the command, which the vehicle takes
    /// for its rate of climb.
    pub ud: u32,
}

/// The velocity that the own-ship was configured with, and the one that a
/// command has put in its place for the tick that is running, if any.
#[derive(Clone, Copy, Debug, PartialEq, Eq, Structural)]
pub struct Course {
    /// The configured velocity.
    pub baseline: Velocity,
    /// The velocity commanded for this tick.
    pub pending: Option<Velocity>,
}

impl Course {
    /// The velocity that the own-ship flies this tick.
    pub open spec fn in_force(self) -> Velocity {
        match self.pending {
            Some(v) => v,
            None => self.baseline,
        }
    }

    /// The course once a command for `v` has come in.
    pub open spec fn overridden(self, v: Velocity) -> Course {
        Course { baseline: self.baseline, pending: Some(v) }
    }

    /// The course once the tick is over.
    pub open spec fn lapsed(self) -> Course {
        Course { baseline: self.baseline, pending: None }
    }

    /// A course on which nothing is commanded.
    pub fn new(baseline: Velocity) -> (c: Course)
        ensures
            c == (Course { baseline, pending: None }),
    {
        Course { baseline, pending: None }
    }

    /// The velocity that the own-ship flies this tick.
    pub fn velocity(&self) -> (v: Velocity)
        ensures
            v == self.in_force(),
    {
        match self.pending {
            Some(v) => v,
            None => self.baseline,
        }
    }

    /// Puts `v` in force for the rest of this tick.
    pub fn override_with(&mut self, v: Velocity)
        ensures
            *final(self) == old(self).overridden(v),
    {
        self.pending = Some(v);
    }

    /// Ends the tick: what was commanded lapses.
    pub fn lapse(&mut self)
        ensures
            *final(self) == old(self).lapsed(),
    {
        self.pending = None;
    }

    /// A commanded velocity is in force for the tick in which it came in, the
    /// last command winning, and the configured one is back in force from the
    /// next tick on unless a new command comes.
    pub proof fn lemma_override_lasts_one_tick(c: Course, v: Velocity, w: Velocity)
        ensures
            c.overridden(v).in_force() == v,
            c.overridden(v).overridden(w).in_force() == w,
            c.overridden(v).lapsed().in_force() == c.baseline,
            c.lapsed().in_force() == c.baseline,
            c.overridden(v).lapsed().overridden(w).in_force() == w,
    {
    }
}

/// What an inbound frame asks of the simulation.
#[derive(Clone, Copy, Debug, PartialEq, Eq, Structural)]
pub enum Inbound {
    /// Fly this velocity for the tick that is running.
    Override(Velocity),
    /// Put the intruder where this report says, moving as it says.
    Intruder(ScaledCwithV),
    /// A kind that the simulation does not take in, with the frame's
    /// sequence number.
    Unexpected { msgid: u8, seqno: u8 },
    /// A frame that ends before its payload does.
    Undecodable(CodecError),
}

/// What `bytes` asks for.  The kind is read from the header; the payload is
/// taken as it stands, its checksum unread.
pub open spec fn understood(bytes: Seq<u8>) -> Inbound {
    if bytes.len() < HEADER_LEN {
        Inbound::Undecodable(CodecError::Truncated)
    } else if bytes[MSGID_AT as int] == 84 {
        if bytes.len() < HEADER_LEN + 53 {
            Inbound::Undecodable(CodecError::Truncated)
        } else {
            Inbound::Override(
                Velocity {
                    ns: from_le32(bytes, HEADER_LEN + 16),
                    ew: from_le32(bytes, HEADER_LEN + 20),
                    ud: from_le32(bytes, HEADER_LEN + 24),
                },
            )
        }
    } else if bytes[MSGID_AT as int] == 202 {
        if bytes.len() < HEADER_LEN + 42 {
            Inbound::Undecodable(CodecError::Truncated)
        } else {
            Inbound::Intruder(
                ScaledCwithV {
                    latitude: signed32(from_le32(bytes, HEADER_LEN + 4)),
                    longitude: signed32(from_le32(bytes, HEADER_LEN + 8)),
                    altitude: signed32(from_le32(bytes, HEADER_LEN + 12)),
                    ns_velocity: signed16(from_le16(bytes, HEADER_LEN + 30)),
                    ew_velocity: signed16(from_le16(bytes, HEADER_LEN + 32)),
                    ud_velocity: signed16(from_le16(bytes, HEADER_LEN + 28)),
                },
            )
        }
    } else {
        Inbound::Unexpected { msgid: bytes[MSGID_AT as int], seqno: bytes[SEQNO_AT as int] }
    }
}

/// The frame of a command asks for the velocity that the command holds.
pub proof fn lemma_understood_command(sent: msg84::Message, seqno: u8)
    ensures
        understood(frame(53, seqno, 84, 0xb8, sent.payload())) == Inbound::Override(
            Velocity { ns: sent.vx, ew: sent.vy, ud: sent.vz },
        ),
{
    let bytes = frame(53, seqno, 84, 0xb8, sent.payload());
    msg84::lemma_frame_roundtrip(sent, seqno, sent);
    lemma_frame_payload(53, seqno, 84, 0xb8, sent.payload());
    lemma_from_le_subrange(bytes, 6, 59, 16);
    lemma_from_le_subrange(bytes, 6, 59, 20);
    lemma_from_le_subrange(bytes, 6, 59, 24);
}

/// The frame of an own-ship report, whenever it was stamped, asks to place
/// the intruder where the report says.
pub proof fn lemma_understood_report(sent: msg202::Message, seqno: u8, utctime: u32)
    ensures
        understood(frame(42, seqno, 202, 0x07, sent.payload_at(utctime))) == Inbound::Intruder(
            sent.get_cwithv_spec(),
        ),
{
    let bytes = frame(42, seqno, 202, 0x07, sent.payload_at(utctime));
    msg202::lemma_frame_roundtrip(sent, seqno, utctime, sent);
    lemma_frame_payload(42, seqno, 202, 0x07, sent.payload_at(utctime));
    lemma_from_le_subrange(bytes, 6, 48, 4);
    lemma_from_le_subrange(bytes, 6, 48, 8);
    lemma_from_le_subrange(bytes, 6, 48, 12);
    lemma_from_le_subrange(bytes, 6, 48, 28);
    lemma_from_le_subrange(bytes, 6, 48, 30);
    lemma_from_le_subrange(bytes, 6, 48, 32);
}

/// What `bytes` asks for.
pub fn classify(bytes: &[u8]) -> (r: Inbound)
    ensures
        r == understood(bytes@),
{
    if bytes.len() < HEADER_LEN {
        return Inbound::Undecodable(CodecError::Truncated);
    }
    let msgid: u8 = bytes[MSGID_AT];
    proof {
        msg84::Message::lemma_kind();
        msg202::Message::lemma_kind();
    }
    if msgid == msg84::Message::MSGID {
        let mut settargetposition = msg84::Message::new();
        match settargetposition.deserialise(bytes) {
            Ok(()) => {
                proof {
                    lemma_from_le_subrange(bytes@, 6, 59, 16);
                    lemma_from_le_subrange(bytes@, 6, 59, 20);
                    lemma_from_le_subrange(bytes@, 6, 59, 24);
                }
                Inbound::Override(
                    Velocity {
                        ns: settargetposition.vx,
                        ew: settargetposition.vy,
                        ud: settargetposition.vz,
                    },
                )
            },
            Err(e) => Inbound::Undecodable(e),
        }
    } else if msgid == msg202::Message::MSGID {
        let mut ownship = msg202::Message::new();
        match ownship.deserialise(bytes) {
            Ok(()) => {
                let mut intruder = ScaledCwithV::new();
                ownship.get_cwithv(&mut intruder);
                proof {
                    lemma_from_le_subrange(bytes@, 6, 48, 4);
                    lemma_from_le_subrange(bytes@, 6, 48, 8);
                    lemma_from_le_subrange(bytes@, 6, 48, 12);
                    lemma_from_le_subrange(bytes@, 6, 48, 28);
                    lemma_from_le_subrange(bytes@, 6, 48, 30);
                    lemma_from_le_subrange(bytes@, 6, 48, 32);
                }
                Inbound::Intruder(intruder)
            },
            Err(e) => Inbound::Undecodable(e),
        }
    } else {
        Inbound::Unexpected { msgid, seqno: bytes[SEQNO_AT] }
    }
}

/// How long to wait once a tick's work has taken `elapsed` nanoseconds: to
/// the end of the second, or not at all where the work overran it.
pub fn remaining_nanos(elapsed: u128) -> (wait: u64)
    ensures
        elapsed < TICK_NANOS ==> wait == TICK_NANOS - elapsed,
        elapsed >= TICK_NANOS ==> wait == 0,
{
    if elapsed < TICK_NANOS as u128 {
        TICK_NANOS - elapsed as u64
    } else {
        0
    }
}

/// One frame of a burst, ready to be sent.
pub struct Outbound {
    /// Kind of the frame, which also names the topic that it goes out under.
    pub msgid: u8,
    /// The frame.
    pub bytes: Vec<u8>,
}

/// The simulation between two ticks: the own-ship's course, whether the
/// intruder has a position yet, the counter that numbers outgoing frames,
/// and the four reports, which are filled anew and sent every tick.
pub struct Simulation {
    /// Configured and commanded velocity of the own-ship.
    pub course: Course,
    /// Whether the intruder has been placed, at start or by a report.
    pub intruder_initialised: bool,
    /// Numbers the outgoing frames of every kind.
    pub seq: Sequence,
    /// The data stream request of each burst.
    pub datastreamrequest: msg66::Message,
    /// The status report of each burst.
    pub status: msg203::Message,
    /// The report on the own-ship of each burst.
    pub ownship: msg202::Message,
    /// The report on the intruder of each burst.
    pub trafficreport: msg246::Message,
}

impl Simulation {
    /// The own-ship report as a burst fills it from `uav`.
    pub open spec fn filled_ownship(self, uav: ScaledCwithV) -> msg202::Message {
        msg202::Message {
            latitude: uav.latitude,
            longitude: uav.longitude,
            altpres: uav.altitude,
            nsvog: uav.ns_velocity,
            ewvog: uav.ew_velocity,
            velvert: uav.ud_velocity,
            ..self.ownship
        }
    }

    /// The traffic report as a burst fills it from `ufo`, flying `heading`
    /// at `groundspeed`.
    pub open spec fn filled_traffic(
        self,
        ufo: ScaledCwithV,
        heading: i16,
        groundspeed: u16,
    ) -> msg246::Message {
        msg246::Message {
            lat: ufo.latitude,
            lon: ufo.longitude,
            altitude: ufo.altitude,
            vervelocity: ufo.ud_velocity,
            heading,
            horvelocity: groundspeed,
            validflags: (self.trafficreport.validflags & msg246::CALLSIGN_VALID)
                | msg246::FILLED_VALID,
            ..self.trafficreport
        }
    }

    /// The number of frames in a burst: the traffic report is left out until
    /// the intruder has been placed.
    pub open spec fn burst_len(self) -> nat {
        if self.intruder_initialised {
            4
        } else {
            3
        }
    }

    /// A simulation whose own-ship flies `baseline`, whose intruder is
    /// reported under `icao`, and whose first frame is numbered 0.
    pub fn new(baseline: Velocity, intruder_initialised: bool, icao: u32) -> (sim: Simulation)
        ensures
            sim.course == (Course { baseline, pending: None }),
            sim.intruder_initialised == intruder_initialised,
            sim.seq.value() == 0,
            sim.status.status == 1,
            sim.trafficreport.icao == icao,
            sim.trafficreport.validflags == msg246::CALLSIGN_VALID,
    {
        let mut trafficreport = msg246::Message::new();
        trafficreport.icao = icao;
        Simulation {
            course: Course::new(baseline),
            intruder_initialised,
            seq: Sequence::new(),
            datastreamrequest: msg66::Message::new(),
            status: msg203::Message::new(),
            ownship: msg202::Message::new(),
            trafficreport,
        }
    }

    /// Takes in one inbound frame.  A velocity command is in force until the
    /// tick ends; a report places the intruder, which from then on is
    /// reported in every burst; anything else changes nothing.
    pub fn receive(&mut self, bytes: &[u8]) -> (r: Inbound)
        ensures
            r == understood(bytes@),
            final(self).course == (match r {
                Inbound::Override(v) => old(self).course.overridden(v),
                _ => old(self).course,
            }),
            final(self).intruder_initialised == (old(self).intruder_initialised
                || r is Intruder),
            *final(self) == (Simulation {
                course: final(self).course,
                intruder_initialised: final(self).intruder_initialised,
                ..*old(self)
            }),
    {
        let r = classify(bytes);
        match r {
            Inbound::Override(v) => {
                self.course.override_with(v);
            },
            Inbound::Intruder(_) => {
                self.intruder_initialised = true;
            },
            _ => {},
        }
        r
    }

    /// The velocity that the own-ship flies this tick.
    pub fn velocity(&self) -> (v: Velocity)
        ensures
            v == self.course.in_force(),
    {
        self.course.velocity()
    }

    /// The frames of this tick, in the order in which they go out: data
    /// stream request, status, own-ship report filled from `uav`, and, once
    /// the intruder has been placed, traffic report filled from `ufo`.  They
    /// are numbered one after the other.
    pub fn burst(
        &mut self,
        uav: &ScaledCwithV,
        ufo: &ScaledCwithV,
        heading: i16,
        groundspeed: u16,
    ) -> (out: Vec<Outbound>)
        ensures
            out@.len() == old(self).burst_len(),
            final(self).seq.value() == advanced(old(self).seq.value(), old(self).burst_len()),
            final(self).course == old(self).course,
            final(self).intruder_initialised == old(self).intruder_initialised,
            out@[0].msgid == 66,
            out@[0].bytes@ == frame(6, old(self).seq.value(), 66, 0x94, zeros(6)),
            out@[1].msgid == 203,
            out@[1].bytes@ == frame(
                1,
                advanced(old(self).seq.value(), 1),
                203,
                0x55,
                seq![old(self).status.status],
            ),
            out@[2].msgid == 202,
            out@[2].bytes@ == frame(
                42,
                advanced(old(self).seq.value(), 2),
                202,
                0x07,
                old(self).filled_ownship(*uav).payload_at(
                    from_le32(out@[2].bytes@, HEADER_LEN as int),
                ),
            ),
            old(self).intruder_initialised ==> out@[3].msgid == 246 && out@[3].bytes@ == frame(
                38,
                advanced(old(self).seq.value(), 3),
                246,
                0xb8,
                old(self).filled_traffic(*ufo, heading, groundspeed).payload(),
            ),
            final(self).datastreamrequest.buffy@ == out@[0].bytes@,
            final(self).status == (msg203::Message {
                buffy: final(self).status.buffy,
                ..old(self).status
            }),
            final(self).status.buffy@ == out@[1].bytes@,
            final(self).ownship == (msg202::Message {
                buffy: final(self).ownship.buffy,
                ..old(self).filled_ownship(*uav)
            }),
            final(self).ownship.buffy@ == out@[2].bytes@,
            old(self).intruder_initialised ==> final(self).trafficreport == (msg246::Message {
                buffy: final(self).trafficreport.buffy,
                ..old(self).filled_traffic(*ufo, heading, groundspeed)
            }) && final(self).trafficreport.buffy@ == out@[3].bytes@,
            !old(self).intruder_initialised ==> final(self).trafficreport == old(
                self,
            ).trafficreport,
    {
        let ghost first = self.seq.value();
        proof {
            lemma_sequence_wraps(first, 0);
            lemma_sequence_wraps(first, 1);
            lemma_sequence_wraps(first, 2);
            lemma_sequence_wraps(first, 3);
            msg66::Message::lemma_kind();
            msg203::Message::lemma_kind();
            msg202::Message::lemma_kind();
            msg246::Message::lemma_kind();
        }
        let mut out: Vec<Outbound> = Vec::with_capacity(4);

        self.datastreamrequest.serialise(&mut self.seq);
        out.push(
            Outbound {
                msgid: msg66::Message::MSGID,
                bytes: slice_to_vec(self.datastreamrequest.message()),
            },
        );

        self.status.serialise(&mut self.seq);
        out.push(
            Outbound {
                msgid: msg203::Message::MSGID,
                bytes: slice_to_vec(self.status.message()),
            },
        );

        self.ownship.set_cwithv(uav);
        self.ownship.serialise(&mut self.seq);
        out.push(
            Outbound {
                msgid: msg202::Message::MSGID,
                bytes: slice_to_vec(self.ownship.message()),
            },
        );

        if self.intruder_initialised {
            self.trafficreport.set_cwithv(ufo, heading, groundspeed);
            self.trafficreport.serialise(&mut self.seq);
            out.push(
                Outbound {
                    msgid: msg246::Message::MSGID,
                    bytes: slice_to_vec(self.trafficreport.message()),
                },
            );
        }
        out
    }

    /// Ends the tick: a velocity that was commanded lapses, and the
    /// configured one is in force again.
    pub fn end_tick(&mut self)
        ensures
            final(self).course == old(self).course.lapsed(),
            final(self).course.in_force() == old(self).course.baseline,
            *final(self) == (Simulation { course: final(self).course, ..*old(self) }),
    {
        self.course.lapse();
    }
}

} // verus!
