use adsb_sim::coords::ScaledCwithV;
use adsb_sim::mavlink::msg202;
use adsb_sim::mavlink::msg84;
use adsb_sim::mavlink::{check_crc, CodecError, Message, Sequence};
use adsb_sim::sim::{
    classify, remaining_nanos, Course, Inbound, Simulation, Velocity, DEFAULT_ICAO, TICK_NANOS,
};

fn velocity(ns: f32, ew: f32, ud: f32) -> Velocity {
    Velocity { ns: ns.to_bits(), ew: ew.to_bits(), ud: ud.to_bits() }
}

fn target(vx: f32, vy: f32, vz: f32) -> Vec<u8> {
    let mut seq = Sequence::new();
    let mut m = msg84::Message::new();
    m.x = 100.0f32.to_bits();
    m.vx = vx.to_bits();
    m.vy = vy.to_bits();
    m.vz = vz.to_bits();
    m.afx = 9.0f32.to_bits();
    m.serialise(&mut seq).message().to_vec()
}

fn report(c: &ScaledCwithV) -> Vec<u8> {
    let mut seq = Sequence::new();
    let mut m = msg202::Message::new();
    m.set_cwithv(c).serialise(&mut seq).message().to_vec()
}

// What the application does with the velocity in force: metres per second
// to the centimetres per second of the report.
fn scaled(v: Velocity, at: ScaledCwithV) -> ScaledCwithV {
    let mut c = at;
    c.set_velocity(
        (f32::from_bits(v.ns) * 1.0e2) as i16,
        (f32::from_bits(v.ew) * 1.0e2) as i16,
        (f32::from_bits(v.ud) * 1.0e2) as i16,
    );
    c
}

fn ns_field(frame: &[u8]) -> i16 {
    i16::from_le_bytes([frame[6 + 30], frame[6 + 31]])
}

#[test]
fn constants() {
    assert_eq!(TICK_NANOS, 1_000_000_000);
    assert_eq!(DEFAULT_ICAO, 0x00300159);
}

#[test]
fn a_target_asks_for_its_velocity() {
    assert_eq!(classify(&target(5.0, 0.0, 0.0)), Inbound::Override(velocity(5.0, 0.0, 0.0)));
    assert_eq!(classify(&target(1.5, -2.5, 0.25)), Inbound::Override(velocity(1.5, -2.5, 0.25)));
}

#[test]
fn a_report_asks_to_place_the_intruder() {
    let mut c = ScaledCwithV::new();
    c.set_position(511011677, -20513459, 128000).set_velocity(500, -200, -50);
    assert_eq!(classify(&report(&c)), Inbound::Intruder(c));
}

#[test]
fn other_kinds_are_unexpected() {
    assert_eq!(
        classify(&[254, 1, 9, 25, 89, 203, 1, 199, 26]),
        Inbound::Unexpected { msgid: 203, seqno: 9 }
    );
    assert_eq!(classify(&[0, 0, 7, 0, 0, 0]), Inbound::Unexpected { msgid: 0, seqno: 7 });
    assert_eq!(classify(&[0, 0, 7, 0, 0, 246]), Inbound::Unexpected { msgid: 246, seqno: 7 });
}

#[test]
fn short_frames_are_undecodable() {
    assert_eq!(classify(&[]), Inbound::Undecodable(CodecError::Truncated));
    assert_eq!(classify(&[254, 53, 0, 25, 89]), Inbound::Undecodable(CodecError::Truncated));
    let t = target(5.0, 0.0, 0.0);
    assert_eq!(classify(&t[..58]), Inbound::Undecodable(CodecError::Truncated));
    assert_eq!(classify(&t[..59]), Inbound::Override(velocity(5.0, 0.0, 0.0)));
    let r = report(&ScaledCwithV::new());
    assert_eq!(classify(&r[..47]), Inbound::Undecodable(CodecError::Truncated));
    assert_eq!(classify(&r[..48]), Inbound::Intruder(ScaledCwithV::new()));
}

#[test]
fn course_override_and_lapse() {
    let mut c = Course::new(velocity(1.0, 2.0, 3.0));
    assert_eq!(c.pending, None);
    assert_eq!(c.velocity(), velocity(1.0, 2.0, 3.0));
    c.override_with(velocity(5.0, 0.0, 0.0));
    assert_eq!(c.velocity(), velocity(5.0, 0.0, 0.0));
    c.override_with(velocity(6.0, 0.0, 0.0));
    assert_eq!(c.velocity(), velocity(6.0, 0.0, 0.0));
    c.lapse();
    assert_eq!(c.velocity(), velocity(1.0, 2.0, 3.0));
    assert_eq!(c.baseline, velocity(1.0, 2.0, 3.0));
    c.lapse();
    assert_eq!(c.velocity(), velocity(1.0, 2.0, 3.0));
}

#[test]
fn new_simulation() {
    let sim = Simulation::new(velocity(1.0, 0.0, 0.0), false, DEFAULT_ICAO);
    assert_eq!(sim.velocity(), velocity(1.0, 0.0, 0.0));
    assert!(!sim.intruder_initialised);
    assert_eq!(sim.seq.peek(), 0);
    assert_eq!(sim.status.status, 1);
    assert_eq!(sim.trafficreport.icao, 0x00300159);
    assert_eq!(sim.trafficreport.validflags, 0x0010);
    assert!(Simulation::new(velocity(0.0, 0.0, 0.0), true, 1).intruder_initialised);
}

#[test]
fn a_commanded_velocity_is_reported_for_one_tick() {
    let mut sim = Simulation::new(velocity(0.0, 0.0, 0.0), false, DEFAULT_ICAO);
    let here = ScaledCwithV::new();

    assert_eq!(sim.receive(&target(5.0, 0.0, 0.0)), Inbound::Override(velocity(5.0, 0.0, 0.0)));
    assert_eq!(sim.velocity(), velocity(5.0, 0.0, 0.0));
    let burst = sim.burst(&scaled(sim.velocity(), here), &here, 0, 0);
    assert_eq!(burst[2].msgid, 202);
    assert_eq!(ns_field(&burst[2].bytes), 500);
    sim.end_tick();

    assert_eq!(sim.velocity(), velocity(0.0, 0.0, 0.0));
    let burst = sim.burst(&scaled(sim.velocity(), here), &here, 0, 0);
    assert_eq!(burst[2].msgid, 202);
    assert_eq!(ns_field(&burst[2].bytes), 0);
    sim.end_tick();
    assert_eq!(sim.velocity(), velocity(0.0, 0.0, 0.0));
}

#[test]
fn the_last_command_of_a_tick_wins() {
    let mut sim = Simulation::new(velocity(1.0, 1.0, 1.0), false, DEFAULT_ICAO);
    sim.receive(&target(5.0, 0.0, 0.0));
    sim.receive(&[254, 1, 9, 25, 89, 203, 1, 199, 26]);
    sim.receive(&target(0.0, 7.0, 0.0));
    sim.receive(&[]);
    assert_eq!(sim.velocity(), velocity(0.0, 7.0, 0.0));
    sim.end_tick();
    assert_eq!(sim.velocity(), velocity(1.0, 1.0, 1.0));
    sim.receive(&target(2.0, 0.0, 0.0));
    assert_eq!(sim.velocity(), velocity(2.0, 0.0, 0.0));
}

#[test]
fn what_is_not_understood_changes_nothing() {
    let mut sim = Simulation::new(velocity(1.0, 1.0, 1.0), false, DEFAULT_ICAO);
    assert_eq!(
        sim.receive(&[254, 1, 9, 25, 89, 203, 1, 199, 26]),
        Inbound::Unexpected { msgid: 203, seqno: 9 }
    );
    assert_eq!(sim.receive(&[1, 2, 3]), Inbound::Undecodable(CodecError::Truncated));
    assert_eq!(sim.velocity(), velocity(1.0, 1.0, 1.0));
    assert_eq!(sim.course.pending, None);
    assert!(!sim.intruder_initialised);
    assert_eq!(sim.seq.peek(), 0);
}

#[test]
fn the_burst_leaves_out_the_traffic_report_until_the_intruder_is_placed() {
    let mut sim = Simulation::new(velocity(0.0, 0.0, 0.0), false, 0x00abcdef);
    let mut uav = ScaledCwithV::new();
    uav.set_position(511011677, -20513459, 128000).set_velocity(500, -200, -50);
    let mut ufo = ScaledCwithV::new();
    ufo.set_position(1, 2, 3).set_velocity(4, 5, 6);

    let burst = sim.burst(&uav, &ufo, 4500, 640);
    assert_eq!(burst.len(), 3);
    assert_eq!(burst[0].msgid, 66);
    assert_eq!(burst[0].bytes, vec![254, 6, 0, 25, 89, 66, 0, 0, 0, 0, 0, 0, 67, 152]);
    assert_eq!(burst[1].msgid, 203);
    assert_eq!(burst[1].bytes, vec![254, 1, 1, 25, 89, 203, 1, 236, 30]);
    assert_eq!(burst[2].msgid, 202);
    assert_eq!(&burst[2].bytes[..6], &[254, 42, 2, 25, 89, 202]);
    assert_eq!(
        &burst[2].bytes[10..48],
        &[
            93, 107, 117, 30, 77, 253, 198, 254, 0, 244, 1, 0, 0, 0, 0, 0, 0, 0, 0, 0, 0, 0, 0,
            0, 206, 255, 244, 1, 56, 255, 0, 0, 173, 222, 4, 7, 0, 3
        ]
    );
    assert!(check_crc(&burst[2].bytes, 0x07));
    assert_eq!(sim.seq.peek(), 3);
    assert_eq!(sim.ownship.message(), &burst[2].bytes[..]);
    assert_eq!(sim.trafficreport.message(), &[] as &[u8]);
    sim.end_tick();

    assert_eq!(sim.receive(&report(&ufo)), Inbound::Intruder(ufo));
    assert!(sim.intruder_initialised);
    let burst = sim.burst(&uav, &ufo, 4500, 640);
    assert_eq!(burst.len(), 4);
    assert_eq!(
        (burst[0].msgid, burst[1].msgid, burst[2].msgid, burst[3].msgid),
        (66, 203, 202, 246)
    );
    assert_eq!(
        (burst[0].bytes[2], burst[1].bytes[2], burst[2].bytes[2], burst[3].bytes[2]),
        (3, 4, 5, 6)
    );
    assert_eq!(
        &burst[3].bytes[..44],
        &[
            254, 38, 6, 25, 89, 246, 0xef, 0xcd, 0xab, 0x00, 1, 0, 0, 0, 2, 0, 0, 0, 3, 0, 0, 0,
            0x94, 0x11, 0x80, 0x02, 6, 0, 0x9f, 0x00, 173, 222, 0, 68, 45, 82, 105, 115, 81, 0, 0,
            0, 0, 1
        ]
    );
    assert!(check_crc(&burst[3].bytes, 0xb8));
    assert_eq!(sim.trafficreport.message(), &burst[3].bytes[..]);
    assert_eq!(sim.seq.peek(), 7);
    sim.end_tick();
    assert!(sim.intruder_initialised);
    assert_eq!(sim.burst(&uav, &ufo, 0, 0).len(), 4);
}

#[test]
fn burst_numbers_wrap() {
    let mut sim = Simulation::new(velocity(0.0, 0.0, 0.0), true, 1);
    let c = ScaledCwithV::new();
    for _ in 0..63 {
        sim.burst(&c, &c, 0, 0);
    }
    assert_eq!(sim.seq.peek(), 252);
    let burst = sim.burst(&c, &c, 0, 0);
    assert_eq!(
        (burst[0].bytes[2], burst[1].bytes[2], burst[2].bytes[2], burst[3].bytes[2]),
        (252, 253, 254, 255)
    );
    assert_eq!(sim.seq.peek(), 0);
}

#[test]
fn waiting_fills_the_second() {
    assert_eq!(remaining_nanos(0), 1_000_000_000);
    assert_eq!(remaining_nanos(1), 999_999_999);
    assert_eq!(remaining_nanos(250_000_000), 750_000_000);
    assert_eq!(remaining_nanos(999_999_999), 1);
    assert_eq!(remaining_nanos(1_000_000_000), 0);
    assert_eq!(remaining_nanos(1_000_000_001), 0);
    assert_eq!(remaining_nanos(u128::MAX), 0);
}
