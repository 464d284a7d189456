use adsb_sim::coords::ScaledCwithV;
use adsb_sim::mavlink::msg202;
use adsb_sim::mavlink::msg246;
use adsb_sim::mavlink::msg246::{
    ALTITUDE_VALID, CALLSIGN_LEN, CALLSIGN_VALID, FILLED_VALID, HEADING_VALID, LAT_LON_VALID,
    VELOCITY_VALID, VERTICAL_VELOCITY_VALID,
};
use adsb_sim::mavlink::msg66;
use adsb_sim::mavlink::msg84;
use adsb_sim::mavlink::{Message, Sequence};

#[test]
fn new_ownship_report() {
    let m = msg202::Message::new();
    assert_eq!(m.message(), &[] as &[u8]);
    assert_eq!(m.utctime, 0);
    assert_eq!(m.latitude, 0);
    assert_eq!(m.longitude, 0);
    assert_eq!(m.altpres, 0);
    assert_eq!(m.altgnss, 0);
    assert_eq!(m.acchoriz, 0);
    assert_eq!(m.accvert, 0);
    assert_eq!(m.accvel, 0);
    assert_eq!(m.velvert, 0);
    assert_eq!(m.nsvog, 0);
    assert_eq!(m.ewvog, 0);
    assert_eq!(m.state, 0);
    assert_eq!(m.squawk, 0xdead);
    assert_eq!(m.fixtype, 4);
    assert_eq!(m.numsats, 7);
    assert_eq!(m.emstatus, 0);
    assert_eq!(m.control, 0x03);
}

#[test]
fn ownship_setters_and_getters() {
    let mut m = msg202::Message::new();
    m.set_latitude(511011677).set_longitude(-20513459).set_altitude(128000);
    m.set_rateofclimb(-50).set_ns_velocity(500).set_ew_velocity(-200);
    assert_eq!(m.latitude, 511011677);
    assert_eq!(m.longitude, -20513459);
    assert_eq!(m.altpres, 128000);
    assert_eq!(m.velvert, -50);
    assert_eq!(m.nsvog, 500);
    assert_eq!(m.ewvog, -200);
    assert_eq!(m.get_latitude(), 511011677);
    assert_eq!(m.get_longitude(), -20513459);
    assert_eq!(m.get_altitude(), 128000);
    assert_eq!(m.get_rateofclimb(), -50);
    assert_eq!(m.get_ns_velocity(), 500);
    assert_eq!(m.get_ew_velocity(), -200);
    assert_eq!(m.altgnss, 0);
    assert_eq!(m.squawk, 0xdead);
}

#[test]
fn ownship_takes_and_gives_a_vehicle() {
    let mut c = ScaledCwithV::new();
    c.set_position(1, -2, 3).set_velocity(4, -5, 6);
    let mut m = msg202::Message::new();
    m.set_cwithv(&c);
    assert_eq!(m.latitude, 1);
    assert_eq!(m.longitude, -2);
    assert_eq!(m.altpres, 3);
    assert_eq!(m.nsvog, 4);
    assert_eq!(m.ewvog, -5);
    assert_eq!(m.velvert, 6);
    let mut back = ScaledCwithV::new();
    m.get_cwithv(&mut back);
    assert_eq!(back, c);
}

#[test]
fn scaled_values_come_back_to_within_a_unit_of_the_wire() {
    // Degrees in units of 1e-7, metres of 1e-3, metres per second of 1e-2,
    // each cut off towards zero as the application cuts them.
    let cases: [(f64, f64, f64, f64, f64, f64); 4] = [
        (51.1011677, -2.0513459, 128.0, 5.0, -2.0, -0.5),
        (-90.0, 180.0, -420.0, -327.68, 327.67, 0.01),
        (90.0, -180.0, 11000.1234, 0.0, 0.0, 0.0),
        (0.000_000_1, -0.000_000_1, 0.001, 0.019, -0.019, 1.0),
    ];
    for (lat, lon, alt, ns, ew, ud) in cases {
        let mut c = ScaledCwithV::new();
        c.set_position((lat * 1.0e7) as i32, (lon * 1.0e7) as i32, (alt * 1.0e3) as i32);
        c.set_velocity((ns * 1.0e2) as i16, (ew * 1.0e2) as i16, (ud * 1.0e2) as i16);
        let mut seq = Sequence::new();
        let mut sent = msg202::Message::new();
        let frame: Vec<u8> = sent.set_cwithv(&c).serialise(&mut seq).message().to_vec();
        let mut got = msg202::Message::new();
        assert_eq!(got.deserialise(&frame), Ok(()));
        let mut back = ScaledCwithV::new();
        got.get_cwithv(&mut back);
        assert_eq!(back, c);
        assert!((back.latitude as f64 / 1.0e7 - lat).abs() < 1.5e-7);
        assert!((back.longitude as f64 / 1.0e7 - lon).abs() < 1.5e-7);
        assert!((back.altitude as f64 / 1.0e3 - alt).abs() < 1.5e-3);
        assert!((back.ns_velocity as f64 / 1.0e2 - ns).abs() < 1.5e-2);
        assert!((back.ew_velocity as f64 / 1.0e2 - ew).abs() < 1.5e-2);
        assert!((back.ud_velocity as f64 / 1.0e2 - ud).abs() < 1.5e-2);
    }
}

#[test]
fn new_traffic_report() {
    let m = msg246::Message::new();
    assert_eq!(m.icao, 0);
    assert_eq!(m.lat, 0);
    assert_eq!(m.lon, 0);
    assert_eq!(m.altitude, 0);
    assert_eq!(m.heading, 0);
    assert_eq!(m.horvelocity, 0);
    assert_eq!(m.vervelocity, 0);
    assert_eq!(m.validflags, 0x0010);
    assert_eq!(m.squawk, 0xdead);
    assert_eq!(m.altitudetype, 0);
    assert_eq!(&m.callsign, b"D-RisQ\0\0\0");
    assert_eq!(m.emittertype, 0);
    assert_eq!(m.tslc, 1);
}

#[test]
fn flag_values() {
    assert_eq!(LAT_LON_VALID, 0x0001);
    assert_eq!(ALTITUDE_VALID, 0x0002);
    assert_eq!(HEADING_VALID, 0x0004);
    assert_eq!(VELOCITY_VALID, 0x0008);
    assert_eq!(CALLSIGN_VALID, 0x0010);
    assert_eq!(VERTICAL_VELOCITY_VALID, 0x0080);
    assert_eq!(
        FILLED_VALID,
        LAT_LON_VALID | ALTITUDE_VALID | HEADING_VALID | VELOCITY_VALID | VERTICAL_VELOCITY_VALID
    );
    assert_eq!(CALLSIGN_LEN, 9);
}

#[test]
fn each_traffic_setter_marks_its_value_valid() {
    let mut m = msg246::Message::new();
    m.validflags = 0;
    m.set_gps(10, -20);
    assert_eq!((m.lat, m.lon, m.validflags), (10, -20, 0x0001));
    m.set_altitude(30);
    assert_eq!((m.altitude, m.validflags), (30, 0x0003));
    m.set_rateofclimb(-40);
    assert_eq!((m.vervelocity, m.validflags), (-40, 0x0083));
    m.set_heading(4500);
    assert_eq!((m.heading, m.validflags), (4500, 0x0087));
    m.set_groundspeed(141);
    assert_eq!((m.horvelocity, m.validflags), (141, 0x008f));
    m.set_callsign("G-ABCD");
    assert_eq!(m.validflags, 0x009f);
    // A flag that no setter knows stays where it is.
    m.validflags = 0x8000;
    m.set_heading(1);
    assert_eq!(m.validflags, 0x8004);
}

#[test]
fn callsign_is_padded_with_zeros() {
    let mut m = msg246::Message::new();
    m.validflags = 0;
    m.set_callsign("AB");
    assert_eq!(&m.callsign, b"AB\0\0\0\0\0\0\0");
    assert_eq!(m.validflags, CALLSIGN_VALID);
    m.set_callsign("123456789");
    assert_eq!(&m.callsign, b"123456789");
    m.set_callsign("");
    assert_eq!(&m.callsign, &[0u8; 9]);
    assert_eq!(m.validflags, CALLSIGN_VALID);
    // Two bytes to the character.
    m.set_callsign("\u{e9}t\u{e9}");
    assert_eq!(&m.callsign, &[0xc3, 0xa9, b't', 0xc3, 0xa9, 0, 0, 0, 0]);
}

#[test]
fn filling_a_traffic_report_keeps_only_the_callsign_flag() {
    let mut c = ScaledCwithV::new();
    c.set_position(511011677, -20513459, 128000).set_velocity(500, -200, -50);
    for (before, after) in [
        (0x0000u16, 0x008fu16),
        (0x0010, 0x009f),
        (0xffff, 0x009f),
        (0xffef, 0x008f),
        (0x0120, 0x008f),
        (0x8050, 0x009f),
        (0x008f, 0x008f),
    ] {
        let mut m = msg246::Message::new();
        m.validflags = before;
        m.squawk = 0x1200;
        m.set_cwithv(&c, 224, 9000);
        assert_eq!(m.validflags, after);
        assert_eq!(m.lat, 511011677);
        assert_eq!(m.lon, -20513459);
        assert_eq!(m.altitude, 128000);
        assert_eq!(m.vervelocity, -50);
        assert_eq!(m.heading, 224);
        assert_eq!(m.horvelocity, 9000);
        assert_eq!(m.squawk, 0x1200);
        assert_eq!(&m.callsign, b"D-RisQ\0\0\0");
        assert_eq!(m.tslc, 1);
    }
}

#[test]
fn filling_twice_leaves_no_trace_of_the_first_fill() {
    let mut first = ScaledCwithV::new();
    first.set_position(1, 2, 3).set_velocity(4, 5, 6);
    let second = ScaledCwithV::new();
    let mut m = msg246::Message::new();
    m.set_cwithv(&first, 7, 8);
    m.validflags |= 0x0120;
    m.set_cwithv(&second, 0, 0);
    assert_eq!(m.validflags, 0x009f);
    assert_eq!((m.lat, m.lon, m.altitude, m.vervelocity, m.heading, m.horvelocity), (0, 0, 0, 0, 0, 0));
    let mut fresh = msg246::Message::new();
    fresh.set_cwithv(&second, 0, 0);
    assert_eq!(m.validflags, fresh.validflags);
}

#[test]
fn new_target_and_new_request() {
    let t = msg84::Message::new();
    assert_eq!(t.time_boot_ms, 0);
    assert_eq!((t.system_id, t.component_id, t.coordinate_frame, t.type_mask), (0, 0, 0, 0));
    assert_eq!((t.x, t.y, t.z, t.vx, t.vy, t.vz), (0, 0, 0, 0, 0, 0));
    assert_eq!((t.afx, t.afy, t.afz, t.yaw, t.yaw_rate), (0, 0, 0, 0, 0));
    assert_eq!(f32::from_bits(t.vx), 0.0);
    assert_eq!(t.message(), &[] as &[u8]);
    let r = msg66::Message::new();
    assert_eq!(r.message(), &[] as &[u8]);
}

#[test]
fn payloads_have_the_length_that_the_kind_fixes() {
    let mut buf: Vec<u8> = vec![1, 2, 3];
    assert_eq!(msg66::Message::new().pack_payload(&mut buf), Ok(()));
    assert_eq!(buf.len(), 3 + 6);
    assert_eq!(msg202::Message::new().pack_payload(&mut buf), Ok(()));
    assert_eq!(buf.len(), 3 + 6 + 42);
    assert_eq!(msg246::Message::new().pack_payload(&mut buf), Ok(()));
    assert_eq!(buf.len(), 3 + 6 + 42 + 38);
    assert_eq!(msg84::Message::new().pack_payload(&mut buf), Ok(()));
    assert_eq!(buf.len(), 3 + 6 + 42 + 38 + 53);
    assert_eq!(&buf[..9], &[1, 2, 3, 0, 0, 0, 0, 0, 0]);
}
