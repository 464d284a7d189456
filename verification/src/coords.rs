//! A vehicle's position and velocity as the messages carry them, and the
//! parameter string that places a vehicle at the start.
//!
//! The simulation keeps positions and velocities in floating point, which
//! this crate does not touch.  What crosses into a message has already been
//! scaled to the integers below; what comes out of a message is scaled back
//! by whoever asked.  Of the parameter string, the crate finds the six
//! numbers and says which of them are offsets in metres; reading them as
//! numbers is again the caller's.

use crate::text::{split, split_spec, texts};
use vstd::prelude::*;
use vstd::string::StrSliceExecFns;

verus! {

/// Position and velocity of a vehicle at the resolution of the wire.
#[derive(Clone, Copy, Debug, PartialEq, Eq, Structural)]
pub struct ScaledCwithV {
    /// Latitude in units of 1e-7 degrees.
    pub latitude: i32,
    /// Longitude in units of 1e-7 degrees.
    pub longitude: i32,
    /// Altitude in millimetres.
    pub altitude: i32,
    /// Velocity towards north in centimetres per second.
    pub ns_velocity: i16,
    /// Velocity towards east in centimetres per second.
    pub ew_velocity: i16,
    /// Rate of climb in centimetres per second.
    pub ud_velocity: i16,
}

impl ScaledCwithV {
    /// A vehicle at rest at the origin.
    pub fn new() -> (c: ScaledCwithV)
        ensures
            c == (ScaledCwithV {
                latitude: 0,
                longitude: 0,
                altitude: 0,
                ns_velocity: 0,
                ew_velocity: 0,
                ud_velocity: 0,
            }),
    {
        ScaledCwithV {
            latitude: 0,
            longitude: 0,
            altitude: 0,
            ns_velocity: 0,
            ew_velocity: 0,
            ud_velocity: 0,
        }
    }

    /// Sets the position and leaves the velocity.
    pub fn set_position(&mut self, latitude: i32, longitude: i32, altitude: i32) -> (ret: &mut Self)
        ensures
            *final(self) == *final(ret),
            *ret == (ScaledCwithV { latitude, longitude, altitude, ..*old(self) }),
    {
        self.latitude = latitude;
        self.longitude = longitude;
        self.altitude = altitude;
        self
    }

    /// Sets the velocity and leaves the position.
    pub fn set_velocity(&mut self, ns: i16, ew: i16, ud: i16) -> (ret: &mut Self)
        ensures
            *final(self) == *final(ret),
            *ret == (ScaledCwithV {
                ns_velocity: ns,
                ew_velocity: ew,
                ud_velocity: ud,
                ..*old(self)
            }),
    {
        self.ns_velocity = ns;
        self.ew_velocity = ew;
        self.ud_velocity = ud;
        self
    }
}

/// `s` without its first and its last character.
pub open spec fn inner(s: Seq<char>) -> Seq<char> {
    s.subrange(1, s.len() - 1)
}

/// Whether `token` gives an offset in metres from the home position: it
/// does where it ends in `m`.
pub open spec fn is_metres(token: Seq<char>) -> bool {
    token.len() > 0 && token.last() == 'm'
}

/// The part of `token` that is to be read as a number.
pub open spec fn number_text(token: Seq<char>) -> Seq<char> {
    if is_metres(token) {
        token.drop_last()
    } else {
        token
    }
}

/// The tokens of the two groups of `cli`, `(a b c),(d e f)`: what stands
/// between the first and last character of each of the first two parts
/// that commas separate, cut at the spaces.  None where a group is
/// missing, is shorter than its two brackets, or has fewer than three tokens.
pub open spec fn cli_groups(cli: Seq<char>) -> Option<(Seq<Seq<char>>, Seq<Seq<char>>)> {
    let fission = split_spec(cli, ',');
    if fission.len() < 2 || fission[0].len() < 2 || fission[1].len() < 2 {
        None
    } else {
        let coords = split_spec(inner(fission[0]), ' ');
        let vels = split_spec(inner(fission[1]), ' ');
        if coords.len() < 3 || vels.len() < 3 {
            None
        } else {
            Some((coords, vels))
        }
    }
}

/// One coordinate of a position as the parameter string gives it.
#[derive(Clone, Copy, Debug)]
pub struct Coordinate<'a> {
    /// The number as written, without the unit.
    pub text: &'a str,
    /// Whether the number is an offset in metres from the home position
    /// rather than a coordinate.
    pub metres: bool,
}

/// The six numbers of a parameter string, as written.
#[derive(Clone, Copy, Debug)]
pub struct VehicleParameters<'a> {
    /// Latitude in degrees, or metres north of home.
    pub latitude: Coordinate<'a>,
    /// Longitude in degrees, or metres east of home.
    pub longitude: Coordinate<'a>,
    /// Altitude in metres, or metres above home.
    pub altitude: Coordinate<'a>,
    /// Velocity towards north in metres per second.
    pub ns_velocity: &'a str,
    /// Velocity towards east in metres per second.
    pub ew_velocity: &'a str,
    /// Rate of climb in metres per second.
    pub ud_velocity: &'a str,
}

/// Whether `c` is what the token `token` says.
pub open spec fn is_coordinate(c: Coordinate, token: Seq<char>) -> bool {
    c.text@ == number_text(token) && c.metres == is_metres(token)
}

/// Reads one coordinate: a trailing `m` is the unit, the rest the number.
pub fn coordinate<'a>(token: &'a str) -> (c: Coordinate<'a>)
    ensures
        is_coordinate(c, token@),
{
    let n: usize = token.unicode_len();
    if n > 0 && token.get_char(n - 1) == 'm' {
        let text = token.substring_char(0, n - 1);
        assert(text@ =~= token@.drop_last());
        Coordinate { text, metres: true }
    } else {
        Coordinate { text: token, metres: false }
    }
}

/// `group` without its first and its last character, cut at the spaces.
pub fn tokens<'a>(group: &'a str) -> (pieces: Vec<&'a str>)
    requires
        group@.len() >= 2,
    ensures
        texts(pieces@) == split_spec(inner(group@), ' '),
{
    let n: usize = group.unicode_len();
    split(group.substring_char(1, n - 1), ' ')
}

/// Finds the six numbers in `cli`, which has the form
/// `(lat lon alt),(vns vew vud)`.  What the brackets are is not looked at,
/// nor what follows a third token or a second group.
pub fn split_cli<'a>(cli: &'a str) -> (r: Option<VehicleParameters<'a>>)
    ensures
        r is Some <==> cli_groups(cli@) is Some,
        r matches Some(p) ==> {
            let (coords, vels) = cli_groups(cli@)->Some_0;
            &&& is_coordinate(p.latitude, coords[0])
            &&& is_coordinate(p.longitude, coords[1])
            &&& is_coordinate(p.altitude, coords[2])
            &&& p.ns_velocity@ == vels[0]
            &&& p.ew_velocity@ == vels[1]
            &&& p.ud_velocity@ == vels[2]
        },
{
    let fission = split(cli, ',');
    if fission.len() < 2 {
        return None;
    }
    let position: &str = fission[0];
    let velocity: &str = fission[1];
    assert(position@ == texts(fission@)[0]);
    assert(velocity@ == texts(fission@)[1]);
    if position.unicode_len() < 2 || velocity.unicode_len() < 2 {
        return None;
    }
    let coords = tokens(position);
    let vels = tokens(velocity);
    if coords.len() < 3 || vels.len() < 3 {
        return None;
    }
    let latitude: &str = coords[0];
    let longitude: &str = coords[1];
    let altitude: &str = coords[2];
    let ns_velocity: &str = vels[0];
    let ew_velocity: &str = vels[1];
    let ud_velocity: &str = vels[2];
    assert(latitude@ == texts(coords@)[0]);
    assert(longitude@ == texts(coords@)[1]);
    assert(altitude@ == texts(coords@)[2]);
    assert(ns_velocity@ == texts(vels@)[0]);
    assert(ew_velocity@ == texts(vels@)[1]);
    assert(ud_velocity@ == texts(vels@)[2]);
    Some(
        VehicleParameters {
            latitude: coordinate(latitude),
            longitude: coordinate(longitude),
            altitude: coordinate(altitude),
            ns_velocity,
            ew_velocity,
            ud_velocity,
        },
    )
}

} // verus!
