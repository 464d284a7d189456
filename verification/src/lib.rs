//! Wire codec and scheduling rules of an ADS-B transponder simulator.
//!
//! The crate frames the five MAVLink messages that the simulated device
//! exchanges with a ground station, and decides what one tick of the
//! simulation emits.  Sockets, brokers, clocks that sleep and floating-point
//! arithmetic live with the application that drives it.

pub mod clock;
pub mod coords;
pub mod crc;
pub mod inet;
pub mod mavlink;
pub mod mqtt;
pub mod sim;
pub mod text;
pub mod wire;
