[package]
name = "adsb_sim"
version = "0.1.0"
edition = "2021"
publish = false

[dependencies]
chrono = { version = "=0.4.45", default-features = false, features = ["now"] }
crc16 = "=0.4.0"
mosquitto-client = "=0.1.5"

[dev-dependencies]
byteorder = "=1.5.0"
