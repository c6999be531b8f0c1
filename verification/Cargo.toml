[package]
name = "network_behaviour"
version = "0.1.0"
edition = "2021"
publish = false

[dependencies]
bytes = "1"
futures = "0.3"
libp2p = { version = "0.37", default-features = false, features = ["identify", "kad"] }
log = "0.4"
prost = "0.7"
void = "1"
