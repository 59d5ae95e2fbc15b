[package]
name = "nrf-esb"
version = "0.1.0"
edition = "2021"
publish = false

[dependencies]
defmt = "0.3"
embassy-nrf = { version = "=0.3.1", default-features = false, features = ["nrf52840", "unstable-pac"] }
embassy-sync = "=0.6.2"
embassy-time = { version = "=0.4.0", features = ["tick-hz-32_768"] }
