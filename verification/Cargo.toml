[package]
name = "tps6507x"
version = "0.1.0"
edition = "2021"
publish = false

[dependencies]
bitfield = "0.13"
embedded-hal = { version = "0.2", features = ["unproven"] }
nb = "1"

[dev-dependencies]
embedded-hal-mock = "0.8"
