[package]
name = "ref_struct"
version = "0.1.0"
edition = "2021"
publish = false

[dependencies]
proc-macro2 = "=1.0.107"
quote = "=1.0.47"
syn = { version = "=2.0.119", features = ["full", "parsing", "printing"] }

[dev-dependencies]
serde = "1"
rmp-serde = "1"
