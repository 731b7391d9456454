[package]
name = "ursa_bls"
version = "0.1.0"
edition = "2021"
publish = false

[dependencies]
amcl_wrapper = { version = "=0.3.5", features = ["bls381"] }
serde = { version = "=1.0.229", features = ["derive"] }
