[package]
name = "asn1rs"
version = "0.1.0"
edition = "2021"
publish = false

[dependencies]
codegen = "0.1"
