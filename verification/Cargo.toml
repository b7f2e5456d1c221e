[package]
name = "caliptra-auth-man-gen"
version = "0.1.0"
edition = "2021"
publish = false

[dependencies]
anyhow = "1"
hex = "0.4"
num-bigint = "0.4"
serde = { version = "1", features = ["derive"] }
serde_derive = "1"
simple_asn1 = "0.6"
tempfile = "3"
toml = "0.8"
