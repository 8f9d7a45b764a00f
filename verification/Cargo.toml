[package]
name = "rustmate"
version = "0.1.0"
edition = "2021"
publish = false

[dependencies]
alloy-primitives = { version = "=0.3.3", features = ["tiny-keccak"] }
alloy-sol-types = "=0.3.1"
# Held back for stylus-sdk 0.4, which does not compile against later releases
# of ruint: they check the width of a byte array when the code is compiled.
ruint = { version = "=1.10.1", default-features = false }
stylus-sdk = "=0.4.3"
wee_alloc = "=0.4.5"
