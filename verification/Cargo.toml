[package]
name = "runix"
version = "0.1.0"
edition = "2021"
publish = false

[dependencies]
bit_field = "0.10"
spin = "0.9"
volatile = "0.2"
x86_64 = { version = "0.14", default-features = false, features = ["instructions"] }
