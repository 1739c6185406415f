[package]
name = "winch_stack"
version = "0.1.0"
edition = "2021"
publish = false

[dependencies]
smallvec = "1"
wat = "1"
wasmparser = { version = "*", default-features = false }
