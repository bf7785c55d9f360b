[package]
name = "tracewrap"
version = "0.1.0"
edition = "2021"
publish = false

[dependencies]
syn = { version = "1", features = ["full"] }
quote = "1"
proc-macro2 = { version = "1", features = ["span-locations"] }
