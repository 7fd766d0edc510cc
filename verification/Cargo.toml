[package]
name = "flusty"
version = "0.1.0"
edition = "2021"
publish = false

[dependencies]
log = "0.4"
proc-macro2 = { version = "1", features = ["span-locations"] }
quote = "1"
serde = { version = "1", features = ["derive"] }
simplelog = "0.12"
syn = { version = "2", features = ["full"] }
toml = "0.8"
