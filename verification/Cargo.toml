[package]
name = "libc-constant-deprecator"
version = "0.1.0"
edition = "2021"
publish = false

[dependencies]
anyhow = "=1.0.104"
cargo_metadata = "=0.23.1"
clap = { version = "=4.6.7", features = ["derive"] }
crossterm = { version = "=0.29.0", features = ["event-stream"] }
futures = "=0.3.34"
gix = { version = "=0.75.0", features = ["blocking-http-transport-reqwest-rust-tls"] }
# Taken by gix; later versions of it need a newer compiler.
kstring = "=2.0.2"
prettyplease = "=0.2.37"
proc-macro2 = { version = "=1.0.107", features = ["span-locations"] }
quote = "=1.0.47"
regex = "=1.13.1"
syn = { version = "=2.0.119", features = ["full", "extra-traits"] }
tokio = { version = "=1.54.1", features = ["full"] }
tracing = "=0.1.44"
tracing-subscriber = "=0.3.23"
walkdir = "=2.5.0"
