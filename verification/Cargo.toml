[package]
name = "plugin_packager"
version = "0.1.0"
edition = "2021"
publish = false

[dependencies]
anyhow = "=1.0.104"
cargo_metadata = "=0.15.4"
indexmap = "=2.14.2"
rayon = "=1.12.0"
serde = { version = "=1.0.229", features = ["derive"] }
serde_json = "=1.0.151"
structopt = "=0.3.26"
tracing = "=0.1.44"
tracing-subscriber = "=0.3.23"
