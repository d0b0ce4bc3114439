[package]
name = "splinter_store"
version = "0.1.0"
edition = "2021"
publish = false

[dependencies]
clap = "=2.34.0"
cylinder = { version = "=0.2.4", features = ["jwt", "key-load"] }
diesel = { version = "=1.4.8", features = ["sqlite"] }
libc = "=0.2.191"
log = "=0.4.34"
log4rs = "=1.4.0"
rand = "=0.8.8"
serde = { version = "=1.0.229", features = ["derive"] }
toml = "0.5"
