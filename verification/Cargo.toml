[package]
name = "uip"
version = "0.1.0"
edition = "2021"
publish = false

[dependencies]
bytes = "1"
byteorder = "1"
openssl = "0.10"
serde = { version = "1", features = ["derive"] }
rmp-serde = "1"
toml = "*"
tokio = { version = "1", features = ["full"] }
tokio-util = { version = "0.7", features = ["codec", "io"] }
tokio-openssl = "0.6"
tokio-stream = "0.1"
futures = "0.3"
futures-util = "0.3"
log = "0.4"
fern = "*"
clap = "2"
igd = { version = "0.12", features = ["aio"] }
nix = "0.23"
webrtc-util = { version = "*", default-features = false, features = ["conn"] }
async-trait = "0.1"
pin-project-lite = "0.2"
interfaces = "*"
