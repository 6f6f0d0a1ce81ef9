[package]
name = "aplin"
version = "0.1.0"
edition = "2021"
publish = false

[dependencies]
bluer = { version = "=0.17.4", features = ["bluetoothd", "l2cap"] }
clap = { version = "=4.6.7", features = ["derive"] }
dbus = { version = "=0.9.12", features = ["vendored"] }
env_logger = "=0.11.11"
futures = "=0.3.34"
ksni = "=0.3.6"
log = "=0.4.34"
notify-rust = "=4.18.2"
resvg = { version = "=0.48.1", default-features = false }
serde = { version = "=1.0.229", features = ["derive"] }
serde_yml = "=0.0.13"
tokio = { version = "=1.53.2", features = ["rt-multi-thread", "macros", "time", "sync"] }
