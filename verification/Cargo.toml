[package]
name = "noodle"
version = "0.1.0"
edition = "2021"
publish = false

[dependencies]
argh = "=0.1.19"
async-std = { version = "=1.13.2", features = ["unstable"] }
chrono = "=0.4.45"
color-eyre = "=0.6.5"
ctrlc = { version = "=3.5.2", features = ["termination"] }
env_logger = "=0.11.11"
futures = "=0.3.34"
kv-log-macro = "=1.0.7"
log = { version = "=0.4.34", features = ["kv_unstable_serde"] }
pnet = "=0.35.0"
pulse = "=0.5.3"
rand = "=0.8.8"
rtnetlink = { version = "=0.23.0", default-features = false, features = ["smol_socket"] }
serde = { version = "=1.0.229", features = ["derive"] }
serde_json = "=1.0.154"
