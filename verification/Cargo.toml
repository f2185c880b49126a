[package]
name = "watertank_simulation_server"
version = "0.1.0"
edition = "2021"
publish = false

[dependencies]
env_logger = "0.10"
futures = "0.3"
futures-util = "0.3"
log = "0.4"
rand = "0.8"
rand_distr = "0.4"
serde = { version = "1", features = ["derive"] }
serde_json = "1"
tokio = { version = "1", features = ["full"] }
tokio-tungstenite = "0.20"
