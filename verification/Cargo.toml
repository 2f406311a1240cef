[package]
name = "rust_mqtt_chat"
version = "0.1.0"
edition = "2021"
publish = false

[dependencies]
anyhow = "1"
async-trait = "0.1"
chrono = { version = "0.4", features = ["serde"] }
crossterm = { version = "0.19", features = ["event-stream"] }
futures = "0.3"
magic-crypt = "3"
paho-mqtt = "0.9"
rand = "0.8"
rand_pcg = "0.3"
rand_seeder = "0.2"
serde = { version = "1", features = ["derive"] }
serde_json = "1"
structopt = "0.3"
tokio = { version = "1", features = ["rt", "macros", "time", "sync"] }
tui = { version = "0.15", default-features = false, features = ["crossterm"] }
