[package]
name = "truinlag"
version = "0.1.0"
edition = "2021"
publish = false

[dependencies]
chrono = { version = "0.4", features = ["serde"] }
rand = "0.9"
rand_distr = "0.5"
strsim = "0.11"
geo = "0.29"
serde = { version = "1", features = ["derive"] }
bincode = "1"
tokio = { version = "1", features = ["full"] }
tokio-util = { version = "0.7", features = ["codec"] }
bytes = "1"
futures = "0.3"
image = { version = "0.25", default-features = false, features = ["jpeg"] }
async-broadcast = "0.7"
partially = { version = "0.2", features = ["derive"] }
bonsaidb = { version = "0.5", features = ["local", "async"] }
