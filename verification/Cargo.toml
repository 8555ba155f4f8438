[package]
name = "wusheng-pool-client"
version = "0.1.0"
edition = "2021"
publish = false

[dependencies]
anyhow = "1"
ansi_term = "0.12"
bytes = "1"
erased-serde = "0.3"
futures-util = { version = "0.3", features = ["sink"] }
hex = "0.4"
json-rpc-types = "1"
log = "0.4"
log4rs = "1"
num_cpus = "1"
rand = "0.8"
rayon = "1"
serde = { version = "1", features = ["derive"] }
serde_json = "1"
snarkvm = "0.9"
structopt = "0.3"
tokio = { version = "1", features = ["full"] }
tokio-stream = "0.1"
tokio-util = { version = "0.7", features = ["codec"] }
