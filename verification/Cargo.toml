[package]
name = "amoeba"
version = "0.1.0"
edition = "2021"
publish = false

[dependencies]
anyhow = "1"
async-process = "2"
async-trait = "0.1"
dotenv = "0.15"
flume = "=0.11.1"
futures = { version = "=0.3.34", features = ["thread-pool"] }
futures-timer = "3"
log = "0.4"
num_cpus = "=1.17.0"
serde = { version = "1", features = ["derive"] }
serde_json = "=1.0.151"
strfmt = "=0.2.6"
surf = { version = "=2.3.2", default-features = false, features = ["h1-client-rustls"] }
thiserror = "1"
uuid = { version = "=1.27.0", features = ["v4"] }
