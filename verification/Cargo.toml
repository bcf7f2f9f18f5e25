[package]
name = "hearth"
version = "0.1.0"
edition = "2021"
publish = false

[dependencies]
anyhow = "=1.0.104"
async_fn_traits = "=0.1.1"
futures = "=0.3.34"
hearth-interconnect = "=0.1.0"
log = "=0.4.35"
nanoid = "=0.4.0"
nats = "=0.26.0"
nonmax = "=0.5.5"
reqwest = { version = "=0.12.28", default-features = false, features = ["cookies", "rustls-tls"] }
serde_json = "=1.0.154"
tokio = { version = "=1.54.1", features = ["full"] }
url = "=2.5.8"
