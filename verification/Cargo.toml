[package]
name = "a2a"
version = "0.1.0"
edition = "2021"
publish = false

[dependencies]
base64 = "=0.22.1"
eventsource-stream = "=0.2.3"
futures-core = "=0.3.34"
futures-util = "=0.3.34"
p256 = { version = "=0.13.2", features = ["ecdsa"] }
reqwest = { version = "=0.12.28", default-features = false, features = ["stream"] }
rsa = "=0.9.10"
serde = { version = "=1.0.229", features = ["derive"] }
serde_json = "=1.0.154"
sha2 = { version = "=0.10.9", features = ["oid"] }
time = { version = "=0.3.55", features = ["formatting", "parsing", "macros"] }

[dev-dependencies]
rand_core = { version = "=0.6.4", features = ["getrandom"] }
