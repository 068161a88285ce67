[package]
name = "pact_consumer_nif"
version = "0.1.0"
edition = "2021"
publish = false

[dependencies]
env_logger = { version = "=0.11.11", default-features = false }
log = "=0.4.34"
pact_consumer = { version = "=1.4.11", default-features = false, features = ["datetime"] }
pact_models = { version = "=1.3.17", default-features = false, features = ["datetime"] }
regex = "=1.13.1"
rustler = "=0.39.0"
serde_json = "=1.0.154"
tokio = { version = "=1.54.1", features = ["rt", "rt-multi-thread"] }

[dev-dependencies]
pact_matching = { version = "=2.1.0", default-features = false, features = ["datetime"] }
