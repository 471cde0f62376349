[package]
name = "modelkit"
version = "0.1.0"
edition = "2021"
publish = false

[dependencies]
anyhow = "1"
dynamo-tokens = "=1.2.1"
futures = "0.3"
hf-hub = { version = "=0.4.3", default-features = false }
kvbm-logical = { version = "=1.2.1", default-features = false }
modelexpress-client = { version = "~0.3", default-features = false }
modelexpress-common = { version = "~0.3", default-features = false }
tokio = { version = "1", features = ["rt", "rt-multi-thread", "time"] }
tracing = "0.1"
