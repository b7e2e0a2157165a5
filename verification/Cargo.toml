[package]
name = "canhttp"
version = "0.1.0"
edition = "2021"
publish = false

[dependencies]
assert_matches = "1.5"
candid = "0.10"
futures-util = "0.3"
http = "1"
ic-cdk = "0.17"
ic-error-types = "*"
num-traits = "0.2"
pin-project = "1"
serde = { version = "1", features = ["derive"] }
serde_json = "1"
thiserror = "2"
tower = { version = "0.5", features = ["filter", "util"] }
tower-layer = "0.3"

[dev-dependencies]
itertools = "0.14"
