[package]
name = "oidcx"
version = "0.1.0"
edition = "2021"
publish = false

[dependencies]
bytes = "1"
cedar-policy = "=4.14.1"
chrono = { version = "0.4", default-features = false, features = ["clock", "std"] }
config = { version = "0.15", default-features = false, features = ["toml"] }
dropshot = "=0.16.7"
futures-util = { version = "0.3", default-features = false, features = ["std"] }
jsonwebtoken = { version = "=10.4.0", features = ["aws_lc_rs"] }
reqwest = { version = "=0.12.28", default-features = false, features = ["json"] }
schemars = "0.8"
secrecy = "0.10"
serde = { version = "1", features = ["derive"] }
serde_json = "=1.0.154"
tap = "1"
thiserror = "2"
tokio = { version = "1", features = ["rt-multi-thread"] }
tracing = { version = "0.1", default-features = false, features = ["std"] }

[dev-dependencies]
base64 = "0.22"
