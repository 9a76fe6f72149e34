[package]
name = "msm"
version = "0.1.0"
edition = "2021"
publish = false

[dependencies]
anyhow = "1"
iced = { version = "0.4", default-features = false, features = ["glow", "tokio"] }
lambda_runtime = "0.8"
reqwest = { version = "0.11", default-features = false, features = ["json", "rustls-tls"] }
rusoto_core = { version = "0.48", default-features = false, features = ["rustls"] }
rusoto_ec2 = { version = "0.48", default-features = false, features = ["rustls"] }
serde = { version = "1", features = ["derive"] }
serde_json = "1"
tokio = { version = "1", features = ["macros", "rt-multi-thread"] }
