[package]
name = "cc_policy"
version = "0.1.0"
edition = "2021"
publish = false

[dependencies]
sha2 = "*"
base64 = "*"
serde_json = "*"
serde = { version = "*", features = ["derive"] }
serde_yaml = "*"
anyhow = "*"
clap = { version = "*", features = ["derive"] }
tokio = { version = "*", features = ["full"] }
reqwest = { version = "*", default-features = false }
flate2 = "*"
sev = { version = "*", default-features = false, features = ["snp"] }
tonic = "*"
tower = "*"
containerd-client = "*"
k8s-cri = "*"
