[package]
name = "jetbra_tools"
version = "0.1.0"
edition = "2021"
publish = false

[dependencies]
axum = "0.7"
base64 = "0.22"
rand = "0.8"
rcgen = "0.11"
rsa = "0.9"
serde = { version = "1", features = ["derive"] }
serde_json = "1"
time = "0.3"
tokio = { version = "1", features = ["rt-multi-thread", "macros", "net"] }
toml = "0.8"
x509-parser = "0.16"
