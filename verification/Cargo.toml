[package]
name = "iap_auth"
version = "0.1.0"
edition = "2021"
publish = false

[dependencies]
axum = "=0.6.20"
dotenv = "=0.15.0"
google-cloud-auth = "0.11"
headers = "=0.3.9"
jsonwebtoken = "=8.3.0"
reqwest = { version = "=0.11.27", features = ["json"] }
serde = { version = "1", features = ["derive"] }
serde_json = "=1.0.154"
thiserror = "1"
tokio = { version = "1", features = ["full"] }

[dev-dependencies]
base64 = "=0.21.7"
ring = "=0.16.20"
