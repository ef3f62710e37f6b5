[package]
name = "axcelium"
version = "0.1.0"
edition = "2021"
publish = false

[dependencies]
aes-gcm = "0.10"
base64 = "0.22"
uuid = { version = "1", features = ["v4"] }
argon2 = "0.5"
rusty_paseto = "*"
chrono = "0.4"
redis = { version = "*", default-features = false, features = ["tokio-comp", "cluster"] }
serde = { version = "1", features = ["derive"] }
serde_json = "1"
tokio = { version = "1", features = ["full"] }
kafka = { version = "*", default-features = false }
scylla = "*"
async-trait = "*"
anyhow = "1"
thiserror = "*"
