[package]
name = "ingestion"
version = "0.1.0"
edition = "2021"
publish = false

[dependencies]
lopdf = "*"
uuid = { version = "1", features = ["v4"] }
chrono = "0.4"
anyhow = "1"
dotenv = "*"
firestore = "*"
futures = "0.3"
prost = "*"
rustls = { version = "*", features = ["ring"] }
serde = { version = "1", features = ["derive"] }
tokio = { version = "1", features = ["full"] }
tokio-stream = "0.1"
tonic = "*"
tonic-prost = "*"
tonic-web = "*"
tower-http = { version = "*", features = ["cors"] }
