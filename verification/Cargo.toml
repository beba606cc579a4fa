[package]
name = "namada_ping_middleware"
version = "0.1.0"
edition = "2021"
publish = false

[dependencies]
axum = "0.7"
base64 = "0.13"
dotenv = "0.15"
futures = "0.3"
serde = { version = "1", features = ["derive"] }
serde_json = "1"
tendermint = "0.34"
tendermint-proto = "0.34"
tendermint-rpc = { version = "0.34", features = ["http-client"] }
tokio = { version = "1", features = ["full"] }
tower-http = { version = "0.5", features = ["cors"] }
