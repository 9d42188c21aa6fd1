[package]
name = "polling"
version = "0.1.0"
edition = "2021"
publish = false

[dependencies]
axum = { version = "0.8", features = ["ws"] }
chrono = { version = "0.4", features = ["serde"] }
dotenv = "0.15"
futures = "0.3"
http = "1"
reqwest = { version = "0.12", default-features = false }
serde = { version = "1", features = ["derive"] }
serde_json = "1"
sqlx = { version = "0.8", default-features = false, features = ["mysql", "runtime-tokio"] }
thiserror = "1"
tokio = { version = "1", features = ["full"] }
tokio-tungstenite = "*"
tower-http = { version = "0.6", features = ["cors"] }
tower-sessions = "*"
tracing = "0.1"
tracing-subscriber = { version = "0.3", features = ["env-filter"] }
uuid = { version = "1", features = ["v4", "serde"] }
webauthn-rs = { version = "0.5", features = ["danger-allow-state-serialisation"] }

[dev-dependencies]
webauthn-authenticator-rs = { version = "*", features = ["softpasskey"] }
