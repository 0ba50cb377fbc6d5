[package]
name = "mdws"
version = "0.1.0"
edition = "2021"
publish = false

[dependencies]
rust_decimal = "=1.43.0"
chrono = { version = "=0.4.45", features = ["serde"] }
serde = { version = "=1.0.229", features = ["derive"] }
serde_json = "=1.0.154"
tokio = { version = "=1.54.1", features = ["full"] }
tokio-tungstenite = "=0.30.0"
futures-util = { version = "=0.3.34", features = ["sink"] }
rabbitmq-stream-client = "=0.11.0"
dotenvy = "=0.15.7"
anyhow = "=1.0.104"
tracing = "=0.1.44"
tracing-subscriber = { version = "=0.3.23", features = ["env-filter"] }
tracing-error = "=0.2.1"
redis = { version = "=1.8.1", features = ["tokio-comp", "connection-manager"] }
axum = "=0.8.9"
tower-http = { version = "=0.7.1", features = ["trace"] }
tokio-stream = { version = "=0.1.19", features = ["sync"] }
snowflake_me = { version = "=2.2.0", features = ["ip-fallback"] }
ratatui = "=0.30.2"
crossterm = { version = "=0.29.0", features = ["event-stream"] }
color-eyre = "=0.6.5"
ta = "=0.5.0"
