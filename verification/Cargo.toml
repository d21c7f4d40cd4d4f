[package]
name = "dcp"
version = "0.1.0"
edition = "2021"
publish = false

[dependencies]
time = { version = "0.3", features = ["formatting", "parsing", "local-offset"] }
serde = { version = "1", features = ["derive"] }
serde_json = "1"
axum = { version = "0.8", features = ["ws"] }
tokio = { version = "1", features = ["full"] }
futures = "0.3"
futures-util = "0.3"
rusqlite = { version = "0.32", features = ["bundled"] }
crossterm = "0.28"
ratatui = "0.29"
tokio-tungstenite = "0.26"
