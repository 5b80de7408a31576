[package]
name = "pitchperfect"
version = "0.1.0"
edition = "2021"
publish = false

[dependencies]
serde_json = "*"
uuid = { version = "*", features = ["v4"] }
unidecode = "*"
tokio = { version = "*", features = ["full"] }
axum = "*"
async-channel = "*"
serde = { version = "*", features = ["derive"] }
futures-util = "*"
tokio-stream = { version = "*", features = ["sync"] }
tower-http = { version = "*", features = ["cors", "trace"] }
tracing = "*"
tracing-subscriber = { version = "*", features = ["env-filter"] }
local-ip-address = "*"
dirs = "*"
dotenv = "*"
