[package]
name = "agent_core"
version = "26.1.0"
edition = "2021"
publish = false

[dependencies]
aes-gcm = "=0.10.3"
sha2 = "=0.11.1"
base64 = "=0.22.1"
serde = { version = "1", features = ["derive"] }
serde_json = "1"
toml = "=0.8.23"
tokio = { version = "1", features = ["full"] }
rumqttc = { version = "=0.25.1", features = ["websocket"] }
reqwest = { version = "=0.12.28", default-features = false, features = ["rustls-tls"] }
anyhow = "1"
async-trait = "0.1"
tracing = "0.1"
tracing-subscriber = { version = "0.3", features = ["env-filter"] }
tracing-appender = "0.2"
scopeguard = "1.2"
pdfium-render = "=0.8.37"
tray-item = "=0.10.0"
winreg = "0.52"
