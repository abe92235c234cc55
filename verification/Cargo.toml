[package]
name = "sandra_gateway"
version = "0.1.0"
edition = "2021"
publish = false

[dependencies]
base64 = "0.22"
futures-util = "0.3"
local-ip-address = "*"
lopdf = "*"
mac_address = "*"
native-tls = "0.2"
reqwest = { version = "0.12", features = ["blocking"] }
rusqlite = { version = "*", features = ["bundled"] }
serde = { version = "1", features = ["derive"] }
serde_json = "1"
sysinfo = "*"
tokio = { version = "1", features = ["time"] }
tokio-tungstenite = { version = "*", features = ["native-tls"] }
url = "2"
urlencoding = "2"
uuid = { version = "1", features = ["v4"] }
