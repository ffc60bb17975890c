[package]
name = "simpleddns"
version = "0.1.0"
edition = "2021"
publish = false

[dependencies]
base64 = "=0.22.1"
aes-gcm = "=0.10.3"
sha2 = "=0.10.9"
rand = "=0.8.8"
hostname = "=0.4.2"
hmac-sha1 = "=0.2.2"
urlencoding = "=2.1.3"
keyring = { version = "=3.6.3", features = ["apple-native", "windows-native", "linux-native"] }
chrono = "=0.4.45"
uuid = { version = "=1.29.0", features = ["v4"] }
serde = { version = "=1.0.229", features = ["derive"] }
serde_json = "=1.0.154"
tokio = { version = "=1.54.1", features = ["rt-multi-thread", "macros", "sync", "time", "signal"] }
reqwest = { version = "=0.12.28", default-features = false, features = ["json", "rustls-tls"] }
get_if_addrs = "=0.5.3"
directories = "=5.0.1"
tracing = "=0.1.44"
tracing-subscriber = "=0.3.23"
