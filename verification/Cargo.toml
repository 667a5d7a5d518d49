[package]
name = "keylime_agent"
version = "0.1.0"
edition = "2021"
publish = false

[dependencies]
base64 = "0.22"
hex = "0.4"
sha2 = "0.10"
openssl = "0.10"
serde = { version = "1", features = ["derive"] }
serde_json = "1"
x509-parser = "*"
actix-web = { version = "4", default-features = false, features = ["macros", "openssl"] }
reqwest = { version = "0.12", default-features = false, features = ["json"] }
reqwest-middleware = "*"
tokio = { version = "1", features = ["rt", "macros", "signal", "sync"] }
thiserror = "*"
log = "0.4"
pretty_env_logger = "*"
clap = "4"
futures = "0.3"
tss-esapi = "7"
uuid = { version = "1", features = ["v4"] }
proxy-wasm = "0.2"
