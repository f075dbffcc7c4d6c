[package]
name = "huskarl_login"
version = "0.1.0"
edition = "2021"
publish = false

[dependencies]
base64 = "=0.22.1"
bytes = "=1.12.1"
ciborium = "=0.2.2"
http = "=1.5.0"
huskarl = "=0.11.10"
log = "=0.4.35"
metrics = "=0.24.6"
rand = "=0.10.3"
serde = { version = "=1.0.229", features = ["derive"] }
serde_html_form = "=0.4.1"
serde_json = "=1.0.154"
snafu = "=0.9.2"
uuid = { version = "=1.29.0", features = ["serde", "v7"] }
