[package]
name = "scone_policies"
version = "0.1.0"
edition = "2021"
publish = false

[dependencies]
clap = { version = "*", features = ["derive"] }
clap-verbosity-flag = "*"
colored = "*"
data-encoding = "*"
env_logger = "*"
google-authenticator = { version = "*", default-features = false, features = ["with-qrcode"] }
log = "*"
rand = "*"
serde = { version = "*", features = ["derive"] }
serde_json = "*"
shells = "*"
users = "*"
