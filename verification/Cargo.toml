[package]
name = "ais_common"
version = "1.0.0"
edition = "2021"
publish = false

[dependencies]
dusa_collection_utils = "*"
rand = "0.8"
serde = { version = "*", features = ["derive"] }
serde_json = "*"
tokio = { version = "*", features = ["full"] }
systemctl = "*"
walkdir = "*"
gethostname = "*"
sysinfo = "*"
uuid = { version = "*", features = ["v4"] }
nix = { version = "*", features = ["user", "fs"] }
users = "*"
chrono = "*"
