[package]
name = "yetalauncher"
version = "0.1.0"
edition = "2021"
publish = false

[dependencies]
sha1_smol = "1"
fastrand = "2"
chrono = { version = "0.4", features = ["serde"] }
uuid = { version = "1", features = ["v4"] }
reqwest = { version = "0.11", features = ["json"] }
tokio = { version = "1", features = ["full"] }
tokio-util = "0.7"
serde = { version = "1", features = ["derive"] }
serde_json = "1"
serde_ini = "0.2"
jars = "*"
zip = "0.6"
dirs = "5"
log = "0.4"
simple_logger = "4"
afire = "2"
open = "5"
