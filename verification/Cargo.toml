[package]
name = "ssh_nicety_common"
version = "0.1.0"
edition = "2021"
publish = false

[dependencies]
anyhow = "1"
confy = "*"
listenfd = "*"
secstr = { version = "0.5", features = ["serde"] }
serde = { version = "1", features = ["derive"] }
serde_json = { version = "1", features = ["preserve_order"] }
shell-escape = "0.1"
