[package]
name = "devjournal"
version = "0.1.0"
edition = "2021"
publish = false

[dependencies]
aes-gcm = "0.10"
rand = "0.8"
serde = { version = "1", features = ["derive"] }
bincode = "1.3"
clap = { version = "4", features = ["derive"] }
crossterm = "0.25"
tui = "0.19"
tui-textarea = "0.2"
platform-dirs = "0.3"
