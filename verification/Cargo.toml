[package]
name = "inviteify"
version = "0.1.0"
edition = "2021"
publish = false

[dependencies]
clap = { version = "4", features = ["derive", "env"] }
qrcode = { version = "0.14", default-features = false, features = ["svg"] }
reqwest = { version = "0.12", features = ["json"] }
serde = { version = "1", features = ["derive"] }
serde_json = "1"
time = { version = "0.3", features = ["serde-well-known"] }
tokio = { version = "1", features = ["macros", "rt-multi-thread"] }
