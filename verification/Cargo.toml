[package]
name = "vasko"
version = "0.1.0"
edition = "2021"
publish = false

[dependencies]
chrono = "0.4"
url = "2"
humantime = "2"
knuffel = "3"
reqwest = "*"
roux = "*"
serde = { version = "1", features = ["derive"] }
serde_json = "1"
slack-morphism = { version = "*", features = ["hyper"] }
thiserror = "*"
tokio = { version = "1", features = ["macros", "rt-multi-thread", "time"] }
