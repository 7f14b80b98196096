[package]
name = "hue_monitor"
version = "0.1.0"
edition = "2021"
publish = false

[dependencies]
clap = { version = "*", features = ["derive"] }
duration-string = { version = "*", features = ["serde"] }
reqwest = { version = "*", features = ["blocking", "json", "native-tls"] }
serde = { version = "*", features = ["derive"] }
serde_json = "*"
telegraf = "*"
toml = "*"
