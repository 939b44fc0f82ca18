[package]
name = "cosmic-markdown"
version = "0.1.0"
edition = "2021"
publish = false

[dependencies]
i18n-embed = { version = "*", features = ["fluent-system", "desktop-requester"] }
i18n-embed-fl = "*"
notify = "*"
open = "*"
rust-embed = "*"
tokio = { version = "1", features = ["fs", "sync"] }
