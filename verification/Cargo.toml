[package]
name = "bottles_next"
version = "0.1.0"
edition = "2021"
publish = false

[dependencies]
i18n-embed = { version = "0.15", features = ["fluent-system", "desktop-requester"] }
i18n-embed-fl = "0.9"
rust-embed = "8"
ron = "0.8"
serde = { version = "1", features = ["derive"] }
