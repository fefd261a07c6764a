[package]
name = "pokemon_arena"
version = "0.1.0"
edition = "2021"
publish = false

[dependencies]
anyhow = "1"
crossterm = "0.28"
lettre = { version = "0.11", default-features = false, features = ["builder", "smtp-transport", "tokio1", "tokio1-native-tls"] }
rand = "0.8"
ratatui = "0.29"
russh = "0.52"
serde = { version = "1", features = ["derive"] }
serde_json = "1"
termwiz = "0.23"
tokio = { version = "1", features = ["full"] }
