[package]
name = "snowtracks"
version = "0.1.0"
edition = "2021"
publish = false

[dependencies]
bincode-next = { version = "*", features = ["serde"] }
clap = "4"
dialoguer = "*"
serde = { version = "1", features = ["derive"] }
serde_json = "1"
serde_repr = "*"
sha1 = "*"
toml = "*"
users = "*"
