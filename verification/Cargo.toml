[package]
name = "libconfig"
version = "0.1.0"
edition = "2021"
publish = false

[dependencies]
figment = { version = "0.10", features = ["toml", "env"] }
serde = { version = "1", features = ["derive"] }
toml = "*"
thiserror = "*"
libpath = "*"
