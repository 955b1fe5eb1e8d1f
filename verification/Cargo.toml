[package]
name = "breathes"
version = "0.1.0"
edition = "2021"
publish = false

[dependencies]
clap = "=4.6.7"
crossterm = "=0.29.0"
ignore = "=0.4.33"
inquire = { version = "=0.9.4", features = ["editor"] }
serde = { version = "=1.0.229", features = ["derive"] }
serde_yaml = "=0.9.34"
spinners = "=4.2.0"
tabled = "=0.22.0"
toml = "=1.1.7"
urlencoding = "=2.1.3"
