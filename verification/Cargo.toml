[package]
name = "downfav"
version = "0.1.0"
edition = "2021"
publish = false

[dependencies]
chrono = "=0.4.45"
clap = "=2.34.0"
directories = "=3.0.2"
elefren = "=0.22.0"
env_logger = "=0.8.4"
html2md = "=0.2.17"
html5ever = "=0.39.0"
log = "=0.4.34"
markup5ever_rcdom = "=0.39.0"
reqwest = "=0.9.24"
serde = { version = "=1.0.229", features = ["derive"] }
shellexpand = "=2.1.2"
toml = "=0.5.11"
