[package]
name = "cargo_nav"
version = "0.1.0"
edition = "2021"
publish = false

[dependencies]
anyhow = "1"
fern = "0.6"
log = "0.4"
reqwest = { version = "0.11", features = ["blocking"] }
serde_json = "1"
structopt = "0.3"
webbrowser = "0.8"

[dev-dependencies]
mockito = "0.31"
