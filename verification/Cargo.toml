[package]
name = "openapi_cli"
version = "0.1.0"
edition = "2021"
publish = false

[dependencies]
colored = "2"
reqwest = { version = "0.11", features = ["blocking"] }
structopt = "0.3"
