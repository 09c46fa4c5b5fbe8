[package]
name = "rls_server"
version = "0.1.0"
edition = "2021"
publish = false

[dependencies]
languageserver-types = "=0.16.0"
log = "0.4"
serde = { version = "=1.0.229", features = ["derive"] }
serde_json = "=1.0.154"
