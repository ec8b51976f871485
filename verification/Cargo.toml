[package]
name = "ascom_alpaca"
version = "0.1.0"
edition = "2021"
publish = false

[dependencies]
mime = "0.3"
mediatype = "*"
ndarray = "*"
serde = { version = "1", features = ["derive"] }
serde_json = "1"
if-addrs = "*"
time = { version = "0.3", features = ["formatting", "parsing", "macros"] }
