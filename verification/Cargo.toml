[package]
name = "themer"
version = "0.1.0"
edition = "2021"
publish = false

[dependencies]
anyhow = "1"
chrono = "0.4"
directories-next = "2"
flexi_logger = "*"
log = "0.4"
minreq = { version = "*", features = ["json-using-serde"] }
serde = { version = "1", features = ["derive"] }
spa = "*"
