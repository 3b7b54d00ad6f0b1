[package]
name = "icopack"
version = "0.1.0"
edition = "2021"
publish = false

[dependencies]
ico = "0.3"
clap = { version = "4", features = ["derive"] }
const_format = "0.2"
