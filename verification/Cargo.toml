[package]
name = "node_xlsx"
version = "0.1.0"
edition = "2021"
publish = false

[dependencies]
base64 = "*"
chrono = "*"
neon = "*"
rust_xlsxwriter = { version = "*", features = ["chrono"] }
