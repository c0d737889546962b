[package]
name = "transistor_array"
version = "0.1.0"
edition = "2021"
publish = false

[dependencies]
arcstr = "1"
rust_decimal = "1"
rust_decimal_macros = "1"
serde = { version = "1", features = ["derive"] }
