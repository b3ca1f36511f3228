[package]
name = "foliage_paint"
version = "0.1.0"
edition = "2021"
publish = false

[dependencies]
png = "0.17"
ron = "0.8"
serde = { version = "1", features = ["derive"] }
thiserror = "1"
