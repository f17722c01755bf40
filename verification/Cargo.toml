[package]
name = "rs_pixel"
version = "0.1.0"
edition = "2021"
publish = false

[dependencies]
base64 = "0.21"
hematite-nbt = "0.5"
serde = { version = "1", features = ["derive"] }
serde_json = "1"
surf = { version = "2", default-features = false, features = ["h1-client-rustls"] }
