[package]
name = "password_store"
version = "0.1.0"
edition = "2021"
publish = false

[dependencies]
aes-gcm = "0.10"
argon2 = "0.5"
base64 = "0.22"
rusqlite = { version = "0.31", features = ["bundled"] }
rand = "0.8"
clap = { version = "4", features = ["derive"] }
colored = "2"
rpassword = "7"
dirs = "5"
anyhow = "1"
