[package]
name = "passwordmanager"
version = "0.1.0"
edition = "2021"
publish = false

[dependencies]
aes-gcm = "0.10"
argon2 = "0.5"
zeroize = "1"
rusqlite = { version = "0.31", features = ["bundled"] }
actix-web = "4"
actix-cors = "0.7"
serde = { version = "1", features = ["derive"] }
clap = { version = "4", features = ["derive"] }
rpassword = "7"
thiserror = "1"
