//! A password manager: AES-256-GCM protected entries under a key derived
//! from an Argon2id-hashed master password.
pub mod cli;
pub mod crypto;
pub mod database;
pub mod manager;
pub mod text;
pub mod utils;
