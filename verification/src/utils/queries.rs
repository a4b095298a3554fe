//! The SQL statements of the password store.
use vstd::prelude::*;

verus! {

/// A struct containing all SQL queries used in the application.
pub struct SqlQueries;

impl SqlQueries {
    /// Creates the `passwords` table if it doesn't already exist.
    /// Columns: `website` TEXT (primary key), `username` TEXT, `password` BLOB (encrypted).
    pub const CREATE_PASSWORDS_TABLE: &'static str = "
        CREATE TABLE IF NOT EXISTS passwords (
            website TEXT PRIMARY KEY,
            username TEXT NOT NULL,
            password BLOB NOT NULL
        )";

    /// Creates the `master_password` table if it doesn't already exist.
    /// Columns: `id` INTEGER (primary key, always 1), `hash` TEXT (Argon2 PHC string),
    /// `salt` TEXT (the salt the encryption key is derived with).
    pub const CREATE_MASTER_PASSWORD_TABLE: &'static str = "
        CREATE TABLE IF NOT EXISTS master_password (
            id INTEGER PRIMARY KEY CHECK (id = 1),
            hash TEXT NOT NULL,
            salt TEXT NOT NULL
        )";

    /// Inserts or replaces the master password hash (`?1`) and salt (`?2`).
    pub const INSERT_MASTER_PASSWORD: &'static str = "
        INSERT OR REPLACE INTO master_password (id, hash, salt) VALUES (1, ?1, ?2)";

    /// Retrieves the master password hash.
    pub const GET_MASTER_PASSWORD_HASH: &'static str = "
        SELECT hash FROM master_password WHERE id = 1";

    /// Retrieves the master password hash and salt.
    pub const GET_MASTER_PASSWORD_DATA: &'static str = "
        SELECT hash, salt FROM master_password WHERE id = 1";

    /// Inserts a new entry: website (`?1`), username (`?2`), encrypted password (`?3`).
    pub const INSERT_PASSWORD: &'static str = "
        INSERT INTO passwords (website, username, password) VALUES (?1, ?2, ?3)";

    /// Retrieves the entry of a website (`?1`).
    pub const GET_PASSWORD: &'static str = "
        SELECT website, username, password FROM passwords WHERE website = ?1";

    /// Lists all entries.
    pub const LIST_PASSWORDS: &'static str = "
        SELECT website, username, password FROM passwords";

    /// Deletes the entry of a website (`?1`).
    pub const DELETE_PASSWORD: &'static str = "
        DELETE FROM passwords WHERE website = ?1";

    /// Deletes all entries.
    pub const CLEAR_ALL_PASSWORDS: &'static str = "
        DELETE FROM passwords";
}

} // verus!
