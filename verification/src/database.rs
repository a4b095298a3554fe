//! The stored form of a password entry.
use vstd::prelude::*;

verus! {

/// Represents a password entry in the database: the password is stored encrypted.
#[derive(Debug, Clone)]
pub struct PasswordEntry {
    pub website: String,
    pub username: String,
    pub password: Vec<u8>,
}

/// The contents of a `PasswordEntry`.
pub struct EntryView {
    pub website: Seq<char>,
    pub username: Seq<char>,
    pub password: Seq<u8>,
}

impl View for PasswordEntry {
    type V = EntryView;

    open spec fn view(&self) -> EntryView {
        EntryView { website: self.website@, username: self.username@, password: self.password@ }
    }
}

/// An optional entry, seen through its view.
pub open spec fn entry_option_view(e: Option<PasswordEntry>) -> Option<EntryView> {
    match e {
        Some(x) => Some(x@),
        None => None,
    }
}

} // verus!
