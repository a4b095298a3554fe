# passwordmanager

A password manager whose entries are encrypted with AES-256-GCM under a key derived
from an Argon2id-hashed master password, usable from the terminal or through a small
web API.

Layout:

- `src/` — the verified library (Verus):
  - `crypto.rs`: AES-256-GCM encryption/decryption (nonce followed by ciphertext) and
    Argon2id hashing/verification, with the round-trip facts in their contracts.
  - `manager.rs`: master password creation and unlocking, building, looking up and
    listing entries; the laws relating them (`lemma_*`).
  - `cli.rs`: the terminal session as a state machine (`start_cli`), menu choices and
    y/n confirmation.
  - `utils/api.rs`: the status codes and bodies the web endpoints answer with.
  - `utils/queries.rs`: the SQL statements of the store.
  - `database.rs`, `text.rs`: the stored entry type and UTF-8 decoding.
- `app/` — the program: SQLite store (rusqlite), terminal prompts, the actix-web server.
- `tests/` — tests of the library.
