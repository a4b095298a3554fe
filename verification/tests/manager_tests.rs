use passwordmanager::crypto::{encrypt, CryptoError};
use passwordmanager::database::PasswordEntry;
use passwordmanager::manager::{
    add_password, create_master_password, derive_encryption_key, get_password_info, list_passwords,
    listing_reads_back,
    remove_password, verify_master_password, ManagerError, MasterPasswordSource,
};

fn provided(p: &str) -> MasterPasswordSource {
    MasterPasswordSource::Provided(Some(p.to_string()))
}

#[test]
fn create_then_verify_gives_the_same_key() {
    let record = create_master_password(provided("my_secure_master_password")).unwrap();
    assert_eq!(record.key.len(), 32);
    assert_eq!(record.salt.len(), 22);
    assert!(record.hash.starts_with("$argon2id$v=19$m=19456,t=2,p=1$"));
    let stored = Some((record.hash.clone(), record.salt.clone()));
    let key = verify_master_password(&stored, "my_secure_master_password").unwrap();
    assert_eq!(key, record.key);
}

#[test]
fn prompted_master_password_must_match_confirmation() {
    let err = create_master_password(MasterPasswordSource::Prompted {
        password: "abc".to_string(),
        confirmation: "abd".to_string(),
    })
    .unwrap_err();
    assert!(matches!(err, ManagerError::PasswordsDoNotMatch));
    assert_eq!(err.message(), "Passwords do not match");
    let ok = create_master_password(MasterPasswordSource::Prompted {
        password: "abc".to_string(),
        confirmation: "abc".to_string(),
    })
    .unwrap();
    assert_eq!(ok.key.len(), 32);
}

#[test]
fn provided_master_password_is_required() {
    let err = create_master_password(MasterPasswordSource::Provided(None)).unwrap_err();
    assert!(matches!(err, ManagerError::PasswordRequired));
    assert_eq!(err.message(), "Password is required.");
}

#[test]
fn verify_without_stored_master_password() {
    let err = verify_master_password(&None, "anything").unwrap_err();
    assert!(matches!(err, ManagerError::MasterPasswordNotSet));
    assert_eq!(err.message(), "Master password not set");
}

#[test]
fn verify_rejects_wrong_master_password() {
    let record = create_master_password(provided("right")).unwrap();
    let stored = Some((record.hash, record.salt));
    let err = verify_master_password(&stored, "wrong").unwrap_err();
    assert!(matches!(err, ManagerError::IncorrectMasterPassword));
    assert_eq!(err.message(), "Incorrect master password");
}

#[test]
fn verify_with_malformed_stored_hash() {
    let stored = Some(("garbage".to_string(), "c29tZXNhbHRzb21lc2FsdA".to_string()));
    let err = verify_master_password(&stored, "pw").unwrap_err();
    assert!(matches!(&err, ManagerError::Crypto(CryptoError::HashingError(m)) if m == "Hashing failed"));
    assert_eq!(err.message(), "Password hashing failed: Hashing failed");
}

#[test]
fn derive_encryption_key_reuses_stored_salt() {
    let (h1, s1, k1) = derive_encryption_key("pw", None).unwrap();
    let (h2, s2, k2) = derive_encryption_key("pw", Some(&s1)).unwrap();
    assert_eq!((h1, s1, k1), (h2, s2, k2));
}

#[test]
fn add_then_get_password_info_round_trip() {
    let key = [5u8; 32];
    let entry = add_password(&key, "example.com", "admin", "secure123").unwrap();
    assert_eq!(entry.website, "example.com");
    assert_eq!(entry.username, "admin");
    assert_ne!(entry.password, b"secure123".to_vec());
    let info = get_password_info(Some(entry), &key, "example.com").unwrap();
    assert_eq!(info.service, "example.com");
    assert_eq!(info.username, "admin");
    assert_eq!(info.password, "secure123");
}

#[test]
fn add_password_round_trip_non_ascii() {
    let key = [6u8; 32];
    let entry = add_password(&key, "mail", "ünïcødé", "pässwörd🔑").unwrap();
    let info = get_password_info(Some(entry), &key, "mail").unwrap();
    assert_eq!(info.username, "ünïcødé");
    assert_eq!(info.password, "pässwörd🔑");
}

#[test]
fn add_password_needs_a_32_byte_key() {
    let err = add_password(&[], "s", "u", "p").unwrap_err();
    assert!(matches!(&err, ManagerError::Crypto(CryptoError::EncryptionError(_))));
    assert_eq!(err.message(), "Encryption failed: Failed to initialize AES-256-GCM cipher");
}

#[test]
fn get_password_info_not_found() {
    let err = get_password_info(None, &[0u8; 32], "example.com").unwrap_err();
    assert!(matches!(&err, ManagerError::NotFound(s) if s == "example.com"));
    assert_eq!(err.message(), "❌ No password found for 'example.com'");
}

#[test]
fn get_password_info_with_wrong_key() {
    let entry = add_password(&[1u8; 32], "s", "u", "p").unwrap();
    let err = get_password_info(Some(entry), &[2u8; 32], "s").unwrap_err();
    assert!(matches!(err, ManagerError::DecryptionFailed));
    assert_eq!(err.message(), "Decryption failed");
}

#[test]
fn get_password_info_rejects_non_utf8_password() {
    let key = [1u8; 32];
    let entry = PasswordEntry {
        website: "s".to_string(),
        username: "u".to_string(),
        password: encrypt(&[0xff, 0xfe], &key).unwrap(),
    };
    let err = get_password_info(Some(entry), &key, "s").unwrap_err();
    assert!(matches!(&err, ManagerError::InvalidUtf8(_)));
    assert_eq!(err.message(), "invalid utf-8 sequence of 1 bytes from index 0");
}

#[test]
fn derive_encryption_key_uses_the_master_costs() {
    let (hash, salt, key) = derive_encryption_key("master", None).unwrap();
    assert!(hash.starts_with("$argon2id$v=19$m=19456,t=2,p=1$"));
    assert!(hash[31..].starts_with(&format!("{}$", salt)));
    assert_eq!(key.len(), 32);
}

#[test]
fn listing_reads_back_only_entries_long_enough_to_decrypt() {
    let short = PasswordEntry { website: "s".to_string(), username: "u".to_string(), password: vec![0u8; 11] };
    assert!(!listing_reads_back(&short));
    let full = add_password(&[1u8; 32], "s", "u", "").unwrap();
    assert!(listing_reads_back(&full));
}

#[test]
fn remove_password_reports_missing_entry() {
    assert!(remove_password("example.com", true).is_ok());
    let err = remove_password("example.com", false).unwrap_err();
    assert!(matches!(&err, ManagerError::NotFound(s) if s == "example.com"));
}

#[test]
fn list_passwords_keeps_decryptable_entries_in_order() {
    let key = [8u8; 32];
    let a = add_password(&key, "a.com", "alice", "pa").unwrap();
    let b = add_password(&[9u8; 32], "b.com", "bob", "pb").unwrap();
    let c = add_password(&key, "c.com", "carol", "pc").unwrap();
    let short = PasswordEntry { website: "d.com".to_string(), username: "dave".to_string(), password: vec![1, 2, 3] };
    let e = add_password(&key, "e.com", "eve", "pe").unwrap();
    let lossy = PasswordEntry {
        website: "f.com".to_string(),
        username: "frank".to_string(),
        password: encrypt(&[b'o', 0xff, b'k'], &key).unwrap(),
    };
    let listed = vec![a.clone(), b.clone(), c.clone(), short.clone(), e.clone(), lossy.clone()];
    let fetched = vec![Some(a), Some(b), Some(c), Some(short), None, Some(lossy)];
    let infos = list_passwords(&listed, &fetched, &key);
    let got: Vec<(String, String, String)> =
        infos.into_iter().map(|i| (i.service, i.username, i.password)).collect();
    assert_eq!(
        got,
        vec![
            ("a.com".to_string(), "alice".to_string(), "pa".to_string()),
            ("c.com".to_string(), "carol".to_string(), "pc".to_string()),
            ("f.com".to_string(), "frank".to_string(), "o\u{fffd}k".to_string()),
        ]
    );
}

#[test]
fn list_passwords_of_empty_store() {
    assert!(list_passwords(&vec![], &vec![], &[0u8; 32]).is_empty());
}

#[test]
fn listing_returns_every_added_entry() {
    let key = [11u8; 32];
    let added: Vec<PasswordEntry> = [("x.org", "xavier", "p1"), ("y.org", "yann", "p2"), ("z.org", "zoe", "p3")]
        .iter()
        .map(|(s, u, p)| add_password(&key, s, u, p).unwrap())
        .collect();
    let fetched: Vec<Option<PasswordEntry>> = added.iter().cloned().map(Some).collect();
    let infos = list_passwords(&added, &fetched, &key);
    let got: Vec<(String, String, String)> =
        infos.into_iter().map(|i| (i.service, i.username, i.password)).collect();
    assert_eq!(
        got,
        vec![
            ("x.org".to_string(), "xavier".to_string(), "p1".to_string()),
            ("y.org".to_string(), "yann".to_string(), "p2".to_string()),
            ("z.org".to_string(), "zoe".to_string(), "p3".to_string()),
        ]
    );
}
