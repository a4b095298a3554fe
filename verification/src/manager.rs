//! Master password handling and the password-entry operations shared by the
//! command line and the web API.
use crate::crypto::{
    argon2_hashable, crypto_message, decrypt, decrypt_outcome, encrypt, hash_outcome, hash_password,
    hash_result_view, phc_prefix, salt_b64_valid, verify_outcome, verify_password, CryptoError, CryptoFailure, KEY_LEN, NONCE_LEN,
    PLAINTEXT_MAX,
};
use crate::database::{entry_option_view, EntryView, PasswordEntry};
use crate::text::{decode_lossy, decode_strict, utf8_error_text, utf8_lossy};
use crate::utils::api::{InfoView, PasswordInfo};
use vstd::prelude::*;
use vstd::utf8::{decode_utf8, encode_utf8, valid_utf8};

verus! {

broadcast use vstd::utf8::group_utf8_lib;

/// Argon2 memory cost (KiB) for master password hashing.
pub const MASTER_MEMORY_COST: u32 = 19456;

/// Argon2 time cost (passes) for master password hashing.
pub const MASTER_TIME_COST: u32 = 2;

/// Argon2 parallelism for master password hashing.
pub const MASTER_PARALLELISM: u32 = 1;

/// Errors of the password manager's operations.
#[derive(Debug)]
pub enum ManagerError {
    /// The two entries of a new master password differ.
    PasswordsDoNotMatch,
    /// No master password was supplied.
    PasswordRequired,
    /// No master password is stored yet.
    MasterPasswordNotSet,
    /// The master password does not match the stored hash.
    IncorrectMasterPassword,
    /// No entry is stored for the service.
    NotFound(String),
    /// The stored password could not be decrypted.
    DecryptionFailed,
    /// The decrypted password is not valid UTF-8 (with std's description of the fault).
    InvalidUtf8(String),
    /// A cryptographic operation failed.
    Crypto(CryptoError),
}

/// What a `ManagerError` says.
pub enum ManagerFailure {
    PasswordsDoNotMatch,
    PasswordRequired,
    MasterPasswordNotSet,
    IncorrectMasterPassword,
    NotFound(Seq<char>),
    DecryptionFailed,
    InvalidUtf8(Seq<char>),
    Crypto(CryptoFailure),
}

impl View for ManagerError {
    type V = ManagerFailure;

    open spec fn view(&self) -> ManagerFailure {
        match self {
            ManagerError::PasswordsDoNotMatch => ManagerFailure::PasswordsDoNotMatch,
            ManagerError::PasswordRequired => ManagerFailure::PasswordRequired,
            ManagerError::MasterPasswordNotSet => ManagerFailure::MasterPasswordNotSet,
            ManagerError::IncorrectMasterPassword => ManagerFailure::IncorrectMasterPassword,
            ManagerError::NotFound(s) => ManagerFailure::NotFound(s@),
            ManagerError::DecryptionFailed => ManagerFailure::DecryptionFailed,
            ManagerError::InvalidUtf8(m) => ManagerFailure::InvalidUtf8(m@),
            ManagerError::Crypto(e) => ManagerFailure::Crypto(e@),
        }
    }
}

/// The text of a manager error, as the user sees it.
pub open spec fn manager_message(f: ManagerFailure) -> Seq<char> {
    match f {
        ManagerFailure::PasswordsDoNotMatch => "Passwords do not match"@,
        ManagerFailure::PasswordRequired => "Password is required."@,
        ManagerFailure::MasterPasswordNotSet => "Master password not set"@,
        ManagerFailure::IncorrectMasterPassword => "Incorrect master password"@,
        ManagerFailure::NotFound(service) => "❌ No password found for '"@ + service + "'"@,
        ManagerFailure::DecryptionFailed => "Decryption failed"@,
        ManagerFailure::InvalidUtf8(m) => m,
        ManagerFailure::Crypto(e) => crypto_message(e),
    }
}

impl ManagerError {
    /// The error's text, e.g. "Incorrect master password".
    pub fn message(&self) -> (res: String)
        ensures
            res@ == manager_message(self@),
    {
        match self {
            ManagerError::PasswordsDoNotMatch => String::from_str("Passwords do not match"),
            ManagerError::PasswordRequired => String::from_str("Password is required."),
            ManagerError::MasterPasswordNotSet => String::from_str("Master password not set"),
            ManagerError::IncorrectMasterPassword => String::from_str("Incorrect master password"),
            ManagerError::NotFound(service) => String::from_str("❌ No password found for '").concat(
                service.as_str(),
            ).concat("'"),
            ManagerError::DecryptionFailed => String::from_str("Decryption failed"),
            ManagerError::InvalidUtf8(m) => m.clone(),
            ManagerError::Crypto(e) => e.message(),
        }
    }
}

/// The master password data kept in the store: the PHC hash and the salt.
pub open spec fn stored_master_view(stored: Option<(String, String)>) -> Option<(Seq<char>, Seq<char>)> {
    match stored {
        Some((h, s)) => Some((h@, s@)),
        None => None,
    }
}

/// A key-producing result, seen through views.
pub open spec fn key_outcome(r: Result<Vec<u8>, ManagerError>) -> Result<Seq<u8>, ManagerFailure> {
    match r {
        Ok(k) => Ok(k@),
        Err(e) => Err(e@),
    }
}

/// Hashing `password` with the master parameters and salt `salt`.
pub open spec fn master_hash_outcome(password: Seq<char>, salt: Seq<char>) -> Result<
    (Seq<char>, Seq<char>, Seq<u8>),
    CryptoFailure,
> {
    hash_outcome(password, MASTER_MEMORY_COST, MASTER_TIME_COST, MASTER_PARALLELISM, salt)
}

/// What unlocking with `password` gives, given the stored master data: the encryption key.
pub open spec fn master_unlock_outcome(stored: Option<(Seq<char>, Seq<char>)>, password: Seq<char>) -> Result<
    Seq<u8>,
    ManagerFailure,
> {
    match stored {
        None => Err(ManagerFailure::MasterPasswordNotSet),
        Some((hash, salt)) => match verify_outcome(password, hash) {
            Err(e) => Err(ManagerFailure::Crypto(e)),
            Ok(false) => Err(ManagerFailure::IncorrectMasterPassword),
            Ok(true) => match master_hash_outcome(password, salt) {
                Ok((_, _, key)) => Ok(key),
                Err(e) => Err(ManagerFailure::Crypto(e)),
            },
        },
    }
}

/// A master password record `(hash, salt, key)` as creating it for `password` yields.
pub open spec fn master_record_valid(password: Seq<char>, hash: Seq<char>, salt: Seq<char>, key: Seq<u8>) -> bool {
    &&& master_hash_outcome(password, salt) == Ok::<(Seq<char>, Seq<char>, Seq<u8>), CryptoFailure>(
        (hash, salt, key),
    )
    &&& key.len() == KEY_LEN
    &&& verify_outcome(password, hash) == Ok::<bool, CryptoFailure>(true)
}

/// The start of every master password hash string: Argon2id, version 19, and the master
/// costs (19456 KiB, 2 passes, 1 lane).
pub open spec fn master_phc_prefix() -> Seq<char> {
    "$argon2id$v=19$m=19456,t=2,p=1$"@
}

/// The hash-string prefix of the master costs is `master_phc_prefix`.
proof fn lemma_master_prefix()
    ensures
        phc_prefix(MASTER_MEMORY_COST, MASTER_TIME_COST, MASTER_PARALLELISM) == master_phc_prefix(),
{
    reveal_strlit("$argon2id$v=19$m=19456,t=2,p=1$");
    reveal_strlit("$argon2id$v=19$m=");
    reveal_strlit(",t=");
    reveal_strlit(",p=");
    reveal_strlit("$");
    reveal_with_fuel(crate::crypto::decimal_text, 6);
    assert(crate::crypto::decimal_text(19456) =~= seq!['1', '9', '4', '5', '6']);
    assert(crate::crypto::decimal_text(2) =~= seq!['2']);
    assert(crate::crypto::decimal_text(1) =~= seq!['1']);
    assert(phc_prefix(MASTER_MEMORY_COST, MASTER_TIME_COST, MASTER_PARALLELISM) =~= master_phc_prefix());
}

/// Law: the master password that created a record unlocks it, and unlocking gives back
/// the very key that creation returned.
pub proof fn lemma_unlock_after_create(password: Seq<char>, hash: Seq<char>, salt: Seq<char>, key: Seq<u8>)
    requires
        master_record_valid(password, hash, salt, key),
    ensures
        master_unlock_outcome(Some((hash, salt)), password) == Ok::<Seq<u8>, ManagerFailure>(key),
{
}

/// Derives the master hash, salt and 32-byte encryption key from `password`,
/// reusing `stored_salt` when given and generating a salt otherwise.
pub fn derive_encryption_key(password: &str, stored_salt: Option<&str>) -> (res: Result<
    (String, String, Vec<u8>),
    CryptoError,
>)
    ensures
        stored_salt matches Some(s) ==> hash_result_view(res) == master_hash_outcome(password@, s@),
        stored_salt is None ==> match res {
            Ok((h, s, k)) => salt_b64_valid(s@) && master_hash_outcome(password@, s@) == Ok::<
                (Seq<char>, Seq<char>, Seq<u8>),
                CryptoFailure,
            >((h@, s@, k@)),
            Err(e) => e@ == CryptoFailure::Hashing("Hashing failed"@),
        },
        stored_salt matches Some(s) ==> (res is Ok <==> salt_b64_valid(s@) && argon2_hashable(
            password@,
            MASTER_MEMORY_COST,
            MASTER_TIME_COST,
            MASTER_PARALLELISM,
            s@,
        )),
        stored_salt is None ==> (res is Ok <==> encode_utf8(password@).len() <= 0xFFFF_FFFF),
        res matches Ok((h, s, k)) ==> {
            &&& master_record_valid(password@, h@, s@, k@)
            &&& master_phc_prefix().is_prefix_of(h@)
        },
{
    let res = hash_password(password, MASTER_MEMORY_COST, MASTER_TIME_COST, MASTER_PARALLELISM, stored_salt);
    proof {
        lemma_master_prefix();
        if let Ok((h, s, _)) = &res {
            assert(master_phc_prefix() =~= h@.subrange(0, master_phc_prefix().len() as int));
        }
    }
    res
}

/// Where a new master password comes from.
#[derive(Debug)]
pub enum MasterPasswordSource {
    /// Typed twice at the command line.
    Prompted { password: String, confirmation: String },
    /// Given in an API request, if at all.
    Provided(Option<String>),
}

/// A new master password's record: what the store keeps (hash, salt) and the key.
#[derive(Debug)]
pub struct MasterPasswordRecord {
    pub hash: String,
    pub salt: String,
    pub key: Vec<u8>,
}

/// The password that a source supplies, when it supplies a usable one.
pub open spec fn source_password(source: MasterPasswordSource) -> Option<Seq<char>> {
    match source {
        MasterPasswordSource::Prompted { password, confirmation } => if password@ == confirmation@ {
            Some(password@)
        } else {
            None
        },
        MasterPasswordSource::Provided(Some(p)) => Some(p@),
        MasterPasswordSource::Provided(None) => None,
    }
}

/// Law: a prompt whose two entries agree supplies exactly the typed password, and a
/// request supplies exactly the password it carries.
pub proof fn lemma_source_supplies_typed_password(password: String, confirmation: String)
    ensures
        password@ == confirmation@ ==> source_password(
            MasterPasswordSource::Prompted { password: password, confirmation: confirmation },
        ) == Some(password@),
        password@ != confirmation@ ==> source_password(
            MasterPasswordSource::Prompted { password: password, confirmation: confirmation },
        ) is None,
        source_password(MasterPasswordSource::Provided(Some(password))) == Some(password@),
{
}

/// Creates a new master password: checks the input, then hashes it with a fresh salt.
///
/// Fails with `PasswordsDoNotMatch` when the two prompted entries differ and with
/// `PasswordRequired` when no password is provided. The caller stores `hash` and
/// `salt`; the returned `key` encrypts the entries.
pub fn create_master_password(source: MasterPasswordSource) -> (res: Result<MasterPasswordRecord, ManagerError>)
    ensures
        source matches MasterPasswordSource::Prompted { password, confirmation } && password@
            != confirmation@ ==> res matches Err(ManagerError::PasswordsDoNotMatch),
        source matches MasterPasswordSource::Provided(None) ==> res matches Err(
            ManagerError::PasswordRequired,
        ),
        source_password(source) matches Some(p) ==> (res is Ok <==> encode_utf8(p).len() <= 0xFFFF_FFFF),
        source_password(source) matches Some(p) ==> match res {
            Ok(r) => {
                &&& salt_b64_valid(r.salt@)
                &&& master_record_valid(p, r.hash@, r.salt@, r.key@)
                &&& master_unlock_outcome(Some((r.hash@, r.salt@)), p) == Ok::<
                    Seq<u8>,
                    ManagerFailure,
                >(r.key@)
            },
            Err(e) => e@ == ManagerFailure::Crypto(CryptoFailure::Hashing("Hashing failed"@)),
        },
        source matches MasterPasswordSource::Prompted { password, confirmation } ==> (password@ == confirmation@
            ==> match res {
            Ok(r) => master_record_valid(password@, r.hash@, r.salt@, r.key@) && master_unlock_outcome(
                Some((r.hash@, r.salt@)),
                password@,
            ) == Ok::<Seq<u8>, ManagerFailure>(r.key@),
            Err(_) => encode_utf8(password@).len() > 0xFFFF_FFFF,
        }),
        source matches MasterPasswordSource::Provided(Some(password)) ==> match res {
            Ok(r) => master_record_valid(password@, r.hash@, r.salt@, r.key@) && master_unlock_outcome(
                Some((r.hash@, r.salt@)),
                password@,
            ) == Ok::<Seq<u8>, ManagerFailure>(r.key@),
            Err(_) => encode_utf8(password@).len() > 0xFFFF_FFFF,
        },
{
    let master_password = match source {
        MasterPasswordSource::Prompted { password, confirmation } => {
            if password != confirmation {
                return Err(ManagerError::PasswordsDoNotMatch);
            }
            password
        },
        MasterPasswordSource::Provided(Some(p)) => p,
        MasterPasswordSource::Provided(None) => {
            return Err(ManagerError::PasswordRequired);
        },
    };
    match derive_encryption_key(master_password.as_str(), None) {
        Ok((hash, salt, key)) => {
            proof {
                lemma_unlock_after_create(master_password@, hash@, salt@, key@);
            }
            Ok(MasterPasswordRecord { hash, salt, key })
        },
        Err(e) => Err(ManagerError::Crypto(e)),
    }
}

/// Verifies the master password against the stored data and re-derives the encryption key.
///
/// Fails with `MasterPasswordNotSet` when nothing is stored and with
/// `IncorrectMasterPassword` when the password does not match.
pub fn verify_master_password(stored: &Option<(String, String)>, password: &str) -> (res: Result<
    Vec<u8>,
    ManagerError,
>)
    ensures
        key_outcome(res) == master_unlock_outcome(stored_master_view(*stored), password@),
{
    match stored {
        None => Err(ManagerError::MasterPasswordNotSet),
        Some((stored_hash, stored_salt)) => {
            match verify_password(password, stored_hash.as_str()) {
                Err(e) => Err(ManagerError::Crypto(e)),
                Ok(false) => Err(ManagerError::IncorrectMasterPassword),
                Ok(true) => match derive_encryption_key(password, Some(stored_salt.as_str())) {
                    Ok((_, _, key)) => Ok(key),
                    Err(e) => Err(ManagerError::Crypto(e)),
                },
            }
        },
    }
}

/// A lookup result, seen through views.
pub open spec fn info_outcome(r: Result<PasswordInfo, ManagerError>) -> Result<InfoView, ManagerFailure> {
    match r {
        Ok(i) => Ok(i@),
        Err(e) => Err(e@),
    }
}

/// What looking up `service` gives, when the store holds `found` for it.
pub open spec fn password_info_outcome(found: Option<EntryView>, key: Seq<u8>, service: Seq<char>) -> Result<
    InfoView,
    ManagerFailure,
> {
    match found {
        None => Err(ManagerFailure::NotFound(service)),
        Some(entry) => match decrypt_outcome(entry.password, key) {
            Err(_) => Err(ManagerFailure::DecryptionFailed),
            Ok(bytes) => if valid_utf8(bytes) {
                Ok(InfoView { service: entry.website, username: entry.username, password: decode_utf8(bytes) })
            } else {
                Err(ManagerFailure::InvalidUtf8(utf8_error_text(bytes)))
            },
        },
    }
}

/// Builds the encrypted entry that stores `password` for `service` and `username`.
///
/// Fails (with the encryption error) when the key is not 32 bytes long or the
/// password is longer than AES-GCM accepts. Looking the entry up again with the same
/// key gives back exactly the service, username and password given here.
pub fn add_password(key: &[u8], service: &str, username: &str, password: &str) -> (res: Result<
    PasswordEntry,
    ManagerError,
>)
    ensures
        key@.len() != KEY_LEN ==> (res matches Err(e) && e@ == ManagerFailure::Crypto(
            CryptoFailure::Encryption("Failed to initialize AES-256-GCM cipher"@),
        )),
        key@.len() == KEY_LEN && encode_utf8(password@).len() > PLAINTEXT_MAX ==> (res matches Err(e)
            && e@ == ManagerFailure::Crypto(CryptoFailure::Encryption("Encryption failed"@))),
        key@.len() == KEY_LEN && encode_utf8(password@).len() <= PLAINTEXT_MAX ==> res is Ok,
        res matches Ok(entry) ==> {
            &&& entry.website@ == service@
            &&& entry.username@ == username@
            &&& decrypt_outcome(entry.password@, key@) == Ok::<Seq<u8>, CryptoFailure>(encode_utf8(password@))
            &&& password_info_outcome(Some(entry@), key@, service@) == Ok::<InfoView, ManagerFailure>(
                InfoView { service: service@, username: username@, password: password@ },
            )
        },
{
    match encrypt(password.as_bytes(), key) {
        Ok(encrypted_password) => {
            proof {
                vstd::utf8::encode_utf8_valid_utf8(password@);
                vstd::utf8::encode_utf8_decode_utf8(password@);
            }
            Ok(PasswordEntry { website: String::from_str(service), username: String::from_str(username), password: encrypted_password })
        },
        Err(e) => Err(ManagerError::Crypto(e)),
    }
}

/// Law: an entry built by `add_password` with a key, once stored and looked up with
/// the same key, gives back the service, username and password it was built from.
pub proof fn lemma_lookup_after_add(
    entry: EntryView,
    key: Seq<u8>,
    service: Seq<char>,
    username: Seq<char>,
    password: Seq<char>,
)
    requires
        entry.website == service,
        entry.username == username,
        decrypt_outcome(entry.password, key) == Ok::<Seq<u8>, CryptoFailure>(
            encode_utf8(password),
        ),
    ensures
        password_info_outcome(Some(entry), key, service) == Ok::<InfoView, ManagerFailure>(
            InfoView { service, username, password },
        ),
{
    vstd::utf8::encode_utf8_valid_utf8(password);
    vstd::utf8::encode_utf8_decode_utf8(password);
}

/// Decrypts the entry found for `service` into its plain form.
///
/// Fails with `NotFound` when nothing is stored for the service, with
/// `DecryptionFailed` when the entry does not decrypt under `key`, and with
/// `InvalidUtf8` when the decrypted password is not UTF-8.
pub fn get_password_info(found: Option<PasswordEntry>, key: &[u8], service: &str) -> (res: Result<
    PasswordInfo,
    ManagerError,
>)
    ensures
        info_outcome(res) == password_info_outcome(entry_option_view(found), key@, service@),
{
    match found {
        Some(entry) => match decrypt(entry.password.as_slice(), key) {
            Ok(decrypted_password) => match decode_strict(decrypted_password) {
                Ok(password) => Ok(PasswordInfo { service: entry.website, username: entry.username, password }),
                Err(fault) => Err(ManagerError::InvalidUtf8(fault)),
            },
            Err(_) => Err(ManagerError::DecryptionFailed),
        },
        None => Err(ManagerError::NotFound(String::from_str(service))),
    }
}

/// Reports the removal of `service`'s entry: `deleted` tells whether the store
/// removed one. Fails with `NotFound` when it did not.
pub fn remove_password(service: &str, deleted: bool) -> (res: Result<(), ManagerError>)
    ensures
        deleted <==> res is Ok,
        !deleted ==> (res matches Err(e) && e@ == ManagerFailure::NotFound(service@)),
{
    if deleted {
        Ok(())
    } else {
        Err(ManagerError::NotFound(String::from_str(service)))
    }
}

/// What listing makes of one stored entry `listed`, given `fetched`, the entry read
/// back for its website: `None` when the entry is skipped.
pub open spec fn listing_item(listed: EntryView, fetched: Option<EntryView>, key: Seq<u8>) -> Option<InfoView> {
    if listed.password.len() < NONCE_LEN {
        None
    } else {
        match fetched {
            None => None,
            Some(full) => match decrypt_outcome(full.password, key) {
                Ok(bytes) => Some(InfoView { service: full.website, username: full.username, password: utf8_lossy(bytes) }),
                Err(_) => None,
            },
        }
    }
}

/// Whether listing reads `entry` back from the store before decrypting it: entries whose
/// encrypted password is shorter than a nonce are skipped without being read back.
pub fn listing_reads_back(entry: &PasswordEntry) -> (res: bool)
    ensures
        res == (entry.password@.len() >= NONCE_LEN),
{
    entry.password.len() >= NONCE_LEN
}

/// The decrypted entries that listing produces, in the stored order.
pub open spec fn listing(listed: Seq<EntryView>, fetched: Seq<Option<EntryView>>, key: Seq<u8>) -> Seq<InfoView>
    decreases listed.len(),
{
    if listed.len() == 0 {
        Seq::empty()
    } else {
        let n = listed.len() - 1;
        let before = listing(listed.take(n), fetched.take(n), key);
        match listing_item(listed[n], fetched[n], key) {
            Some(info) => before.push(info),
            None => before,
        }
    }
}

/// Lists the stored entries decrypted with `key`.
///
/// `listed[i]` is the i-th stored entry and `fetched[i]` the entry read back for its
/// website. Entries whose encrypted password is shorter than a nonce, that cannot be
/// read back, or that do not decrypt are skipped; the others are returned in order,
/// their passwords decoded lossily.
pub fn list_passwords(listed: &Vec<PasswordEntry>, fetched: &Vec<Option<PasswordEntry>>, key: &[u8]) -> (res: Vec<
    PasswordInfo,
>)
    requires
        fetched@.len() == listed@.len(),
    ensures
        res@.map_values(|i: PasswordInfo| i@) == listing(
            listed@.map_values(|e: PasswordEntry| e@),
            fetched@.map_values(|e: Option<PasswordEntry>| entry_option_view(e)),
            key@,
        ),
{
    let ghost lv = listed@.map_values(|e: PasswordEntry| e@);
    let ghost fv = fetched@.map_values(|e: Option<PasswordEntry>| entry_option_view(e));
    let mut decrypted_passwords: Vec<PasswordInfo> = Vec::new();
    let mut i: usize = 0;
    while i < listed.len()
        invariant
            i <= listed@.len(),
            fetched@.len() == listed@.len(),
            lv == listed@.map_values(|e: PasswordEntry| e@),
            fv == fetched@.map_values(|e: Option<PasswordEntry>| entry_option_view(e)),
            decrypted_passwords@.map_values(|x: PasswordInfo| x@) == listing(
                lv.take(i as int),
                fv.take(i as int),
                key@,
            ),
        decreases listed@.len() - i,
    {
        let entry = &listed[i];
        proof {
            assert(lv.take(i + 1).take(i as int) =~= lv.take(i as int));
            assert(fv.take(i + 1).take(i as int) =~= fv.take(i as int));
            assert(lv.take(i + 1)[i as int] == entry@);
        }
        if entry.password.len() >= NONCE_LEN {
            match &fetched[i] {
                Some(full_entry) => {
                    proof {
                        assert(fv.take(i + 1)[i as int] == Some(full_entry@));
                    }
                    match decrypt(full_entry.password.as_slice(), key) {
                        Ok(decrypted_data) => {
                            let password_str = decode_lossy(decrypted_data.as_slice());
                            let info = PasswordInfo {
                                service: full_entry.website.clone(),
                                username: full_entry.username.clone(),
                                password: password_str,
                            };
                            let ghost before = decrypted_passwords@;
                            decrypted_passwords.push(info);
                            proof {
                                assert(decrypted_passwords@.map_values(|x: PasswordInfo| x@) =~= before.map_values(
                                    |x: PasswordInfo| x@,
                                ).push(info@));
                            }
                        },
                        Err(_) => {},
                    }
                },
                None => {
                    proof {
                        assert(fv.take(i + 1)[i as int] == None::<EntryView>);
                    }
                },
            }
        }
        i = i + 1;
    }
    proof {
        assert(lv.take(listed@.len() as int) =~= lv);
        assert(fv.take(listed@.len() as int) =~= fv);
    }
    decrypted_passwords
}

/// An entry in the clear when its password decrypts under `key`: its website, its
/// username and its password decoded lossily; `None` when it does not decrypt.
pub open spec fn decrypted_entry(entry: EntryView, key: Seq<u8>) -> Option<InfoView> {
    match decrypt_outcome(entry.password, key) {
        Ok(bytes) => Some(InfoView { service: entry.website, username: entry.username, password: utf8_lossy(bytes) }),
        Err(_) => None,
    }
}

/// Law: when every stored entry reads back unchanged, listing is a plain filter of the
/// stored entries: it keeps, in the stored order, exactly those that decrypt under the
/// key, each decrypted on its own.
pub proof fn lemma_listing_filters(listed: Seq<EntryView>, key: Seq<u8>)
    ensures
        listing(listed, listed.map_values(|e: EntryView| Some(e)), key) == listed.filter_map(
            |e: EntryView| decrypted_entry(e, key),
        ),
    decreases listed.len(),
{
    let f = |e: EntryView| decrypted_entry(e, key);
    let fetched = listed.map_values(|e: EntryView| Some(e));
    if listed.len() == 0 {
        assert(listing(listed, fetched, key) =~= listed.filter_map(f));
    } else {
        let n = listed.len() - 1;
        let prefix = listed.take(n);
        assert(fetched.take(n) =~= prefix.map_values(|e: EntryView| Some(e)));
        assert(listed.drop_last() =~= prefix);
        lemma_listing_filters(prefix, key);
        let last = listed[n];
        assert(fetched[n] == Some(last));
        assert(listing_item(last, fetched[n], key) == f(last));
        match f(last) {
            Some(info) => {
                assert(prefix.filter_map(f) + seq![info] =~= prefix.filter_map(f).push(info));
            },
            None => {},
        }
        assert(listing(listed, fetched, key) =~= listed.filter_map(f));
    }
}

/// Law: listing entries that were built by `add_password` with the listing key, each
/// read back unchanged, gives every one of them back, in the stored order, with the
/// service, username and password it was built from.
pub proof fn lemma_listing_after_add(listed: Seq<EntryView>, key: Seq<u8>, passwords: Seq<Seq<char>>)
    requires
        passwords.len() == listed.len(),
        forall|i: int|
            0 <= i < listed.len() ==> decrypt_outcome(#[trigger] listed[i].password, key) == Ok::<
                Seq<u8>,
                CryptoFailure,
            >(encode_utf8(passwords[i])),
    ensures
        listing(listed, listed.map_values(|e: EntryView| Some(e)), key) == Seq::new(
            listed.len(),
            |i: int| InfoView { service: listed[i].website, username: listed[i].username, password: passwords[i] },
        ),
    decreases listed.len(),
{
    let expected = Seq::new(
        listed.len(),
        |i: int| InfoView { service: listed[i].website, username: listed[i].username, password: passwords[i] },
    );
    if listed.len() == 0 {
        assert(listing(listed, listed.map_values(|e: EntryView| Some(e)), key) =~= expected);
    } else {
        let n = listed.len() - 1;
        let fetched = listed.map_values(|e: EntryView| Some(e));
        let prefix = listed.take(n);
        assert(fetched.take(n) =~= prefix.map_values(|e: EntryView| Some(e)));
        assert forall|i: int| 0 <= i < prefix.len() implies decrypt_outcome(#[trigger] prefix[i].password, key)
            == Ok::<Seq<u8>, CryptoFailure>(encode_utf8(passwords.take(n)[i])) by {
            assert(prefix[i] == listed[i]);
        }
        lemma_listing_after_add(prefix, key, passwords.take(n));
        let last = listed[n];
        assert(decrypt_outcome(last.password, key) == Ok::<Seq<u8>, CryptoFailure>(encode_utf8(passwords[n])));
        vstd::utf8::encode_utf8_valid_utf8(passwords[n]);
        vstd::utf8::encode_utf8_decode_utf8(passwords[n]);
        assert(last.password.len() >= NONCE_LEN);
        assert(fetched[n] == Some(last));
        assert(listing_item(last, fetched[n], key) == Some(
            InfoView { service: last.website, username: last.username, password: passwords[n] },
        ));
        assert(listing(listed, fetched, key) =~= expected);
    }
}

} // verus!
