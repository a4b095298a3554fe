//! Master-password hashing (Argon2id) and entry encryption (AES-256-GCM).
use aes_gcm::aead::{Aead, AeadCore, KeyInit, OsRng};
use aes_gcm::{Aes256Gcm, Nonce};
use argon2::password_hash::{PasswordHash, PasswordHasher, PasswordVerifier, SaltString};
use argon2::{Argon2, ParamsBuilder};
use vstd::prelude::*;
use vstd::slice::slice_to_vec;
use vstd::utf8::encode_utf8;
use zeroize::Zeroize;

verus! {

/// Length in bytes of an AES-256 key.
pub const KEY_LEN: usize = 32;

/// Length in bytes of the AES-GCM nonce stored in front of every ciphertext.
pub const NONCE_LEN: usize = 12;

/// Length in bytes of the AES-GCM authentication tag.
pub const TAG_LEN: usize = 16;

/// Longest plaintext, in bytes, that AES-GCM accepts (2^36).
pub const PLAINTEXT_MAX: u64 = 0x10_0000_0000;

/// Error type for cryptographic operations.
#[derive(Debug)]
pub enum CryptoError {
    EncryptionError(String),
    DecryptionError(String),
    HashingError(String),
}

/// What a `CryptoError` says: its kind and its message.
pub enum CryptoFailure {
    Encryption(Seq<char>),
    Decryption(Seq<char>),
    Hashing(Seq<char>),
}

impl View for CryptoError {
    type V = CryptoFailure;

    open spec fn view(&self) -> CryptoFailure {
        match self {
            CryptoError::EncryptionError(m) => CryptoFailure::Encryption(m@),
            CryptoError::DecryptionError(m) => CryptoFailure::Decryption(m@),
            CryptoError::HashingError(m) => CryptoFailure::Hashing(m@),
        }
    }
}

/// The text of a crypto error, as its `Display` shows it.
pub open spec fn crypto_message(f: CryptoFailure) -> Seq<char> {
    match f {
        CryptoFailure::Encryption(m) => "Encryption failed: "@ + m,
        CryptoFailure::Decryption(m) => "Decryption failed: "@ + m,
        CryptoFailure::Hashing(m) => "Password hashing failed: "@ + m,
    }
}

impl CryptoError {
    /// The error's text, e.g. "Encryption failed: Encryption failed".
    pub fn message(&self) -> (res: String)
        ensures
            res@ == crypto_message(self@),
    {
        match self {
            CryptoError::EncryptionError(m) => String::from_str("Encryption failed: ").concat(m.as_str()),
            CryptoError::DecryptionError(m) => String::from_str("Decryption failed: ").concat(m.as_str()),
            CryptoError::HashingError(m) => String::from_str("Password hashing failed: ").concat(m.as_str()),
        }
    }
}

/// A byte-producing crypto result, seen through the views of its parts.
pub open spec fn bytes_outcome(r: Result<Vec<u8>, CryptoError>) -> Result<Seq<u8>, CryptoFailure> {
    match r {
        Ok(v) => Ok(v@),
        Err(e) => Err(e@),
    }
}

/// A hashing result `(phc hash, salt, key)`, seen through views.
pub open spec fn hash_result_view(r: Result<(String, String, Vec<u8>), CryptoError>) -> Result<
    (Seq<char>, Seq<char>, Seq<u8>),
    CryptoFailure,
> {
    match r {
        Ok((h, s, k)) => Ok((h@, s@, k@)),
        Err(e) => Err(e@),
    }
}

// ---------------------------------------------------------------------------
// AES-256-GCM
// ---------------------------------------------------------------------------

/// The ciphertext (with its tag appended) that AES-256-GCM produces for
/// `plaintext` under `key` and `nonce`, with no associated data.
pub uninterp spec fn aes256gcm_seal(key: Seq<u8>, nonce: Seq<u8>, plaintext: Seq<u8>) -> Seq<u8>;

/// The plaintext that AES-256-GCM recovers from `ciphertext` (tag appended)
/// under `key` and `nonce`, or `None` when authentication fails.
pub uninterp spec fn aes256gcm_open(key: Seq<u8>, nonce: Seq<u8>, ciphertext: Seq<u8>) -> Option<Seq<u8>>;

/// Why the AEAD primitive refused to work.
pub enum AeadFault {
    /// The key does not have the cipher's key length.
    InvalidKey,
    /// The cipher rejected the input (too long, or failed authentication).
    Rejected,
}

/// Calls `Aes256Gcm::new_from_slice` and then `Aead::encrypt` with no associated data.
/// Claimed of them: the key is refused exactly when it is not 32 bytes long
/// (crypto-common `new_from_slice`); encryption is refused exactly when the plaintext
/// is longer than `P_MAX` = 2^36 bytes (aes-gcm `encrypt_in_place_detached`); otherwise
/// the result is the named ciphertext, 16 bytes longer than the plaintext, and opening
/// it with the same key and nonce gives the plaintext back (AEAD correctness).
#[verifier::external_body]
fn aes256gcm_encrypt(key: &[u8], nonce: &[u8], plaintext: &[u8]) -> (res: Result<Vec<u8>, AeadFault>)
    requires
        nonce@.len() == NONCE_LEN,
    ensures
        key@.len() != KEY_LEN <==> res matches Err(AeadFault::InvalidKey),
        res matches Err(AeadFault::Rejected) <==> (key@.len() == KEY_LEN && plaintext@.len() > PLAINTEXT_MAX),
        res matches Ok(c) ==> {
            &&& c@ == aes256gcm_seal(key@, nonce@, plaintext@)
            &&& c@.len() == plaintext@.len() + TAG_LEN
            &&& aes256gcm_open(key@, nonce@, c@) == Some(plaintext@)
        },
{
    let cipher = Aes256Gcm::new_from_slice(key).map_err(|_| AeadFault::InvalidKey)?;
    cipher.encrypt(Nonce::from_slice(nonce), plaintext).map_err(|_| AeadFault::Rejected)
}

/// Calls `Aes256Gcm::new_from_slice` and then `Aead::decrypt` with no associated data.
/// Claimed of them: the key is refused exactly when it is not 32 bytes long; with a
/// 32-byte key the call succeeds exactly when the named opening succeeds, and gives
/// its plaintext.
#[verifier::external_body]
fn aes256gcm_decrypt(key: &[u8], nonce: &[u8], ciphertext: &[u8]) -> (res: Result<Vec<u8>, AeadFault>)
    requires
        nonce@.len() == NONCE_LEN,
    ensures
        key@.len() != KEY_LEN <==> res matches Err(AeadFault::InvalidKey),
        key@.len() == KEY_LEN ==> match res {
            Ok(p) => aes256gcm_open(key@, nonce@, ciphertext@) == Some(p@),
            Err(_) => aes256gcm_open(key@, nonce@, ciphertext@) is None,
        },
{
    let cipher = Aes256Gcm::new_from_slice(key).map_err(|_| AeadFault::InvalidKey)?;
    cipher.decrypt(Nonce::from_slice(nonce), ciphertext).map_err(|_| AeadFault::Rejected)
}

/// Calls `Aes256Gcm::generate_nonce` with the operating-system generator `OsRng`.
/// Claimed: the nonce is 12 bytes long. Its bytes are random and nothing more is
/// said of them; `OsRng` panics when the system generator fails.
#[verifier::external_body]
fn random_nonce() -> (nonce: Vec<u8>)
    ensures
        nonce@.len() == NONCE_LEN,
{
    Aes256Gcm::generate_nonce(&mut OsRng).to_vec()
}

/// Calls `Zeroize::zeroize` on a byte vector: the bytes are overwritten with zeros
/// and the vector is cleared. Claimed: the vector is empty afterwards.
#[verifier::external_body]
fn wipe(buf: &mut Vec<u8>)
    ensures
        final(buf)@.len() == 0,
{
    buf.zeroize();
}

/// What decrypting `encrypted` (nonce followed by ciphertext) under `key` gives.
pub open spec fn decrypt_outcome(encrypted: Seq<u8>, key: Seq<u8>) -> Result<Seq<u8>, CryptoFailure> {
    if encrypted.len() < NONCE_LEN {
        Err(CryptoFailure::Decryption("Encrypted data too short"@))
    } else if key.len() != KEY_LEN {
        Err(CryptoFailure::Decryption("Invalid key length"@))
    } else {
        match aes256gcm_open(key, encrypted.take(NONCE_LEN as int), encrypted.skip(NONCE_LEN as int)) {
            Some(p) => Ok(p),
            None => Err(CryptoFailure::Decryption("Decryption failed"@)),
        }
    }
}

/// Encrypts `data` with AES-256-GCM under `key` and a fresh random nonce.
///
/// Returns the nonce (12 bytes) followed by the ciphertext and its tag.
/// Fails with `EncryptionError` when the key is not 32 bytes long or the data is
/// longer than AES-GCM accepts.
pub fn encrypt(data: &[u8], key: &[u8]) -> (res: Result<Vec<u8>, CryptoError>)
    ensures
        key@.len() != KEY_LEN ==> bytes_outcome(res) == Err::<Seq<u8>, CryptoFailure>(
            CryptoFailure::Encryption("Failed to initialize AES-256-GCM cipher"@),
        ),
        key@.len() == KEY_LEN && data@.len() > PLAINTEXT_MAX ==> bytes_outcome(res) == Err::<
            Seq<u8>,
            CryptoFailure,
        >(CryptoFailure::Encryption("Encryption failed"@)),
        key@.len() == KEY_LEN && data@.len() <= PLAINTEXT_MAX ==> res is Ok,
        res matches Ok(out) ==> {
            &&& out@.len() == NONCE_LEN + data@.len() + TAG_LEN
            &&& out@.skip(NONCE_LEN as int) == aes256gcm_seal(
                key@,
                out@.take(NONCE_LEN as int),
                data@,
            )
            &&& decrypt_outcome(out@, key@) == Ok::<Seq<u8>, CryptoFailure>(data@)
        },
{
    let mut key_copy = slice_to_vec(key);
    let mut sealed_nonce = random_nonce();
    let sealed = aes256gcm_encrypt(key_copy.as_slice(), sealed_nonce.as_slice(), data);
    wipe(&mut key_copy);
    match sealed {
        Err(AeadFault::InvalidKey) => Err(
            CryptoError::EncryptionError(String::from_str("Failed to initialize AES-256-GCM cipher")),
        ),
        Err(AeadFault::Rejected) => Err(CryptoError::EncryptionError(String::from_str("Encryption failed"))),
        Ok(mut ciphertext) => {
            let ghost nonce = sealed_nonce@;
            let ghost ct = ciphertext@;
            sealed_nonce.append(&mut ciphertext);
            proof {
                assert(sealed_nonce@.take(NONCE_LEN as int) =~= nonce);
                assert(sealed_nonce@.skip(NONCE_LEN as int) =~= ct);
            }
            Ok(sealed_nonce)
        },
    }
}

/// Decrypts data produced by `encrypt`: a 12-byte nonce followed by the ciphertext.
///
/// Fails with `DecryptionError` when the data is shorter than a nonce, when the key
/// is not 32 bytes long, or when authentication fails.
pub fn decrypt(encrypted_data: &[u8], key: &[u8]) -> (res: Result<Vec<u8>, CryptoError>)
    ensures
        bytes_outcome(res) == decrypt_outcome(encrypted_data@, key@),
{
    if encrypted_data.len() < NONCE_LEN {
        return Err(CryptoError::DecryptionError(String::from_str("Encrypted data too short")));
    }
    if key.len() != KEY_LEN {
        return Err(CryptoError::DecryptionError(String::from_str("Invalid key length")));
    }
    let mut key_copy = slice_to_vec(key);
    let nonce = &encrypted_data[0..NONCE_LEN];
    let ciphertext = &encrypted_data[NONCE_LEN..encrypted_data.len()];
    let opened = aes256gcm_decrypt(key_copy.as_slice(), nonce, ciphertext);
    wipe(&mut key_copy);
    match opened {
        Ok(plaintext) => Ok(plaintext),
        Err(AeadFault::InvalidKey) => Err(CryptoError::DecryptionError(String::from_str("Failed to create cipher"))),
        Err(AeadFault::Rejected) => Err(CryptoError::DecryptionError(String::from_str("Decryption failed"))),
    }
}

// ---------------------------------------------------------------------------
// Argon2id
// ---------------------------------------------------------------------------

/// A character allowed in a PHC salt string: `[a-zA-Z0-9/+.-]`.
pub open spec fn is_salt_char(c: char) -> bool {
    ||| ('a' <= c && c <= 'z')
    ||| ('A' <= c && c <= 'Z')
    ||| ('0' <= c && c <= '9')
    ||| c == '/'
    ||| c == '+'
    ||| c == '.'
    ||| c == '-'
}

/// The salt strings that `SaltString::from_b64` accepts: 4 to 64 salt characters.
pub open spec fn salt_b64_valid(s: Seq<char>) -> bool {
    &&& 4 <= s.len() <= 64
    &&& forall|i: int| 0 <= i < s.len() ==> is_salt_char(#[trigger] s[i])
}

/// The cost parameters that `ParamsBuilder::build` accepts (with the default
/// output length): memory at least 8 KiB and at least 8 KiB per lane, at least one
/// pass, and between 1 and 2^24 - 1 lanes.
pub open spec fn argon2_params_valid(m_cost: u32, t_cost: u32, p_cost: u32) -> bool {
    &&& m_cost >= 8
    &&& m_cost >= p_cost * 8
    &&& t_cost >= 1
    &&& 1 <= p_cost <= 0xFF_FFFF
}


/// The inputs on which Argon2id hashing succeeds, given a valid salt string: valid
/// costs, a salt of at least 8 decoded bytes, and a password of at most 2^32 - 1 bytes.
pub open spec fn argon2_hashable(password: Seq<char>, m_cost: u32, t_cost: u32, p_cost: u32, salt: Seq<char>) -> bool {
    &&& argon2_params_valid(m_cost, t_cost, p_cost)
    &&& b64_decoded_len(salt) matches Some(n) && n >= 8
    &&& encode_utf8(password).len() <= 0xFFFF_FFFF
}

/// The decimal digits of `n`.
pub open spec fn decimal_text(n: nat) -> Seq<char>
    decreases n,
{
    if n < 10 {
        seq![(48 + n) as char]
    } else {
        decimal_text(n / 10).push((48 + n % 10) as char)
    }
}

/// The start of the PHC string of an Argon2id (version 19) hash with the given costs,
/// up to and including the `$` before the salt.
pub open spec fn phc_prefix(m_cost: u32, t_cost: u32, p_cost: u32) -> Seq<char> {
    "$argon2id$v=19$m="@ + decimal_text(m_cost as nat) + ",t="@ + decimal_text(t_cost as nat) + ",p="@
        + decimal_text(p_cost as nat) + "$"@
}

/// The character of the B64 digit `v` in the standard alphabet `A-Z a-z 0-9 + /`.
pub open spec fn b64_digit(v: int) -> char {
    if v < 26 {
        (65 + v) as char
    } else if v < 52 {
        (71 + v) as char
    } else if v < 62 {
        (v - 4) as char
    } else if v == 62 {
        '+'
    } else {
        '/'
    }
}

/// `bytes` in B64: standard Base64 without padding, each 3 bytes giving 4 digits and a
/// last group of 1 or 2 bytes giving 2 or 3 digits.
pub open spec fn b64_unpadded(bytes: Seq<u8>) -> Seq<char>
    decreases bytes.len(),
{
    if bytes.len() == 0 {
        Seq::empty()
    } else {
        let b0 = bytes[0] as int;
        let b1 = if bytes.len() > 1 { bytes[1] as int } else { 0 };
        let b2 = if bytes.len() > 2 { bytes[2] as int } else { 0 };
        let group = seq![b64_digit(b0 / 4), b64_digit((b0 % 4) * 16 + b1 / 16), b64_digit((b1 % 16) * 4 + b2 / 64), b64_digit(b2 % 64)];
        if bytes.len() < 3 {
            group.take(bytes.len() + 1 as int)
        } else {
            group + b64_unpadded(bytes.skip(3))
        }
    }
}

/// The number of bytes that the B64 string `salt` decodes to (`Salt::decode_b64`):
/// base64ct decodes exactly the canonical encodings, those that some bytes encode to,
/// into `floor(3n/4)` bytes for `n` characters; `None` when `salt` is no such encoding.
pub open spec fn b64_decoded_len(salt: Seq<char>) -> Option<nat> {
    if exists|bytes: Seq<u8>| b64_unpadded(bytes) == salt {
        Some((3 * salt.len() / 4) as nat)
    } else {
        None
    }
}

/// Argon2id (version 0x13) over `password` with the given costs and B64 salt:
/// the PHC string of the hash and the raw hash output, or `None` when hashing fails.
pub uninterp spec fn argon2id_hash(
    password: Seq<char>,
    m_cost: u32,
    t_cost: u32,
    p_cost: u32,
    salt: Seq<char>,
) -> Option<(Seq<char>, Seq<u8>)>;

/// How `PasswordHash::new` reads the string `phc`: `None` when it is not a PHC string,
/// otherwise the parameters it records, in order, each as its name and its reading as
/// a decimal (`Value::decimal`), when it reads as one.
pub uninterp spec fn phc_params(phc: Seq<char>) -> Option<Seq<(Seq<char>, Option<u32>)>>;

/// The lane count that Argon2 takes from recorded parameters: the decimal reading of
/// the last `p` (`Params::try_from` applies each `p` in turn), if there is one.
pub open spec fn recorded_lanes(params: Seq<(Seq<char>, Option<u32>)>) -> Option<u32>
    decreases params.len(),
{
    if params.len() == 0 {
        None
    } else if params.last().0 == "p"@ {
        params.last().1
    } else {
        recorded_lanes(params.drop_last())
    }
}

/// The lane count that Argon2 takes from the PHC string `phc`, when it is one.
pub open spec fn phc_lanes(phc: Seq<char>) -> Option<Option<u32>> {
    match phc_params(phc) {
        Some(params) => Some(recorded_lanes(params)),
        None => None,
    }
}

/// Whether Argon2 verification (`PasswordVerifier::verify_password`) accepts `password`
/// against the PHC string `phc`.
pub uninterp spec fn argon2_matches(password: Seq<char>, phc: Seq<char>) -> bool;

/// Why Argon2 hashing did not produce a hash.
pub enum HashFault {
    /// The salt string is not a valid B64 salt.
    InvalidSalt,
    /// The parameters were refused or hashing failed.
    Failed,
}

/// Calls `SaltString::from_b64`, `ParamsBuilder::{m_cost, t_cost, p_cost, build}`,
/// `Argon2::new(Argon2id, V0x13, ..)` and `PasswordHasher::hash_password`, and returns
/// the PHC string, the salt string and the raw hash output.
/// Claimed of them:
/// - the salt is refused exactly when it is not 4 to 64 characters of `[a-zA-Z0-9/+.-]`
///   (password-hash `Salt::from_b64`);
/// - with a valid salt, hashing succeeds exactly when `Params::new` accepts the costs, the
///   salt decodes (`Salt::decode_b64`) to at least 8 bytes and the password has at most
///   2^32 - 1 bytes (`Argon2::verify_inputs`); the outcome is the named hash;
/// - a produced output is 32 bytes long (`Params::DEFAULT_OUTPUT_LEN`), the salt string is
///   the one given, the PHC string reads `$argon2id$v=19$m=M,t=T,p=P$salt$hash` with the
///   output in B64 as `hash` (`PasswordHash`'s and `Output`'s `Display`), it records `p`
///   once, as `P` (`ParamsString::try_from(&Params)`), and verifying the same
///   password against it succeeds (`PasswordVerifier` recomputes the hash with the
///   costs and salt the string records).
/// `Params::new` computes `p_cost * 8` in `u32`, which overflows, hence the `requires`.
/// The memory that a large `m_cost` asks for is not bounded here.
#[verifier::external_body]
fn argon2id_phc(password: &str, m_cost: u32, t_cost: u32, p_cost: u32, salt: &str) -> (res: Result<
    (String, String, Vec<u8>),
    HashFault,
>)
    requires
        salt_b64_valid(salt@) && m_cost >= 8 ==> p_cost <= 0x1FFF_FFFF,
    ensures
        !salt_b64_valid(salt@) <==> res matches Err(HashFault::InvalidSalt),
        salt_b64_valid(salt@) ==> (res is Ok <==> argon2_hashable(password@, m_cost, t_cost, p_cost, salt@)),
        salt_b64_valid(salt@) ==> match res {
            Ok((phc, s, out)) => {
                &&& argon2id_hash(password@, m_cost, t_cost, p_cost, salt@) == Some((phc@, out@))
                &&& s@ == salt@
                &&& out@.len() == KEY_LEN
                &&& phc@ == phc_prefix(m_cost, t_cost, p_cost) + salt@ + "$"@ + b64_unpadded(out@)
                &&& phc_lanes(phc@) == Some(Some(p_cost))
                &&& argon2_matches(password@, phc@)
            },
            Err(_) => argon2id_hash(password@, m_cost, t_cost, p_cost, salt@) is None,
        },
{
    let salt = SaltString::from_b64(salt).map_err(|_| HashFault::InvalidSalt)?;
    let params = ParamsBuilder::new().m_cost(m_cost).t_cost(t_cost).p_cost(p_cost).build().map_err(|_| HashFault::Failed)?;
    let argon2 = Argon2::new(argon2::Algorithm::Argon2id, argon2::Version::V0x13, params);
    let hash = argon2.hash_password(password.as_bytes(), &salt).map_err(|_| HashFault::Failed)?;
    match hash.hash {
        Some(output) => Ok((hash.to_string(), salt.to_string(), output.as_bytes().to_vec())),
        None => Err(HashFault::Failed),
    }
}

/// The parameters a parsed PHC string records, seen through views.
pub open spec fn params_view(params: Seq<(String, Option<u32>)>) -> Seq<(Seq<char>, Option<u32>)> {
    params.map_values(|x: (String, Option<u32>)| (x.0@, x.1))
}

/// Calls `PasswordHash::new` on `phc` and, when it parses, lists the parameters it
/// records (`ParamsString::iter`), each with `Value::decimal` of its value.
/// Claimed: the outcome is the named reading.
#[verifier::external_body]
fn parse_phc_params(phc: &str) -> (res: Option<Vec<(String, Option<u32>)>>)
    ensures
        match res {
            Some(v) => phc_params(phc@) == Some(params_view(v@)),
            None => phc_params(phc@) is None,
        },
{
    PasswordHash::new(phc).ok().map(
        |parsed| parsed.params.iter().map(|(name, value)| (name.as_str().to_string(), value.decimal().ok())).collect(),
    )
}

/// The lane count that Argon2 takes from the recorded parameters: the last `p`'s.
fn lanes_in_effect(params: &Vec<(String, Option<u32>)>) -> (res: Option<u32>)
    ensures
        res == recorded_lanes(params_view(params@)),
{
    let p_name = String::from_str("p");
    let mut lanes: Option<u32> = None;
    let mut i: usize = 0;
    while i < params.len()
        invariant
            i <= params@.len(),
            p_name@ == "p"@,
            lanes == recorded_lanes(params_view(params@).take(i as int)),
        decreases params@.len() - i,
    {
        proof {
            let seen = params_view(params@).take(i as int + 1);
            assert(seen.drop_last() =~= params_view(params@).take(i as int));
            assert(seen.last() == (params@[i as int].0@, params@[i as int].1));
        }
        if params[i].0 == p_name {
            lanes = params[i].1;
        }
        i = i + 1;
    }
    proof {
        assert(params_view(params@).take(params@.len() as int) =~= params_view(params@));
    }
    lanes
}

/// Calls `PasswordHash::new` on `phc` and, when it parses, `PasswordVerifier::verify_password`
/// of `Argon2::default()`. Claimed: the call returns `None` exactly when `phc` is not a
/// PHC string, and otherwise the named verification result.
/// Verification rebuilds `Params` from the costs `phc` records, the last `p` giving the
/// lane count; a lane count above 2^29 - 1 makes `Params::new` overflow `p_cost * 8`,
/// hence the `requires`.
/// The memory that a large recorded `m` asks for is not bounded here.
#[verifier::external_body]
fn argon2_verify(password: &str, phc: &str) -> (res: Option<bool>)
    requires
        phc_lanes(phc@) matches Some(Some(lanes)) ==> lanes <= 0x1FFF_FFFF,
    ensures
        res is Some <==> phc_lanes(phc@) is Some,
        res matches Some(b) ==> b == argon2_matches(password@, phc@),
{
    match PasswordHash::new(phc) {
        Ok(parsed) => Some(Argon2::default().verify_password(password.as_bytes(), &parsed).is_ok()),
        Err(_) => None,
    }
}

/// Calls `SaltString::generate` with `OsRng` and returns the salt string.
/// Claimed: 16 random bytes encode to a valid B64 salt of 22 characters, which decodes
/// back to 16 bytes. Its characters are random and nothing more is said of them.
#[verifier::external_body]
fn generate_salt() -> (salt: String)
    ensures
        salt_b64_valid(salt@),
        salt@.len() == 22,
        b64_decoded_len(salt@) == Some(16nat),
{
    SaltString::generate(&mut OsRng).as_str().to_string()
}

/// What hashing `password` with the given costs and salt string gives:
/// `(phc hash, salt, key)`.
pub open spec fn hash_outcome(password: Seq<char>, m_cost: u32, t_cost: u32, p_cost: u32, salt: Seq<char>) -> Result<
    (Seq<char>, Seq<char>, Seq<u8>),
    CryptoFailure,
> {
    if !salt_b64_valid(salt) {
        Err(CryptoFailure::Hashing("Invalid salt"@))
    } else {
        match argon2id_hash(password, m_cost, t_cost, p_cost, salt) {
            Some((phc, output)) => Ok((phc, salt, output)),
            None => Err(CryptoFailure::Hashing("Hashing failed"@)),
        }
    }
}

/// Whether the costs could make `argon2id_phc` overflow (only reachable with a valid salt).
pub open spec fn argon2_costs_overflow(m_cost: u32, p_cost: u32) -> bool {
    m_cost >= 8 && p_cost > 0x1FFF_FFFF
}

/// What checking `password` against the PHC string `hash` gives: an error when `hash`
/// is not a PHC string, `false` when it records more lanes than Argon2 allows, and the
/// verification result otherwise.
pub open spec fn verify_outcome(password: Seq<char>, hash: Seq<char>) -> Result<bool, CryptoFailure> {
    match phc_lanes(hash) {
        None => Err(CryptoFailure::Hashing("Hashing failed"@)),
        Some(Some(lanes)) if lanes > 0xFF_FFFF => Ok(false),
        Some(_) => Ok(argon2_matches(password, hash)),
    }
}

/// A boolean crypto result, seen through views.
pub open spec fn bool_outcome(r: Result<bool, CryptoError>) -> Result<bool, CryptoFailure> {
    match r {
        Ok(b) => Ok(b),
        Err(e) => Err(e@),
    }
}

/// Law: any password can be checked against a hash string that `hash_password` made;
/// the check gives `Ok` (true exactly when Argon2 verification accepts), never an error.
pub proof fn lemma_check_against_made_hash(password: Seq<char>, hash: Seq<char>, lanes: u32)
    requires
        phc_lanes(hash) == Some(Some(lanes)),
        lanes <= 0xFF_FFFF,
    ensures
        verify_outcome(password, hash) == Ok::<bool, CryptoFailure>(argon2_matches(password, hash)),
{
}

/// Hashes `password` with Argon2id and the given costs.
///
/// With `existing_salt` the given B64 salt is used (and refused with
/// `HashingError("Invalid salt")` when invalid); without it a random salt is generated.
/// Returns the PHC hash string (`$argon2id$v=19$m=..,t=..,p=..$salt$hash`, the hash being
/// the key in B64), the salt string and the 32-byte key (the raw hash).
pub fn hash_password(
    password: &str,
    memory_cost: u32,
    time_cost: u32,
    parallelism: u32,
    existing_salt: Option<&str>,
) -> (res: Result<(String, String, Vec<u8>), CryptoError>)
    requires
        match existing_salt {
            Some(s) => salt_b64_valid(s@),
            None => true,
        } ==> !argon2_costs_overflow(memory_cost, parallelism),
    ensures
        existing_salt matches Some(s) ==> hash_result_view(res) == hash_outcome(
            password@,
            memory_cost,
            time_cost,
            parallelism,
            s@,
        ),
        existing_salt matches Some(s) ==> (res is Ok <==> salt_b64_valid(s@) && argon2_hashable(
            password@,
            memory_cost,
            time_cost,
            parallelism,
            s@,
        )),
        existing_salt is None ==> match res {
            Ok((h, s, k)) => salt_b64_valid(s@) && s@.len() == 22 && hash_outcome(
                password@,
                memory_cost,
                time_cost,
                parallelism,
                s@,
            ) == Ok::<(Seq<char>, Seq<char>, Seq<u8>), CryptoFailure>((h@, s@, k@)),
            Err(e) => e@ == CryptoFailure::Hashing("Hashing failed"@),
        },
        existing_salt is None ==> (res is Ok <==> argon2_params_valid(memory_cost, time_cost, parallelism)
            && encode_utf8(password@).len() <= 0xFFFF_FFFF),
        res matches Ok((h, s, k)) ==> {
            &&& k@.len() == KEY_LEN
            &&& h@ == phc_prefix(memory_cost, time_cost, parallelism) + s@ + "$"@ + b64_unpadded(k@)
            &&& phc_lanes(h@) == Some(Some(parallelism))
            &&& verify_outcome(password@, h@) == Ok::<bool, CryptoFailure>(true)
        },
{
    let generated;
    let salt = match existing_salt {
        Some(s) => s,
        None => {
            generated = generate_salt();
            generated.as_str()
        },
    };
    match argon2id_phc(password, memory_cost, time_cost, parallelism, salt) {
        Ok((phc, salt_string, output)) => Ok((phc, salt_string, output)),
        Err(HashFault::InvalidSalt) => Err(CryptoError::HashingError(String::from_str("Invalid salt"))),
        Err(HashFault::Failed) => Err(CryptoError::HashingError(String::from_str("Hashing failed"))),
    }
}

/// Checks `password` against an Argon2 PHC hash string.
///
/// Fails with `HashingError("Hashing failed")` when `hash` is not a PHC string. A hash
/// string recording more lanes than Argon2 allows (over 2^24 - 1) matches no password.
pub fn verify_password(password: &str, hash: &str) -> (res: Result<bool, CryptoError>)
    ensures
        bool_outcome(res) == verify_outcome(password@, hash@),
{
    match parse_phc_params(hash) {
        None => Err(CryptoError::HashingError(String::from_str("Hashing failed"))),
        Some(params) => match lanes_in_effect(&params) {
            Some(lanes) if lanes > 0xFF_FFFF => Ok(false),
            _ => match argon2_verify(password, hash) {
                Some(b) => Ok(b),
                None => Err(CryptoError::HashingError(String::from_str("Hashing failed"))),
            },
        },
    }
}

} // verus!
