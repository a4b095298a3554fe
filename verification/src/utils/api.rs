//! The web API's data and the answers its endpoints give.
use crate::database::{entry_option_view, PasswordEntry};
use crate::manager::{
    self, add_password as build_entry, create_master_password, listing, manager_message,
    master_unlock_outcome, password_info_outcome, stored_master_view, ManagerFailure,
    MasterPasswordRecord, MasterPasswordSource,
};
use vstd::prelude::*;

verus! {

/// A decrypted password entry as the API exchanges it.
#[derive(Debug, Clone)]
pub struct PasswordInfo {
    pub service: String,
    pub username: String,
    pub password: String,
}

/// The contents of a `PasswordInfo`.
pub struct InfoView {
    pub service: Seq<char>,
    pub username: Seq<char>,
    pub password: Seq<char>,
}

impl View for PasswordInfo {
    type V = InfoView;

    open spec fn view(&self) -> InfoView {
        InfoView { service: self.service@, username: self.username@, password: self.password@ }
    }
}

/// Body of the master password requests.
#[derive(Debug, Clone)]
pub struct MasterPasswordRequest {
    pub password: String,
}

/// HTTP 200 OK.
pub const STATUS_OK: u16 = 200;

/// HTTP 401 Unauthorized.
pub const STATUS_UNAUTHORIZED: u16 = 401;

/// HTTP 404 Not Found.
pub const STATUS_NOT_FOUND: u16 = 404;

/// HTTP 500 Internal Server Error.
pub const STATUS_INTERNAL_ERROR: u16 = 500;

/// What an endpoint answers with, serialized as JSON.
#[derive(Debug)]
pub enum ApiBody {
    /// A JSON string.
    Message(String),
    /// One decrypted entry.
    Password(PasswordInfo),
    /// A list of decrypted entries.
    Passwords(Vec<PasswordInfo>),
}

/// An endpoint's answer: status code and body.
#[derive(Debug)]
pub struct ApiResponse {
    pub status: u16,
    pub body: ApiBody,
}

/// What an answer body holds.
pub enum ApiBodyView {
    Message(Seq<char>),
    Password(InfoView),
    Passwords(Seq<InfoView>),
}

/// What an answer holds.
pub struct ApiResponseView {
    pub status: u16,
    pub body: ApiBodyView,
}

impl View for ApiResponse {
    type V = ApiResponseView;

    open spec fn view(&self) -> ApiResponseView {
        ApiResponseView {
            status: self.status,
            body: match &self.body {
                ApiBody::Message(m) => ApiBodyView::Message(m@),
                ApiBody::Password(i) => ApiBodyView::Password(i@),
                ApiBody::Passwords(v) => ApiBodyView::Passwords(v@.map_values(|i: PasswordInfo| i@)),
            },
        }
    }
}

/// An answer with a text body.
pub open spec fn text_response(status: u16, text: Seq<char>) -> ApiResponseView {
    ApiResponseView { status, body: ApiBodyView::Message(text) }
}

fn message_response(status: u16, text: String) -> (res: ApiResponse)
    ensures
        res@ == text_response(status, text@),
{
    ApiResponse { status, body: ApiBody::Message(text) }
}

/// The answer to an operation that failed with the error text `message`.
pub open spec fn error_response(message: Seq<char>) -> ApiResponseView {
    text_response(STATUS_INTERNAL_ERROR, "Error: "@ + message)
}

fn internal_error(message: &str) -> (res: ApiResponse)
    ensures
        res@ == error_response(message@),
{
    message_response(STATUS_INTERNAL_ERROR, String::from_str("Error: ").concat(message))
}

/// `GET /api/initialize`: whether a master password is set, given what the store
/// returned for the master password data (or its error text).
pub fn initialize(master: Result<Option<(String, String)>, String>) -> (res: ApiResponse)
    ensures
        res@ == match master {
            Ok(Some(_)) => text_response(STATUS_OK, "Master password already set"@),
            Ok(None) => text_response(STATUS_OK, "Master password needs to be set"@),
            Err(e) => error_response(e@),
        },
{
    match master {
        Ok(Some(_)) => message_response(STATUS_OK, String::from_str("Master password already set")),
        Ok(None) => message_response(STATUS_OK, String::from_str("Master password needs to be set")),
        Err(e) => internal_error(e.as_str()),
    }
}

/// `POST /api/create-master-password`, first part: records the requested master
/// password in `master_key` and hashes it with a fresh salt. The record's hash and
/// salt are then stored and `master_password_stored` answers.
pub fn set_master_password(master_key: &mut String, request: &MasterPasswordRequest) -> (res: Result<
    MasterPasswordRecord,
    ApiResponse,
>)
    ensures
        final(master_key)@ == request.password@,
        res is Ok <==> vstd::utf8::encode_utf8(request.password@).len() <= 0xFFFF_FFFF,
        match res {
            Ok(r) => manager::master_record_valid(request.password@, r.hash@, r.salt@, r.key@),
            Err(answer) => answer@ == error_response(
                manager_message(
                    ManagerFailure::Crypto(crate::crypto::CryptoFailure::Hashing("Hashing failed"@)),
                ),
            ),
        },
{
    *master_key = request.password.clone();
    match create_master_password(MasterPasswordSource::Provided(Some(request.password.clone()))) {
        Ok(record) => Ok(record),
        Err(e) => Err(internal_error(e.message().as_str())),
    }
}

/// `POST /api/create-master-password`, second part: given whether the store kept the
/// new master password (or its error text), installs the new encryption `key` and
/// answers.
pub fn master_password_stored(encryption_key: &mut Vec<u8>, key: Vec<u8>, stored: Result<(), String>) -> (res:
    ApiResponse)
    ensures
        match stored {
            Ok(()) => final(encryption_key)@ == key@ && res@ == text_response(
                STATUS_OK,
                "Master password set successfully"@,
            ),
            Err(e) => final(encryption_key)@ == old(encryption_key)@ && res@ == error_response(e@),
        },
{
    match stored {
        Ok(()) => {
            *encryption_key = key;
            message_response(STATUS_OK, String::from_str("Master password set successfully"))
        },
        Err(e) => internal_error(e.as_str()),
    }
}

/// `POST /api/verify-master-password`: given what the store returned for the master
/// password data (or its error text), checks the password; on success the derived key
/// becomes the encryption key.
pub fn verify_master_password(
    encryption_key: &mut Vec<u8>,
    stored: Result<Option<(String, String)>, String>,
    request: &MasterPasswordRequest,
) -> (res: ApiResponse)
    ensures
        match stored {
            Ok(st) => match master_unlock_outcome(stored_master_view(st), request.password@) {
                Ok(key) => final(encryption_key)@ == key && res@ == text_response(STATUS_OK, "true"@),
                Err(_) => final(encryption_key)@ == old(encryption_key)@ && res@ == text_response(
                    STATUS_UNAUTHORIZED,
                    "false"@,
                ),
            },
            Err(_) => final(encryption_key)@ == old(encryption_key)@ && res@ == text_response(
                STATUS_UNAUTHORIZED,
                "false"@,
            ),
        },
{
    match stored {
        Ok(st) => match manager::verify_master_password(&st, request.password.as_str()) {
            Ok(key) => {
                *encryption_key = key;
                message_response(STATUS_OK, String::from_str("true"))
            },
            Err(_) => message_response(STATUS_UNAUTHORIZED, String::from_str("false")),
        },
        Err(_) => message_response(STATUS_UNAUTHORIZED, String::from_str("false")),
    }
}

/// `POST /api/add-password`, first part: encrypts the requested entry under the
/// encryption key. The entry is then stored and `password_added` answers.
pub fn add_password(encryption_key: &[u8], request: &PasswordInfo) -> (res: Result<PasswordEntry, ApiResponse>)
    ensures
        match res {
            Ok(entry) => password_info_outcome(Some(entry@), encryption_key@, request.service@) == Ok::<
                InfoView,
                ManagerFailure,
            >(request@),
            Err(answer) => answer.status == STATUS_INTERNAL_ERROR,
        },
        encryption_key@.len() == crate::crypto::KEY_LEN && vstd::utf8::encode_utf8(request.password@).len()
            <= crate::crypto::PLAINTEXT_MAX ==> res is Ok,
        encryption_key@.len() != crate::crypto::KEY_LEN ==> (res matches Err(answer) && answer@ == error_response(
            "Encryption failed: Failed to initialize AES-256-GCM cipher"@,
        )),
        encryption_key@.len() == crate::crypto::KEY_LEN && vstd::utf8::encode_utf8(request.password@).len()
            > crate::crypto::PLAINTEXT_MAX ==> (res matches Err(answer) && answer@ == error_response(
            "Encryption failed: Encryption failed"@,
        )),
{
    proof {
        reveal_strlit("Encryption failed: ");
        reveal_strlit("Failed to initialize AES-256-GCM cipher");
        reveal_strlit("Encryption failed: Failed to initialize AES-256-GCM cipher");
        reveal_strlit("Encryption failed");
        reveal_strlit("Encryption failed: Encryption failed");
    }
    match build_entry(encryption_key, request.service.as_str(), request.username.as_str(), request.password.as_str()) {
        Ok(entry) => Ok(entry),
        Err(e) => {
            let answer = internal_error(e.message().as_str());
            proof {
                assert(("Encryption failed: "@ + "Failed to initialize AES-256-GCM cipher"@)
                    =~= "Encryption failed: Failed to initialize AES-256-GCM cipher"@);
                assert(("Encryption failed: "@ + "Encryption failed"@) =~= "Encryption failed: Encryption failed"@);
            }
            Err(answer)
        },
    }
}

/// `POST /api/add-password`, second part: answers given whether the store kept the
/// entry (or its error text).
pub fn password_added(stored: Result<(), String>) -> (res: ApiResponse)
    ensures
        res@ == match stored {
            Ok(()) => text_response(STATUS_OK, "Password added successfully"@),
            Err(e) => error_response(e@),
        },
{
    match stored {
        Ok(()) => message_response(STATUS_OK, String::from_str("Password added successfully")),
        Err(e) => internal_error(e.as_str()),
    }
}

/// `GET /api/list-passwords`: given the stored entries and each one read back by its
/// website (or the store's error text), answers with the entries that decrypt.
pub fn list_passwords(stored: Result<(Vec<PasswordEntry>, Vec<Option<PasswordEntry>>), String>, encryption_key: &[u8]) -> (res:
    ApiResponse)
    requires
        stored matches Ok((listed, fetched)) ==> fetched@.len() == listed@.len(),
    ensures
        res@ == match stored {
            Ok((listed, fetched)) => ApiResponseView {
                status: STATUS_OK,
                body: ApiBodyView::Passwords(
                    listing(
                        listed@.map_values(|e: PasswordEntry| e@),
                        fetched@.map_values(|e: Option<PasswordEntry>| entry_option_view(e)),
                        encryption_key@,
                    ),
                ),
            },
            Err(e) => error_response(e@),
        },
{
    match stored {
        Ok((listed, fetched)) => {
            let passwords = manager::list_passwords(&listed, &fetched, encryption_key);
            ApiResponse { status: STATUS_OK, body: ApiBody::Passwords(passwords) }
        },
        Err(e) => internal_error(e.as_str()),
    }
}

/// `GET /api/get-password/{service}`: given what the store returned for the service
/// (or its error text), answers with the decrypted entry, or "Password not found".
pub fn get_password(found: Result<Option<PasswordEntry>, String>, encryption_key: &[u8], service: &str) -> (res:
    ApiResponse)
    ensures
        res@ == match found {
            Ok(f) => match password_info_outcome(entry_option_view(f), encryption_key@, service@) {
                Ok(info) => ApiResponseView { status: STATUS_OK, body: ApiBodyView::Password(info) },
                Err(_) => text_response(STATUS_NOT_FOUND, "Password not found"@),
            },
            Err(_) => text_response(STATUS_NOT_FOUND, "Password not found"@),
        },
{
    match found {
        Ok(f) => match manager::get_password_info(f, encryption_key, service) {
            Ok(info) => ApiResponse { status: STATUS_OK, body: ApiBody::Password(info) },
            Err(_) => message_response(STATUS_NOT_FOUND, String::from_str("Password not found")),
        },
        Err(_) => message_response(STATUS_NOT_FOUND, String::from_str("Password not found")),
    }
}

/// `DELETE /api/remove-password/{service}`: given whether the store deleted an entry
/// (or its error text), answers.
pub fn remove_password(deleted: Result<bool, String>, service: &str) -> (res: ApiResponse)
    ensures
        res@ == match deleted {
            Ok(true) => text_response(STATUS_OK, "Password removed successfully"@),
            _ => text_response(STATUS_NOT_FOUND, "Password not found"@),
        },
{
    match deleted {
        Ok(d) => match manager::remove_password(service, d) {
            Ok(()) => message_response(STATUS_OK, String::from_str("Password removed successfully")),
            Err(_) => message_response(STATUS_NOT_FOUND, String::from_str("Password not found")),
        },
        Err(_) => message_response(STATUS_NOT_FOUND, String::from_str("Password not found")),
    }
}

/// `DELETE /api/clear-all-data`: answers given how clearing went (or its error text).
pub fn clear_all_data(cleared: Result<(), String>) -> (res: ApiResponse)
    ensures
        res@ == match cleared {
            Ok(()) => text_response(STATUS_OK, "All data cleared successfully"@),
            Err(e) => error_response(e@),
        },
{
    match cleared {
        Ok(()) => message_response(STATUS_OK, String::from_str("All data cleared successfully")),
        Err(e) => internal_error(e.as_str()),
    }
}

} // verus!
