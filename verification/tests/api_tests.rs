use passwordmanager::manager::add_password as build_entry;
use passwordmanager::utils::api::{
    add_password, clear_all_data, get_password, initialize, list_passwords, master_password_stored, password_added,
    remove_password, set_master_password, verify_master_password, ApiBody, ApiResponse, MasterPasswordRequest,
    PasswordInfo,
};
use passwordmanager::utils::queries::SqlQueries;

fn text(r: &ApiResponse) -> (u16, String) {
    match &r.body {
        ApiBody::Message(m) => (r.status, m.clone()),
        other => panic!("unexpected body {other:?}"),
    }
}

fn request(p: &str) -> MasterPasswordRequest {
    MasterPasswordRequest { password: p.to_string() }
}

#[test]
fn initialize_reports_master_password_status() {
    let set = initialize(Ok(Some(("h".to_string(), "s".to_string()))));
    assert_eq!(text(&set), (200, "Master password already set".to_string()));
    assert_eq!(text(&initialize(Ok(None))), (200, "Master password needs to be set".to_string()));
    assert_eq!(text(&initialize(Err("disk I/O error".to_string()))), (500, "Error: disk I/O error".to_string()));
}

#[test]
fn set_then_verify_master_password() {
    let mut master = String::new();
    let record = set_master_password(&mut master, &request("api-master")).unwrap();
    assert_eq!(master, "api-master");
    let mut key = Vec::new();
    let answer = master_password_stored(&mut key, record.key.clone(), Ok(()));
    assert_eq!(text(&answer), (200, "Master password set successfully".to_string()));
    assert_eq!(key, record.key);

    let mut unlocked = Vec::new();
    let stored = Ok(Some((record.hash.clone(), record.salt.clone())));
    let answer = verify_master_password(&mut unlocked, stored, &request("api-master"));
    assert_eq!(text(&answer), (200, "true".to_string()));
    assert_eq!(unlocked, record.key);

    let mut untouched = vec![1, 2, 3];
    let stored = Ok(Some((record.hash, record.salt)));
    let answer = verify_master_password(&mut untouched, stored, &request("nope"));
    assert_eq!(text(&answer), (401, "false".to_string()));
    assert_eq!(untouched, vec![1, 2, 3]);
}

#[test]
fn master_password_not_stored_keeps_old_key() {
    let mut key = vec![7u8; 4];
    let answer = master_password_stored(&mut key, vec![1u8; 32], Err("locked".to_string()));
    assert_eq!(text(&answer), (500, "Error: locked".to_string()));
    assert_eq!(key, vec![7u8; 4]);
}

#[test]
fn verify_without_master_or_store_is_unauthorized() {
    let mut key = Vec::new();
    assert_eq!(text(&verify_master_password(&mut key, Ok(None), &request("x"))), (401, "false".to_string()));
    assert_eq!(text(&verify_master_password(&mut key, Err("e".to_string()), &request("x"))), (401, "false".to_string()));
    assert!(key.is_empty());
}

#[test]
fn add_and_get_password_through_the_api() {
    let key = vec![3u8; 32];
    let info = PasswordInfo {
        service: "example.com".to_string(),
        username: "admin".to_string(),
        password: "secure123".to_string(),
    };
    let entry = add_password(&key, &info).unwrap();
    assert_eq!(text(&password_added(Ok(()))), (200, "Password added successfully".to_string()));
    assert_eq!(text(&password_added(Err("UNIQUE constraint failed".to_string()))),
        (500, "Error: UNIQUE constraint failed".to_string()));
    let answer = get_password(Ok(Some(entry)), &key, "example.com");
    assert_eq!(answer.status, 200);
    match answer.body {
        ApiBody::Password(p) => {
            assert_eq!((p.service.as_str(), p.username.as_str(), p.password.as_str()), ("example.com", "admin", "secure123"))
        },
        other => panic!("unexpected body {other:?}"),
    }
    assert_eq!(text(&get_password(Ok(None), &key, "example.com")), (404, "Password not found".to_string()));
    assert_eq!(text(&get_password(Err("e".to_string()), &key, "x")), (404, "Password not found".to_string()));
}

#[test]
fn add_password_without_key_is_an_error() {
    let info = PasswordInfo { service: "s".to_string(), username: "u".to_string(), password: "p".to_string() };
    let answer = add_password(&[], &info).unwrap_err();
    assert_eq!(text(&answer), (500, "Error: Encryption failed: Failed to initialize AES-256-GCM cipher".to_string()));
}

#[test]
fn list_passwords_through_the_api() {
    let key = vec![2u8; 32];
    let a = build_entry(&key, "a.com", "alice", "pa").unwrap();
    let answer = list_passwords(Ok((vec![a.clone()], vec![Some(a)])), &key);
    assert_eq!(answer.status, 200);
    match answer.body {
        ApiBody::Passwords(list) => {
            assert_eq!(list.len(), 1);
            assert_eq!(list[0].password, "pa");
        },
        other => panic!("unexpected body {other:?}"),
    }
    assert_eq!(text(&list_passwords(Err("boom".to_string()), &key)), (500, "Error: boom".to_string()));
}

#[test]
fn remove_and_clear_through_the_api() {
    assert_eq!(text(&remove_password(Ok(true), "a")), (200, "Password removed successfully".to_string()));
    assert_eq!(text(&remove_password(Ok(false), "a")), (404, "Password not found".to_string()));
    assert_eq!(text(&remove_password(Err("e".to_string()), "a")), (404, "Password not found".to_string()));
    assert_eq!(text(&clear_all_data(Ok(()))), (200, "All data cleared successfully".to_string()));
    assert_eq!(text(&clear_all_data(Err("e".to_string()))), (500, "Error: e".to_string()));
}

#[test]
fn queries_name_the_tables() {
    assert!(SqlQueries::CREATE_PASSWORDS_TABLE.contains("CREATE TABLE IF NOT EXISTS passwords"));
    assert!(SqlQueries::CREATE_MASTER_PASSWORD_TABLE.contains("salt TEXT NOT NULL"));
    assert!(SqlQueries::INSERT_MASTER_PASSWORD.contains("?2"));
    assert!(SqlQueries::GET_MASTER_PASSWORD_DATA.contains("SELECT hash, salt"));
}
