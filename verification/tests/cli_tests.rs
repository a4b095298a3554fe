use passwordmanager::cli::{
    cli_session, confirm_action, get_password_info, handle_menu_choice, list_passwords, start_cli, CliAction,
    CliCommand, CliEvent, CliState, ListedPassword, LookupOutcome, MenuChoice,
};
use passwordmanager::database::PasswordEntry;
use passwordmanager::manager::{add_password, create_master_password, ManagerError, MasterPasswordSource};

#[test]
fn confirm_action_accepts_y_and_yes_in_any_case() {
    for answer in ["y", "Y", "yes", "YES", "yEs", "Yes"] {
        assert!(confirm_action(answer), "{answer}");
    }
}

#[test]
fn confirm_action_refuses_everything_else() {
    for answer in ["", "n", "no", "yess", "ye", " y", "yes ", "ÿ", "yés", "1"] {
        assert!(!confirm_action(answer), "{answer}");
    }
}

#[test]
fn menu_choices() {
    assert_eq!(handle_menu_choice("0"), MenuChoice::Command(CliCommand::AddPassword));
    assert_eq!(handle_menu_choice("1"), MenuChoice::Command(CliCommand::RemovePassword));
    assert_eq!(handle_menu_choice("2"), MenuChoice::Command(CliCommand::ListPasswords));
    assert_eq!(handle_menu_choice("3"), MenuChoice::Command(CliCommand::GetPasswordInfo));
    assert_eq!(handle_menu_choice("4"), MenuChoice::Command(CliCommand::ClearAllData));
    assert_eq!(handle_menu_choice("5"), MenuChoice::Exit);
    for other in ["6", "", "00", "a", "٣"] {
        assert_eq!(handle_menu_choice(other), MenuChoice::Invalid);
    }
}

#[test]
fn cli_list_passwords_shows_every_entry() {
    let key = [4u8; 32];
    let good = add_password(&key, "a.com", "alice", "pa").unwrap();
    let bad = add_password(&[5u8; 32], "b.com", "bob", "pb").unwrap();
    let shown = list_passwords(&vec![good, bad], &key);
    assert_eq!(shown.len(), 2);
    assert!(matches!(&shown[0], ListedPassword::Shown { website, username, password }
        if website == "a.com" && username == "alice" && password == "pa"));
    assert!(matches!(&shown[1], ListedPassword::Undecryptable { website } if website == "b.com"));
    assert!(list_passwords(&vec![], &key).is_empty());
}

#[test]
fn cli_get_password_info_outcomes() {
    let key = [4u8; 32];
    let entry = add_password(&key, "a.com", "alice", "pa").unwrap();
    assert!(matches!(get_password_info(Some(entry.clone()), &key),
        LookupOutcome::Shown { website, username, password }
        if website == "a.com" && username == "alice" && password == "pa"));
    assert!(matches!(get_password_info(Some(entry), &[0u8; 32]), LookupOutcome::DecryptionFailed));
    assert!(matches!(get_password_info(None::<PasswordEntry>, &key), LookupOutcome::NotFound));
}

fn pick(state: CliState, choice: &str) -> (CliState, CliAction) {
    start_cli(state, CliEvent::MenuChoiceEntered(choice.to_string()))
}

#[test]
fn session_creates_master_password_then_runs_menu() {
    let state = cli_session();
    assert!(matches!(state, CliState::Starting));
    let (state, action) = start_cli(state, CliEvent::DatabaseOpened { master: None });
    assert!(matches!(state, CliState::Creating));
    assert!(matches!(action, CliAction::PromptNewMasterPassword));
    let (state, action) = start_cli(
        state,
        CliEvent::NewMasterPasswordEntered { password: "master".to_string(), confirmation: "master".to_string() },
    );
    let (hash, salt) = match action {
        CliAction::StoreMasterPassword { hash, salt } => (hash, salt),
        other => panic!("unexpected {other:?}"),
    };
    let key = match &state {
        CliState::StoringMaster { key } => key.clone(),
        other => panic!("unexpected {other:?}"),
    };
    assert_eq!(key.len(), 32);
    let (state, action) = start_cli(state, CliEvent::MasterPasswordStored);
    assert!(matches!(action, CliAction::ShowMenu));
    assert!(matches!(&state, CliState::Menu { key: k } if *k == key));

    let (state, action) = pick(state, "0");
    assert!(matches!(&action, CliAction::Run { command: CliCommand::AddPassword, key: k } if *k == key));
    let (state, action) = start_cli(state, CliEvent::CommandDone);
    assert!(matches!(action, CliAction::ShowMenu));
    let (state, action) = pick(state, "9");
    assert!(matches!(action, CliAction::ReportInvalidChoice));
    let (state, action) = pick(state, "5");
    assert!(matches!(state, CliState::Finished));
    assert!(matches!(action, CliAction::Exit));

    // The stored data unlocks a later session with the same key.
    let (state, _) = start_cli(cli_session(), CliEvent::DatabaseOpened { master: Some((hash, salt)) });
    let (state, action) = start_cli(state, CliEvent::MasterPasswordEntered("master".to_string()));
    assert!(matches!(action, CliAction::ShowMenu));
    assert!(matches!(&state, CliState::Menu { key: k } if *k == key));
}

#[test]
fn session_ends_on_mismatched_new_master_password() {
    let (state, _) = start_cli(CliState::Starting, CliEvent::DatabaseOpened { master: None });
    let (state, action) = start_cli(
        state,
        CliEvent::NewMasterPasswordEntered { password: "a".to_string(), confirmation: "b".to_string() },
    );
    assert!(matches!(state, CliState::Finished));
    assert!(matches!(action, CliAction::Fail(ManagerError::PasswordsDoNotMatch)));
}

#[test]
fn session_ends_on_wrong_master_password() {
    let record = create_master_password(MasterPasswordSource::Provided(Some("right".to_string()))).unwrap();
    let (state, action) =
        start_cli(CliState::Starting, CliEvent::DatabaseOpened { master: Some((record.hash, record.salt)) });
    assert!(matches!(action, CliAction::PromptMasterPassword));
    assert!(matches!(state, CliState::Unlocking { .. }));
    let (state, action) = start_cli(state, CliEvent::MasterPasswordEntered("wrong".to_string()));
    assert!(matches!(state, CliState::Finished));
    assert!(matches!(action, CliAction::Fail(ManagerError::IncorrectMasterPassword)));
}

#[test]
fn session_aborts_on_driver_failure_and_unexpected_events() {
    let (state, action) = start_cli(CliState::Menu { key: vec![1; 32] }, CliEvent::Failed);
    assert!(matches!(state, CliState::Finished));
    assert!(matches!(action, CliAction::Abort));
    let (state, action) = start_cli(CliState::Starting, CliEvent::CommandDone);
    assert!(matches!(state, CliState::Finished));
    assert!(matches!(action, CliAction::Abort));
}
