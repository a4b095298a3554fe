//! The command-line session: its decisions, from the user's answers and the store's
//! replies to what the driver does next.
use crate::crypto::{decrypt, decrypt_outcome, CryptoFailure};
use crate::database::{entry_option_view, EntryView, PasswordEntry};
use crate::manager::{
    create_master_password, master_record_valid, master_unlock_outcome, verify_master_password,
    ManagerError, ManagerFailure, MasterPasswordRecord, MasterPasswordSource,
};
use crate::text::{decode_lossy, utf8_lossy};
use vstd::prelude::*;
use vstd::utf8::encode_utf8;

verus! {

/// Command line interface for the password manager.
#[derive(Debug)]
pub struct Cli {
    /// Subcommand to execute.
    pub command: Commands,
}

/// Available subcommands.
#[derive(Debug)]
pub enum Commands {
    /// Add a new password entry for a website and username.
    Add { website: String, username: String },
    /// Get the password entry of a website.
    Get { website: String },
    /// List all password entries.
    List,
    /// Delete the password entry of a website.
    Delete { website: String },
}

/// ASCII lowercase of a character; other characters are unchanged.
pub open spec fn ascii_lower(c: char) -> char {
    if 'A' <= c && c <= 'Z' {
        ((c as u32) + 32) as char
    } else {
        c
    }
}

/// Whether `s` equals the lowercase ASCII word `word`, ignoring ASCII case.
pub open spec fn equals_ignoring_ascii_case(s: Seq<char>, word: Seq<char>) -> bool {
    &&& s.len() == word.len()
    &&& forall|i: int| 0 <= i < s.len() ==> ascii_lower(#[trigger] s[i]) == word[i]
}

/// Whether a (trimmed) answer to a y/n question confirms: "y" or "yes" in any ASCII case.
pub open spec fn is_confirmation(response: Seq<char>) -> bool {
    equals_ignoring_ascii_case(response, "y"@) || equals_ignoring_ascii_case(response, "yes"@)
}

/// Whether character `c` is the ASCII letter `lower` in either case.
fn is_letter_ignoring_case(c: char, lower: char, upper: char) -> (res: bool)
    requires
        'a' <= lower <= 'z',
        upper as u32 == lower as u32 - 32,
    ensures
        res == (ascii_lower(c) == lower),
{
    c == lower || c == upper
}

/// Decides a y/n confirmation from the user's (trimmed) answer: true for "y" or "yes",
/// ignoring ASCII case.
pub fn confirm_action(response: &str) -> (res: bool)
    ensures
        res == is_confirmation(response@),
{
    proof {
        reveal_strlit("y");
        reveal_strlit("yes");
    }
    let n = response.unicode_len();
    if n == 1 {
        is_letter_ignoring_case(response.get_char(0), 'y', 'Y')
    } else if n == 3 {
        let a = is_letter_ignoring_case(response.get_char(0), 'y', 'Y');
        let b = is_letter_ignoring_case(response.get_char(1), 'e', 'E');
        let c = is_letter_ignoring_case(response.get_char(2), 's', 'S');
        proof {
            if a && b && c {
                assert(equals_ignoring_ascii_case(response@, "yes"@));
            } else if !a {
                assert(ascii_lower(response@[0]) != "yes"@[0]);
            } else if !b {
                assert(ascii_lower(response@[1]) != "yes"@[1]);
            } else {
                assert(ascii_lower(response@[2]) != "yes"@[2]);
            }
        }
        a && b && c
    } else {
        false
    }
}

/// An operation offered by the main menu.
#[derive(Clone, Copy, Debug, PartialEq, Eq, Structural)]
pub enum CliCommand {
    AddPassword,
    RemovePassword,
    ListPasswords,
    GetPasswordInfo,
    ClearAllData,
}

/// What a menu choice asks for.
#[derive(Clone, Copy, Debug, PartialEq, Eq, Structural)]
pub enum MenuChoice {
    Command(CliCommand),
    Exit,
    Invalid,
}

/// The menu's meaning of a choice: "0" to "4" run an operation, "5" exits.
pub open spec fn menu_choice_of(choice: Seq<char>) -> MenuChoice {
    if choice == "0"@ {
        MenuChoice::Command(CliCommand::AddPassword)
    } else if choice == "1"@ {
        MenuChoice::Command(CliCommand::RemovePassword)
    } else if choice == "2"@ {
        MenuChoice::Command(CliCommand::ListPasswords)
    } else if choice == "3"@ {
        MenuChoice::Command(CliCommand::GetPasswordInfo)
    } else if choice == "4"@ {
        MenuChoice::Command(CliCommand::ClearAllData)
    } else if choice == "5"@ {
        MenuChoice::Exit
    } else {
        MenuChoice::Invalid
    }
}

/// Interprets the option chosen at the main menu.
pub fn handle_menu_choice(choice: &str) -> (res: MenuChoice)
    ensures
        res == menu_choice_of(choice@),
{
    proof {
        reveal_strlit("0");
        reveal_strlit("1");
        reveal_strlit("2");
        reveal_strlit("3");
        reveal_strlit("4");
        reveal_strlit("5");
    }
    if choice.unicode_len() != 1 {
        proof {
            assert(choice@ != "0"@ && choice@ != "1"@ && choice@ != "2"@);
            assert(choice@ != "3"@ && choice@ != "4"@ && choice@ != "5"@);
        }
        return MenuChoice::Invalid;
    }
    let c = choice.get_char(0);
    proof {
        assert(choice@ =~= seq![c]);
    }
    if c == '0' {
        proof { assert(choice@ =~= "0"@); }
        MenuChoice::Command(CliCommand::AddPassword)
    } else if c == '1' {
        proof { assert(choice@ =~= "1"@); }
        MenuChoice::Command(CliCommand::RemovePassword)
    } else if c == '2' {
        proof { assert(choice@ =~= "2"@); }
        MenuChoice::Command(CliCommand::ListPasswords)
    } else if c == '3' {
        proof { assert(choice@ =~= "3"@); }
        MenuChoice::Command(CliCommand::GetPasswordInfo)
    } else if c == '4' {
        proof { assert(choice@ =~= "4"@); }
        MenuChoice::Command(CliCommand::ClearAllData)
    } else if c == '5' {
        proof { assert(choice@ =~= "5"@); }
        MenuChoice::Exit
    } else {
        proof {
            assert(choice@[0] != "0"@[0] && choice@[0] != "1"@[0] && choice@[0] != "2"@[0]);
            assert(choice@[0] != "3"@[0] && choice@[0] != "4"@[0] && choice@[0] != "5"@[0]);
        }
        MenuChoice::Invalid
    }
}

/// How the command line shows one stored entry.
#[derive(Debug)]
pub enum ListedPassword {
    /// The entry decrypted; its password decoded lossily.
    Shown { website: String, username: String, password: String },
    /// The entry did not decrypt.
    Undecryptable { website: String },
}

/// What the command line shows for one stored entry.
pub enum ListedView {
    Shown { website: Seq<char>, username: Seq<char>, password: Seq<char> },
    Undecryptable { website: Seq<char> },
}

impl View for ListedPassword {
    type V = ListedView;

    open spec fn view(&self) -> ListedView {
        match self {
            ListedPassword::Shown { website, username, password } => ListedView::Shown {
                website: website@,
                username: username@,
                password: password@,
            },
            ListedPassword::Undecryptable { website } => ListedView::Undecryptable { website: website@ },
        }
    }
}

/// How the command line shows `entry` when decrypting with `key`.
pub open spec fn listed_view(entry: EntryView, key: Seq<u8>) -> ListedView {
    match decrypt_outcome(entry.password, key) {
        Ok(bytes) => ListedView::Shown { website: entry.website, username: entry.username, password: utf8_lossy(bytes) },
        Err(_) => ListedView::Undecryptable { website: entry.website },
    }
}

/// Decrypts every stored entry for display, in the stored order; an entry that does
/// not decrypt is reported as such. An empty result means no passwords are stored.
pub fn list_passwords(entries: &Vec<PasswordEntry>, key: &[u8]) -> (res: Vec<ListedPassword>)
    ensures
        res@.len() == entries@.len(),
        forall|i: int| 0 <= i < entries@.len() ==> #[trigger] res@[i]@ == listed_view(entries@[i]@, key@),
{
    let mut shown: Vec<ListedPassword> = Vec::new();
    let mut i: usize = 0;
    while i < entries.len()
        invariant
            i <= entries@.len(),
            shown@.len() == i,
            forall|j: int| 0 <= j < i ==> #[trigger] shown@[j]@ == listed_view(entries@[j]@, key@),
        decreases entries@.len() - i,
    {
        let entry = &entries[i];
        let item = match decrypt(entry.password.as_slice(), key) {
            Ok(decrypted_password) => ListedPassword::Shown {
                website: entry.website.clone(),
                username: entry.username.clone(),
                password: decode_lossy(decrypted_password.as_slice()),
            },
            Err(_) => ListedPassword::Undecryptable { website: entry.website.clone() },
        };
        shown.push(item);
        i = i + 1;
    }
    shown
}

/// What looking up one website shows at the command line.
#[derive(Debug)]
pub enum LookupOutcome {
    /// The entry decrypted; its password decoded lossily.
    Shown { website: String, username: String, password: String },
    /// The entry did not decrypt.
    DecryptionFailed,
    /// No entry is stored for the website.
    NotFound,
}

/// Decrypts the entry found for a website for display.
pub fn get_password_info(found: Option<PasswordEntry>, key: &[u8]) -> (res: LookupOutcome)
    ensures
        match entry_option_view(found) {
            None => res is NotFound,
            Some(entry) => match decrypt_outcome(entry.password, key@) {
                Ok(bytes) => res matches LookupOutcome::Shown { website, username, password } && website@
                    == entry.website && username@ == entry.username && password@ == utf8_lossy(bytes),
                Err(_) => res is DecryptionFailed,
            },
        },
{
    match found {
        Some(entry) => match decrypt(entry.password.as_slice(), key) {
            Ok(decrypted_password) => LookupOutcome::Shown {
                website: entry.website,
                username: entry.username,
                password: decode_lossy(decrypted_password.as_slice()),
            },
            Err(_) => LookupOutcome::DecryptionFailed,
        },
        None => LookupOutcome::NotFound,
    }
}

/// Where a command-line session stands.
#[derive(Debug)]
pub enum CliState {
    /// The store is being opened.
    Starting,
    /// A master password is stored (hash, salt); waiting for the user to enter it.
    Unlocking { stored: (String, String) },
    /// No master password is stored; waiting for a new one, entered twice.
    Creating,
    /// A new master password was hashed; waiting for the store to keep it.
    StoringMaster { key: Vec<u8> },
    /// Unlocked with `key`; the main menu is active.
    Menu { key: Vec<u8> },
    /// The session has ended.
    Finished,
}

/// What the driver reports back to the session.
#[derive(Debug)]
pub enum CliEvent {
    /// The store was opened; `master` is its master password data (hash, salt), if any.
    DatabaseOpened { master: Option<(String, String)> },
    /// The user entered the master password.
    MasterPasswordEntered(String),
    /// The user entered a new master password and its confirmation.
    NewMasterPasswordEntered { password: String, confirmation: String },
    /// The store kept the new master password.
    MasterPasswordStored,
    /// The user chose a menu option.
    MenuChoiceEntered(String),
    /// A menu operation finished.
    CommandDone,
    /// An input, output or store operation failed; the driver holds the error.
    Failed,
}

/// What the session asks the driver to do next.
#[derive(Debug)]
pub enum CliAction {
    /// Ask for the master password.
    PromptMasterPassword,
    /// Announce the creation of a master password and ask for it twice.
    PromptNewMasterPassword,
    /// Store the new master password's hash and salt, then announce success.
    StoreMasterPassword { hash: String, salt: String },
    /// Show the main menu and read a choice.
    ShowMenu,
    /// Run a menu operation with the encryption key.
    Run { command: CliCommand, key: Vec<u8> },
    /// Tell the user the option is invalid.
    ReportInvalidChoice,
    /// End the session successfully.
    Exit,
    /// End the session with this error.
    Fail(ManagerError),
    /// End the session with the error the driver holds.
    Abort,
}

/// What a session state holds.
pub enum CliStateView {
    Starting,
    Unlocking(Seq<char>, Seq<char>),
    Creating,
    StoringMaster(Seq<u8>),
    Menu(Seq<u8>),
    Finished,
}

impl View for CliState {
    type V = CliStateView;

    open spec fn view(&self) -> CliStateView {
        match self {
            CliState::Starting => CliStateView::Starting,
            CliState::Unlocking { stored } => CliStateView::Unlocking(stored.0@, stored.1@),
            CliState::Creating => CliStateView::Creating,
            CliState::StoringMaster { key } => CliStateView::StoringMaster(key@),
            CliState::Menu { key } => CliStateView::Menu(key@),
            CliState::Finished => CliStateView::Finished,
        }
    }
}

/// What a driver report holds.
pub enum CliEventView {
    DatabaseOpened(Option<(Seq<char>, Seq<char>)>),
    MasterPasswordEntered(Seq<char>),
    NewMasterPasswordEntered(Seq<char>, Seq<char>),
    MasterPasswordStored,
    MenuChoiceEntered(Seq<char>),
    CommandDone,
    Failed,
}

impl View for CliEvent {
    type V = CliEventView;

    open spec fn view(&self) -> CliEventView {
        match self {
            CliEvent::DatabaseOpened { master } => CliEventView::DatabaseOpened(
                match master {
                    Some((h, s)) => Some((h@, s@)),
                    None => None,
                },
            ),
            CliEvent::MasterPasswordEntered(p) => CliEventView::MasterPasswordEntered(p@),
            CliEvent::NewMasterPasswordEntered { password, confirmation } => CliEventView::NewMasterPasswordEntered(
                password@,
                confirmation@,
            ),
            CliEvent::MasterPasswordStored => CliEventView::MasterPasswordStored,
            CliEvent::MenuChoiceEntered(c) => CliEventView::MenuChoiceEntered(c@),
            CliEvent::CommandDone => CliEventView::CommandDone,
            CliEvent::Failed => CliEventView::Failed,
        }
    }
}

/// What an action asks for.
pub enum CliActionView {
    PromptMasterPassword,
    PromptNewMasterPassword,
    StoreMasterPassword(Seq<char>, Seq<char>),
    ShowMenu,
    Run(CliCommand, Seq<u8>),
    ReportInvalidChoice,
    Exit,
    Fail(ManagerFailure),
    Abort,
}

impl View for CliAction {
    type V = CliActionView;

    open spec fn view(&self) -> CliActionView {
        match self {
            CliAction::PromptMasterPassword => CliActionView::PromptMasterPassword,
            CliAction::PromptNewMasterPassword => CliActionView::PromptNewMasterPassword,
            CliAction::StoreMasterPassword { hash, salt } => CliActionView::StoreMasterPassword(hash@, salt@),
            CliAction::ShowMenu => CliActionView::ShowMenu,
            CliAction::Run { command, key } => CliActionView::Run(*command, key@),
            CliAction::ReportInvalidChoice => CliActionView::ReportInvalidChoice,
            CliAction::Exit => CliActionView::Exit,
            CliAction::Fail(e) => CliActionView::Fail(e@),
            CliAction::Abort => CliActionView::Abort,
        }
    }
}

/// The steps a command-line session may take: from `state`, on `event`, to `next`
/// while asking for `action`. Only the creation of a master password, whose salt is
/// random, allows more than one outcome; it fails only for a password longer than
/// Argon2 accepts (2^32 - 1 UTF-8 bytes).
pub open spec fn cli_transition(
    state: CliStateView,
    event: CliEventView,
    next: CliStateView,
    action: CliActionView,
) -> bool {
    match (state, event) {
        (_, CliEventView::Failed) => next == CliStateView::Finished && action == CliActionView::Abort,
        (CliStateView::Starting, CliEventView::DatabaseOpened(Some((hash, salt)))) => next
            == CliStateView::Unlocking(hash, salt) && action == CliActionView::PromptMasterPassword,
        (CliStateView::Starting, CliEventView::DatabaseOpened(None)) => next == CliStateView::Creating
            && action == CliActionView::PromptNewMasterPassword,
        (CliStateView::Unlocking(hash, salt), CliEventView::MasterPasswordEntered(password)) => match master_unlock_outcome(
            Some((hash, salt)),
            password,
        ) {
            Ok(key) => next == CliStateView::Menu(key) && action == CliActionView::ShowMenu,
            Err(f) => next == CliStateView::Finished && action == CliActionView::Fail(f),
        },
        (CliStateView::Creating, CliEventView::NewMasterPasswordEntered(password, confirmation)) => if password
            != confirmation {
            next == CliStateView::Finished && action == CliActionView::Fail(ManagerFailure::PasswordsDoNotMatch)
        } else {
            match (next, action) {
                (CliStateView::StoringMaster(key), CliActionView::StoreMasterPassword(hash, salt)) => master_record_valid(
                    password,
                    hash,
                    salt,
                    key,
                ),
                (CliStateView::Finished, CliActionView::Fail(f)) => f == ManagerFailure::Crypto(
                    CryptoFailure::Hashing("Hashing failed"@),
                ) && encode_utf8(password).len() > 0xFFFF_FFFF,
                _ => false,
            }
        },
        (CliStateView::StoringMaster(key), CliEventView::MasterPasswordStored) => next == CliStateView::Menu(key)
            && action == CliActionView::ShowMenu,
        (CliStateView::Menu(key), CliEventView::MenuChoiceEntered(choice)) => match menu_choice_of(choice) {
            MenuChoice::Command(command) => next == CliStateView::Menu(key) && action == CliActionView::Run(
                command,
                key,
            ),
            MenuChoice::Exit => next == CliStateView::Finished && action == CliActionView::Exit,
            MenuChoice::Invalid => next == CliStateView::Menu(key) && action == CliActionView::ReportInvalidChoice,
        },
        (CliStateView::Menu(key), CliEventView::CommandDone) => next == CliStateView::Menu(key) && action
            == CliActionView::ShowMenu,
        _ => next == CliStateView::Finished && action == CliActionView::Abort,
    }
}

/// Law: a session enters its menu only with the key that the entered master password
/// unlocks from the stored data, or with the key of a newly created master password
/// that the store has kept; and it runs operations only with its menu key.
pub proof fn lemma_menu_key_is_unlocked(
    state: CliStateView,
    event: CliEventView,
    next: CliStateView,
    action: CliActionView,
)
    requires
        cli_transition(state, event, next, action),
    ensures
        next matches CliStateView::Menu(key) ==> {
            ||| state == CliStateView::Menu(key)
            ||| state == CliStateView::StoringMaster(key) && event == CliEventView::MasterPasswordStored
            ||| state matches CliStateView::Unlocking(hash, salt) && event matches CliEventView::MasterPasswordEntered(
                password,
            ) && master_unlock_outcome(Some((hash, salt)), password) == Ok::<Seq<u8>, ManagerFailure>(key)
        },
        action matches CliActionView::Run(_, key) ==> state == CliStateView::Menu(key),
{
}

/// The state of a new session: the driver opens the store first.
pub fn cli_session() -> (res: CliState)
    ensures
        res@ == CliStateView::Starting,
{
    CliState::Starting
}

/// One step of the command-line session: from its state and the driver's report to
/// the next state and the next thing to do.
///
/// A stored master password must be entered correctly to reach the menu; without one
/// a new master password is created, stored, and then the menu is shown. Every
/// failure ends the session.
pub fn start_cli(state: CliState, event: CliEvent) -> (res: (CliState, CliAction))
    ensures
        cli_transition(state@, event@, res.0@, res.1@),
{
    match (state, event) {
        (_, CliEvent::Failed) => (CliState::Finished, CliAction::Abort),
        (CliState::Starting, CliEvent::DatabaseOpened { master }) => match master {
            Some(stored) => (CliState::Unlocking { stored }, CliAction::PromptMasterPassword),
            None => (CliState::Creating, CliAction::PromptNewMasterPassword),
        },
        (CliState::Unlocking { stored }, CliEvent::MasterPasswordEntered(password)) => {
            let found = Some(stored);
            match verify_master_password(&found, password.as_str()) {
                Ok(key) => (CliState::Menu { key }, CliAction::ShowMenu),
                Err(e) => (CliState::Finished, CliAction::Fail(e)),
            }
        },
        (CliState::Creating, CliEvent::NewMasterPasswordEntered { password, confirmation }) => {
            match create_master_password(MasterPasswordSource::Prompted { password, confirmation }) {
                Ok(MasterPasswordRecord { hash, salt, key }) => (
                    CliState::StoringMaster { key },
                    CliAction::StoreMasterPassword { hash, salt },
                ),
                Err(e) => (CliState::Finished, CliAction::Fail(e)),
            }
        },
        (CliState::StoringMaster { key }, CliEvent::MasterPasswordStored) => (CliState::Menu { key }, CliAction::ShowMenu),
        (CliState::Menu { key }, CliEvent::MenuChoiceEntered(choice)) => match handle_menu_choice(choice.as_str()) {
            MenuChoice::Command(command) => {
                let run_key = key.clone();
                proof {
                    assert(run_key@ =~= key@);
                }
                (CliState::Menu { key }, CliAction::Run { command, key: run_key })
            },
            MenuChoice::Exit => (CliState::Finished, CliAction::Exit),
            MenuChoice::Invalid => (CliState::Menu { key }, CliAction::ReportInvalidChoice),
        },
        (CliState::Menu { key }, CliEvent::CommandDone) => (CliState::Menu { key }, CliAction::ShowMenu),
        _ => (CliState::Finished, CliAction::Abort),
    }
}

/// Law: an answer confirms exactly when it is "y" or "yes", each letter in either ASCII
/// case; so "n", "no" and every other answer, in any case, confirm nothing.
pub proof fn lemma_confirmation_words(response: Seq<char>)
    ensures
        is_confirmation(response) <==> {
            ||| response.len() == 1 && (response[0] == 'y' || response[0] == 'Y')
            ||| response.len() == 3 && (response[0] == 'y' || response[0] == 'Y') && (response[1] == 'e'
                || response[1] == 'E') && (response[2] == 's' || response[2] == 'S')
        },
{
    reveal_strlit("y");
    reveal_strlit("yes");
    assert forall|c: char| #[trigger] ascii_lower(c) == 'y' <==> (c == 'y' || c == 'Y') by {}
    assert forall|c: char| #[trigger] ascii_lower(c) == 'e' <==> (c == 'e' || c == 'E') by {}
    assert forall|c: char| #[trigger] ascii_lower(c) == 's' <==> (c == 's' || c == 'S') by {}
    if response.len() == 1 {
        assert(equals_ignoring_ascii_case(response, "y"@) <==> ascii_lower(response[0]) == 'y');
    }
    if response.len() == 3 {
        assert(equals_ignoring_ascii_case(response, "yes"@) <==> (ascii_lower(response[0]) == 'y'
            && ascii_lower(response[1]) == 'e' && ascii_lower(response[2]) == 's'));
    }
}

/// Law: at the menu, "0" to "4" run add, remove, list, look up and clear, in that order,
/// with the menu key, and the session stays at the menu; "5" ends the session; every
/// other choice, the empty one included, is reported as invalid and the session stays
/// at the menu with the same key.
pub proof fn lemma_menu_choices(key: Seq<u8>, choice: Seq<char>, next: CliStateView, action: CliActionView)
    requires
        cli_transition(CliStateView::Menu(key), CliEventView::MenuChoiceEntered(choice), next, action),
    ensures
        choice == seq!['0'] ==> next == CliStateView::Menu(key) && action == CliActionView::Run(
            CliCommand::AddPassword,
            key,
        ),
        choice == seq!['1'] ==> next == CliStateView::Menu(key) && action == CliActionView::Run(
            CliCommand::RemovePassword,
            key,
        ),
        choice == seq!['2'] ==> next == CliStateView::Menu(key) && action == CliActionView::Run(
            CliCommand::ListPasswords,
            key,
        ),
        choice == seq!['3'] ==> next == CliStateView::Menu(key) && action == CliActionView::Run(
            CliCommand::GetPasswordInfo,
            key,
        ),
        choice == seq!['4'] ==> next == CliStateView::Menu(key) && action == CliActionView::Run(
            CliCommand::ClearAllData,
            key,
        ),
        choice == seq!['5'] ==> next == CliStateView::Finished && action == CliActionView::Exit,
        !(choice.len() == 1 && '0' <= choice[0] <= '5') ==> next == CliStateView::Menu(key) && action
            == CliActionView::ReportInvalidChoice,
        next == CliStateView::Finished <==> choice == seq!['5'],
{
    reveal_strlit("0");
    reveal_strlit("1");
    reveal_strlit("2");
    reveal_strlit("3");
    reveal_strlit("4");
    reveal_strlit("5");
    assert("0"@ =~= seq!['0']);
    assert("1"@ =~= seq!['1']);
    assert("2"@ =~= seq!['2']);
    assert("3"@ =~= seq!['3']);
    assert("4"@ =~= seq!['4']);
    assert("5"@ =~= seq!['5']);
    if choice.len() == 1 && '0' <= choice[0] <= '5' {
        let c = choice[0];
        assert(choice =~= seq![c]);
        assert(c == '0' || c == '1' || c == '2' || c == '3' || c == '4' || c == '5');
    }
}

/// Law: a new master password whose two entries agree is stored as a record that this
/// very password unlocks, giving the key the session then uses; creation fails only for
/// a password longer than Argon2 accepts.
pub proof fn lemma_created_master_unlocks(password: Seq<char>, next: CliStateView, action: CliActionView)
    requires
        cli_transition(CliStateView::Creating, CliEventView::NewMasterPasswordEntered(password, password), next, action),
    ensures
        next matches CliStateView::StoringMaster(key) ==> action matches CliActionView::StoreMasterPassword(
            hash,
            salt,
        ) && master_unlock_outcome(Some((hash, salt)), password) == Ok::<Seq<u8>, ManagerFailure>(key),
        next is StoringMaster || (next == CliStateView::Finished && encode_utf8(password).len() > 0xFFFF_FFFF),
{
    if let CliStateView::StoringMaster(key) = next {
        if let CliActionView::StoreMasterPassword(hash, salt) = action {
            crate::manager::lemma_unlock_after_create(password, hash, salt, key);
        }
    }
}

/// Law: listing an entry built by `add_password` with the listing key shows its website,
/// its username and the whole password it was built from.
pub proof fn lemma_cli_listing_shows_added(entry: EntryView, key: Seq<u8>, password: Seq<char>)
    requires
        decrypt_outcome(entry.password, key) == Ok::<Seq<u8>, CryptoFailure>(encode_utf8(password)),
    ensures
        listed_view(entry, key) == (ListedView::Shown {
            website: entry.website,
            username: entry.username,
            password: password,
        }),
{
    vstd::utf8::encode_utf8_valid_utf8(password);
    vstd::utf8::encode_utf8_decode_utf8(password);
}

} // verus!
