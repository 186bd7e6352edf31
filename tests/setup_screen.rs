use lol_account_manager::account::Account;
use lol_account_manager::settings::Settings;
use lol_account_manager::setup::{
    check_password, check_passwords, check_path, ActionState, CreateState, ImportState, OpenState, SetupAction,
    SetupState, VerificationError,
};
use lol_account_manager::vault::Database;

fn s(x: &str) -> String {
    x.to_string()
}

fn create(path: &str, p1: &str, p2: &str) -> ActionState {
    ActionState::Create(CreateState { path: s(path), password1: s(p1), password2: s(p2) })
}

#[test]
fn single_checks() {
    assert_eq!(check_path(""), Err(VerificationError::EmptyPath));
    assert_eq!(check_path("/a"), Ok(()));
    assert_eq!(check_password(""), Err(VerificationError::EmptyPassword));
    assert_eq!(check_password("x"), Ok(()));
    assert_eq!(check_passwords(&s("a"), &s("b")), Err(VerificationError::MismatchedPasswords));
    assert_eq!(check_passwords(&s("a"), &s("a")), Ok(()));
}

#[test]
fn create_form_checks_in_order() {
    assert_eq!(create("", "", "x").check(), Err(VerificationError::EmptyPath));
    assert_eq!(create("/tmp/v.sealed", "", "x").check(), Err(VerificationError::EmptyPassword));
    assert_eq!(create("/tmp/v.sealed", "a", "b").check(), Err(VerificationError::MismatchedPasswords));
    assert_eq!(create("/tmp/v.sealed", "hunter2", "hunter2").check(), Ok(()));
}

#[test]
fn open_form_checks() {
    let open = |p: &str, pw: &str| ActionState::Open(OpenState { path: s(p), password: s(pw) });
    assert_eq!(open("", "x").check(), Err(VerificationError::EmptyPath));
    assert_eq!(open("/a", "").check(), Err(VerificationError::EmptyPassword));
    assert_eq!(open("/a", "x").check(), Ok(()));
}

#[test]
fn import_form_checks() {
    let import = |i: &str, o: &str, p1: &str, p2: &str| {
        ActionState::Import(ImportState { input_path: s(i), output_path: s(o), password1: s(p1), password2: s(p2) })
    };
    assert_eq!(import("/in", "", "pw", "pw").check(), Err(VerificationError::EmptyPath));
    assert_eq!(import("", "/out", "pw", "pw").check(), Err(VerificationError::EmptyPath));
    assert_eq!(import("/in", "/out", "", "").check(), Err(VerificationError::EmptyPassword));
    assert_eq!(import("/in", "/out", "pw", "px").check(), Err(VerificationError::MismatchedPasswords));
    assert_eq!(import("/in", "/out", "pw", "pw").check(), Ok(()));
}

#[test]
fn new_setup_starts_with_empty_create_form() {
    let setup = SetupState::new(Settings::default());
    assert_eq!(setup.action().err(), Some(VerificationError::EmptyPath));
    match setup.state {
        ActionState::Create(c) => assert!(c.path.is_empty() && c.password1.is_empty()),
        _ => panic!("expected the create form"),
    }
}

#[test]
fn create_action_then_finish() {
    let mut setup = SetupState::new(Settings::default());
    setup.state = create("/tmp/v.sealed", "hunter2", "hunter2");
    match setup.action() {
        Ok(SetupAction::Create { path, password }) => {
            assert_eq!(path, "/tmp/v.sealed");
            assert_eq!(password, "hunter2");
            let db = Database::new(&path, &password);
            assert!(db.accounts.is_empty());
            let settings = setup.finish(&db);
            assert_eq!(settings.last_database.as_deref(), Some("/tmp/v.sealed"));
            assert!(settings.close_on_login);
        }
        _ => panic!("expected a create action"),
    }
}

#[test]
fn import_action_carries_both_paths() {
    let mut setup = SetupState::new(Settings::default());
    setup.state = ActionState::Import(ImportState {
        input_path: s("/tmp/plain.yml"),
        output_path: s("/tmp/w.sealed"),
        password1: s("pw"),
        password2: s("pw"),
    });
    match setup.action() {
        Ok(SetupAction::Import { input, output, password }) => {
            assert_eq!((input.as_str(), output.as_str(), password.as_str()), ("/tmp/plain.yml", "/tmp/w.sealed", "pw"));
            let a = Account::new(s("a"), s("u"), s("p"), s(""));
            let b = Account::new(s("b"), s("u"), s("p"), s(""));
            let db = Database::from_accounts(vec![a, b], &output, &password);
            let names: Vec<&str> = db.accounts.iter().map(|a| a.name.as_str()).collect();
            assert_eq!(names, vec!["a", "b"]);
            assert_eq!(setup.finish(&db).last_database.as_deref(), Some("/tmp/w.sealed"));
        }
        _ => panic!("expected an import action"),
    }
}

#[test]
fn verification_messages() {
    assert_eq!(VerificationError::EmptyPath.message(), "Paths can't be empty!");
    assert_eq!(VerificationError::EmptyPassword.message(), "Passwords can't be empty!");
    assert_eq!(VerificationError::MismatchedPasswords.message(), "The passwords don't match!");
}
