use lol_account_manager::credentials::{KeyringError, Password};
use lol_account_manager::envelope::VaultError;
use lol_account_manager::settings::Settings;
use lol_account_manager::startup::{ConfigError, StartupAction, StartupError, StartupEvent, StartupPhase, StartupState};
use lol_account_manager::vault::Database;

fn with_db() -> Settings {
    Settings::default().with_database("/tmp/v.sealed")
}

#[test]
fn first_run_without_last_database() {
    let (next, action) = StartupState::new().step(StartupEvent::SettingsLoaded(Settings::default()));
    assert_eq!(next.phase, StartupPhase::FirstRun);
    assert!(matches!(action, StartupAction::ShowSetup { error: None, raise_window: false }));
    assert_eq!(next.settings, Settings::default());
}

#[test]
fn settings_failure_falls_back_to_defaults() {
    let (next, action) = StartupState::new().step(StartupEvent::SettingsFailed(ConfigError::Malformed));
    assert_eq!(next.phase, StartupPhase::FirstRun);
    assert_eq!(next.settings, Settings::default());
    assert!(matches!(
        action,
        StartupAction::ShowSetup { error: Some(StartupError::Config(ConfigError::Malformed)), .. }
    ));
}

#[test]
fn restores_last_vault() {
    let (next, action) = StartupState::new().step(StartupEvent::SettingsLoaded(with_db()));
    assert_eq!(next.phase, StartupPhase::ReadingPassphrase);
    match action {
        StartupAction::ReadPassphrase { path } => assert_eq!(path, "/tmp/v.sealed"),
        _ => panic!("expected a keyring read"),
    }
    let (next, action) = next.step(StartupEvent::PassphraseRead("hunter2".to_string()));
    assert_eq!(next.phase, StartupPhase::OpeningVault);
    match action {
        StartupAction::OpenVault { path, passphrase } => {
            assert_eq!(path, "/tmp/v.sealed");
            assert_eq!(passphrase, "hunter2");
        }
        _ => panic!("expected a vault open"),
    }
    let db = Database::new("/tmp/v.sealed", "hunter2");
    let (next, action) = next.step(StartupEvent::VaultOpened(db));
    assert_eq!(next.phase, StartupPhase::Running);
    match action {
        StartupAction::Run { database, raise_window } => {
            assert_eq!(database.path, "/tmp/v.sealed");
            assert!(raise_window);
        }
        _ => panic!("expected the main screen"),
    }
}

#[test]
fn keyring_failure_goes_to_setup() {
    let (next, _) = StartupState::new().step(StartupEvent::SettingsLoaded(with_db()));
    let (next, action) = next.step(StartupEvent::KeyringFailed(KeyringError::EntryMissing));
    assert_eq!(next.phase, StartupPhase::FirstRun);
    assert!(matches!(
        action,
        StartupAction::ShowSetup { error: Some(StartupError::Keyring(KeyringError::EntryMissing)), raise_window: true }
    ));
}

#[test]
fn vault_failure_goes_to_setup() {
    let mut settings = with_db();
    settings.force_focus = false;
    let (next, _) = StartupState::new().step(StartupEvent::SettingsLoaded(settings));
    let (next, _) = next.step(StartupEvent::PassphraseRead("wrong".to_string()));
    let (next, action) = next.step(StartupEvent::VaultFailed(VaultError::AuthFailed));
    assert_eq!(next.phase, StartupPhase::FirstRun);
    assert!(matches!(
        action,
        StartupAction::ShowSetup { error: Some(StartupError::Vault(VaultError::AuthFailed)), raise_window: false }
    ));
}

#[test]
fn out_of_phase_events_are_ignored() {
    let (next, action) = StartupState::new().step(StartupEvent::VaultFailed(VaultError::Io));
    assert_eq!(next.phase, StartupPhase::Start);
    assert!(matches!(action, StartupAction::Ignore));
}

#[test]
fn keyring_entry_is_path_and_local() {
    let e = Password::entry("/tmp/v.sealed");
    assert_eq!(e.service, "/tmp/v.sealed");
    assert_eq!(e.account, "local");
}
