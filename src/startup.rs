//! The decisions taken at process start: restore the last vault with the
//! passphrase from the credential store, or fall back to the setup screen.
//! The caller performs each requested action and reports its outcome as the
//! next event.

use vstd::prelude::*;
use crate::credentials::KeyringError;
use crate::envelope::VaultError;
use crate::settings::{default_settings, Settings};
use crate::vault::Database;

verus! {

/// Why the settings document could not be loaded.
#[derive(Debug, Clone, Copy, PartialEq, Eq, Structural)]
pub enum ConfigError {
    /// The document could not be read or written.
    Missing,
    /// The document did not parse.
    Malformed,
}

/// A failure that the start shows in a popup before the setup screen.
#[derive(Debug, Clone, Copy, PartialEq, Eq, Structural)]
pub enum StartupError {
    Config(ConfigError),
    Keyring(KeyringError),
    Vault(VaultError),
}

/// Where the start stands.
#[derive(Debug, Clone, Copy, PartialEq, Eq, Structural)]
pub enum StartupPhase {
    /// Waiting for the settings.
    Start,
    /// Waiting for the passphrase of the last vault.
    ReadingPassphrase,
    /// Waiting for the last vault to open.
    OpeningVault,
    /// The setup screen is shown.
    FirstRun,
    /// A vault is open.
    Running,
}

/// What happened since the last step.
pub enum StartupEvent {
    SettingsLoaded(Settings),
    SettingsFailed(ConfigError),
    PassphraseRead(String),
    KeyringFailed(KeyringError),
    VaultOpened(Database),
    VaultFailed(VaultError),
}

/// What the caller is to do next. None of these writes to the vault file.
pub enum StartupAction {
    /// Read the passphrase for the vault at `path` from the credential store.
    ReadPassphrase { path: String },
    /// Open the vault at `path` with `passphrase`, off the interface thread.
    OpenVault { path: String, passphrase: String },
    /// Show the setup screen, with the error in a popup if there is one, and
    /// bring the window to the front if asked.
    ShowSetup { error: Option<StartupError>, raise_window: bool },
    /// Show the open vault, and bring the window to the front if asked.
    Run { database: Database, raise_window: bool },
    /// The event does not belong to this phase: do nothing.
    Ignore,
}

/// The state of the start: its phase and the settings in force.
pub struct StartupState {
    pub phase: StartupPhase,
    pub settings: Settings,
}

/// The event reports that the awaited read of the credential store, or the
/// awaited opening of the vault, failed.
pub open spec fn is_unlock_failure(phase: StartupPhase, e: StartupEvent) -> bool {
    (phase == StartupPhase::ReadingPassphrase && e is KeyringFailed) || (phase
        == StartupPhase::OpeningVault && e is VaultFailed)
}

impl StartupState {
    /// The start, before the settings are loaded.
    pub fn new() -> (r: StartupState)
        ensures
            r.phase == StartupPhase::Start,
            r.settings@ == default_settings(),
    {
        StartupState { phase: StartupPhase::Start, settings: Settings::default() }
    }

    /// The next state, and the action to perform, after `event`.
    pub fn step(self, event: StartupEvent) -> (r: (StartupState, StartupAction))
        ensures
            is_unlock_failure(self.phase, event) ==> r.0.phase == StartupPhase::FirstRun
                && r.1 matches StartupAction::ShowSetup { error: Some(_), .. },
            ({
                let (next, action) = r;
                match (self.phase, event) {
                    (StartupPhase::Start, StartupEvent::SettingsLoaded(s)) => next.settings@
                        == s@ && match s@.last_database {
                        None => next.phase == StartupPhase::FirstRun && action
                            == (StartupAction::ShowSetup { error: None, raise_window: false }),
                        Some(p) => next.phase == StartupPhase::ReadingPassphrase && (
                        action matches StartupAction::ReadPassphrase { path } && path@ == p),
                    },
                    (StartupPhase::Start, StartupEvent::SettingsFailed(e)) => next.phase
                        == StartupPhase::FirstRun && next.settings@ == default_settings() && action
                        == (StartupAction::ShowSetup {
                        error: Some(StartupError::Config(e)),
                        raise_window: false,
                    }),
                    (StartupPhase::ReadingPassphrase, StartupEvent::PassphraseRead(pw)) => {
                        &&& self.settings@.last_database is Some ==> next.phase
                            == StartupPhase::OpeningVault
                        &&& next.settings@ == self.settings@
                        &&& self.settings@.last_database matches Some(p) ==> (
                        action matches StartupAction::OpenVault { path, passphrase } && path@ == p
                            && passphrase@ == pw@)
                        &&& self.settings@.last_database is None ==> (next.phase
                            == StartupPhase::FirstRun && action == (StartupAction::ShowSetup {
                            error: None,
                            raise_window: false,
                        }))
                    },
                    (StartupPhase::ReadingPassphrase, StartupEvent::KeyringFailed(e)) => next.phase
                        == StartupPhase::FirstRun && next.settings@ == self.settings@ && action
                        == (StartupAction::ShowSetup {
                        error: Some(StartupError::Keyring(e)),
                        raise_window: self.settings.force_focus,
                    }),
                    (StartupPhase::OpeningVault, StartupEvent::VaultOpened(db)) => next.phase
                        == StartupPhase::Running && next.settings@ == self.settings@ && (
                    action matches StartupAction::Run { database, raise_window } && database@
                        == db@ && raise_window == self.settings.force_focus),
                    (StartupPhase::OpeningVault, StartupEvent::VaultFailed(e)) => next.phase
                        == StartupPhase::FirstRun && next.settings@ == self.settings@ && action
                        == (StartupAction::ShowSetup {
                        error: Some(StartupError::Vault(e)),
                        raise_window: self.settings.force_focus,
                    }),
                    _ => next.phase == self.phase && next.settings@ == self.settings@ && action
                        is Ignore,
                }
            }),
    {
        let force = self.settings.force_focus;
        match (self.phase, event) {
            (StartupPhase::Start, StartupEvent::SettingsLoaded(s)) => {
                match &s.last_database {
                    None => (
                        StartupState { phase: StartupPhase::FirstRun, settings: s },
                        StartupAction::ShowSetup { error: None, raise_window: false },
                    ),
                    Some(p) => {
                        let path = p.clone();
                        (
                            StartupState { phase: StartupPhase::ReadingPassphrase, settings: s },
                            StartupAction::ReadPassphrase { path },
                        )
                    },
                }
            },
            (StartupPhase::Start, StartupEvent::SettingsFailed(e)) => (
                StartupState { phase: StartupPhase::FirstRun, settings: Settings::default() },
                StartupAction::ShowSetup { error: Some(StartupError::Config(e)), raise_window: false },
            ),
            (StartupPhase::ReadingPassphrase, StartupEvent::PassphraseRead(pw)) => {
                match &self.settings.last_database {
                    Some(p) => {
                        let action = StartupAction::OpenVault { path: p.clone(), passphrase: pw };
                        (
                            StartupState { phase: StartupPhase::OpeningVault, settings: self.settings },
                            action,
                        )
                    },
                    None => (
                        StartupState { phase: StartupPhase::FirstRun, settings: self.settings },
                        StartupAction::ShowSetup { error: None, raise_window: false },
                    ),
                }
            },
            (StartupPhase::ReadingPassphrase, StartupEvent::KeyringFailed(e)) => (
                StartupState { phase: StartupPhase::FirstRun, settings: self.settings },
                StartupAction::ShowSetup { error: Some(StartupError::Keyring(e)), raise_window: force },
            ),
            (StartupPhase::OpeningVault, StartupEvent::VaultOpened(db)) => (
                StartupState { phase: StartupPhase::Running, settings: self.settings },
                StartupAction::Run { database: db, raise_window: force },
            ),
            (StartupPhase::OpeningVault, StartupEvent::VaultFailed(e)) => (
                StartupState { phase: StartupPhase::FirstRun, settings: self.settings },
                StartupAction::ShowSetup { error: Some(StartupError::Vault(e)), raise_window: force },
            ),
            (phase, _) => (StartupState { phase, settings: self.settings }, StartupAction::Ignore),
        }
    }
}

} // verus!
