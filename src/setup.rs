//! The first-run screen: create a vault, open one, or import a plaintext
//! list. The fields are checked before anything touches the disk.

use vstd::prelude::*;
use crate::settings::{Settings, SettingsView};
use crate::vault::Database;

verus! {

/// Why the setup screen cannot go on yet.
#[derive(Debug, Clone, Copy, PartialEq, Eq, Structural)]
pub enum VerificationError {
    EmptyPath,
    EmptyPassword,
    MismatchedPasswords,
}

impl VerificationError {
    /// The message shown under the form.
    pub fn message(&self) -> (r: &'static str)
        ensures
            r@ == match *self {
                VerificationError::EmptyPath => "Paths can't be empty!"@,
                VerificationError::EmptyPassword => "Passwords can't be empty!"@,
                VerificationError::MismatchedPasswords => "The passwords don't match!"@,
            },
    {
        match self {
            VerificationError::EmptyPath => "Paths can't be empty!",
            VerificationError::EmptyPassword => "Passwords can't be empty!",
            VerificationError::MismatchedPasswords => "The passwords don't match!",
        }
    }
}

#[derive(Debug, Clone, Default)]
pub struct CreateState {
    pub path: String,
    pub password1: String,
    pub password2: String,
}

#[derive(Debug, Clone, Default)]
pub struct OpenState {
    pub path: String,
    pub password: String,
}

#[derive(Debug, Clone, Default)]
pub struct ImportState {
    pub input_path: String,
    pub output_path: String,
    pub password1: String,
    pub password2: String,
}

/// The form of the chosen action.
#[derive(Debug, Clone)]
pub enum ActionState {
    Create(CreateState),
    Open(OpenState),
    Import(ImportState),
}

/// What the setup screen asks to be done once its fields pass the checks.
#[derive(Debug, Clone)]
pub enum SetupAction {
    /// Create an empty vault at `path`.
    Create { path: String, password: String },
    /// Open the vault at `path`.
    Open { path: String, password: String },
    /// Read the plaintext list at `input`, and seal it at `output`.
    Import { input: String, output: String, password: String },
}

/// The first check that fails, in the order path(s), password, repetition.
pub open spec fn check_of(state: ActionState) -> Result<(), VerificationError> {
    match state {
        ActionState::Create(s) => if s.path@.len() == 0 {
            Err(VerificationError::EmptyPath)
        } else if s.password1@.len() == 0 {
            Err(VerificationError::EmptyPassword)
        } else if s.password1@ != s.password2@ {
            Err(VerificationError::MismatchedPasswords)
        } else {
            Ok(())
        },
        ActionState::Open(s) => if s.path@.len() == 0 {
            Err(VerificationError::EmptyPath)
        } else if s.password@.len() == 0 {
            Err(VerificationError::EmptyPassword)
        } else {
            Ok(())
        },
        ActionState::Import(s) => if s.input_path@.len() == 0 || s.output_path@.len() == 0 {
            Err(VerificationError::EmptyPath)
        } else if s.password1@.len() == 0 {
            Err(VerificationError::EmptyPassword)
        } else if s.password1@ != s.password2@ {
            Err(VerificationError::MismatchedPasswords)
        } else {
            Ok(())
        },
    }
}

/// A path must not be empty.
pub fn check_path(path: &str) -> (r: Result<(), VerificationError>)
    ensures
        r == (if path@.len() == 0 { Err(VerificationError::EmptyPath) } else { Ok(()) }),
{
    if path.is_empty() {
        return Err(VerificationError::EmptyPath);
    }
    Ok(())
}

/// A password must not be empty.
pub fn check_password(password: &str) -> (r: Result<(), VerificationError>)
    ensures
        r == (if password@.len() == 0 { Err(VerificationError::EmptyPassword) } else { Ok(()) }),
{
    if password.is_empty() {
        return Err(VerificationError::EmptyPassword);
    }
    Ok(())
}

/// The password and its repetition must match.
pub fn check_passwords(password1: &String, password2: &String) -> (r: Result<(), VerificationError>)
    ensures
        r == (if password1@ != password2@ {
            Err(VerificationError::MismatchedPasswords)
        } else {
            Ok(())
        }),
{
    if *password1 != *password2 {
        return Err(VerificationError::MismatchedPasswords);
    }
    Ok(())
}

impl ActionState {
    /// Checks the form: `Ok` exactly when every field is acceptable, else the
    /// first problem found.
    pub fn check(&self) -> (r: Result<(), VerificationError>)
        ensures
            r == check_of(*self),
    {
        match self {
            ActionState::Create(state) => {
                check_path(state.path.as_str())?;
                check_password(state.password1.as_str())?;
                check_passwords(&state.password1, &state.password2)?;
                Ok(())
            },
            ActionState::Open(state) => {
                check_path(state.path.as_str())?;
                check_password(state.password.as_str())?;
                Ok(())
            },
            ActionState::Import(state) => {
                check_path(state.input_path.as_str())?;
                check_path(state.output_path.as_str())?;
                check_password(state.password1.as_str())?;
                check_passwords(&state.password1, &state.password2)?;
                Ok(())
            },
        }
    }
}

/// The setup screen: the settings in force and the chosen action's form.
#[derive(Debug, Clone)]
pub struct SetupState {
    pub settings: Settings,
    pub state: ActionState,
}

impl SetupState {
    /// The setup screen, with the empty form for creating a vault.
    pub fn new(settings: Settings) -> (r: SetupState)
        ensures
            r.settings@ == settings@,
            r.state matches ActionState::Create(s) && s.path@.len() == 0 && s.password1@.len() == 0
                && s.password2@.len() == 0,
    {
        let create = CreateState {
            path: String::new(),
            password1: String::new(),
            password2: String::new(),
        };
        SetupState { settings, state: ActionState::Create(create) }
    }

    /// The action to perform, once the form passes its checks.
    pub fn action(&self) -> (r: Result<SetupAction, VerificationError>)
        ensures
            check_of(self.state) matches Err(e) ==> r == Err::<SetupAction, _>(e),
            check_of(self.state) is Ok ==> r is Ok,
            r matches Ok(a) ==> match (a, self.state) {
                (SetupAction::Create { path, password }, ActionState::Create(s)) => path@
                    == s.path@ && password@ == s.password1@,
                (SetupAction::Open { path, password }, ActionState::Open(s)) => path@ == s.path@
                    && password@ == s.password@,
                (SetupAction::Import { input, output, password }, ActionState::Import(s)) => input@
                    == s.input_path@ && output@ == s.output_path@ && password@ == s.password1@,
                _ => false,
            },
    {
        self.state.check()?;
        match &self.state {
            ActionState::Create(s) => Ok(
                SetupAction::Create { path: s.path.clone(), password: s.password1.clone() },
            ),
            ActionState::Open(s) => Ok(
                SetupAction::Open { path: s.path.clone(), password: s.password.clone() },
            ),
            ActionState::Import(s) => Ok(
                SetupAction::Import {
                    input: s.input_path.clone(),
                    output: s.output_path.clone(),
                    password: s.password1.clone(),
                },
            ),
        }
    }

    /// The settings to persist once the action gave `database`: it becomes the
    /// vault that opens at the next start.
    pub fn finish(&self, database: &Database) -> (r: Settings)
        ensures
            r@ == (SettingsView { last_database: Some(database@.path), ..self.settings@ }),
    {
        self.settings.with_database(database.path.as_str())
    }
}

} // verus!
