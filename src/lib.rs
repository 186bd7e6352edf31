//! Credential store core: account records, the notes line codec, settings
//! documents, the sealed vault, the account editor, the setup screen's checks
//! and the startup resolver.

pub mod account;
pub mod credentials;
pub mod editor;
pub mod envelope;
pub mod notes;
pub mod search;
pub mod settings;
pub mod settings_screen;
pub mod setup;
pub mod startup;
pub mod vault;
pub mod util;
