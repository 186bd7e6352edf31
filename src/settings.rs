//! Preferences kept in a small unencrypted document. Every field has a
//! default that applies when the document lacks it, so documents written by
//! older versions still load.

use vstd::prelude::*;

verus! {

#[derive(Debug, Clone, Copy, PartialEq, Eq, Structural)]
pub enum Theme {
    Light,
    Dark,
}

impl Default for Theme {
    fn default() -> (r: Theme)
        ensures
            r == Theme::Light,
    {
        Theme::Light
    }
}

/// Settings as values.
pub struct SettingsView {
    pub close_on_login: bool,
    pub force_focus: bool,
    pub theme: Theme,
    pub last_database: Option<Seq<char>>,
}

/// A settings document as read: each field may be missing.
pub struct SettingsDocView {
    pub close_on_login: Option<bool>,
    pub force_focus: Option<bool>,
    pub theme: Option<Theme>,
    pub last_database: Option<Seq<char>>,
}

/// The settings of a first run.
pub open spec fn default_settings() -> SettingsView {
    SettingsView { close_on_login: true, force_focus: true, theme: Theme::Light, last_database: None }
}

/// Each field of the document, or its default where the document lacks it.
pub open spec fn settings_of(d: SettingsDocView) -> SettingsView {
    SettingsView {
        close_on_login: match d.close_on_login {
            Some(b) => b,
            None => default_settings().close_on_login,
        },
        force_focus: match d.force_focus {
            Some(b) => b,
            None => default_settings().force_focus,
        },
        theme: match d.theme {
            Some(t) => t,
            None => default_settings().theme,
        },
        last_database: d.last_database,
    }
}

/// The document that saving `s` writes: every field present.
pub open spec fn doc_of(s: SettingsView) -> SettingsDocView {
    SettingsDocView {
        close_on_login: Some(s.close_on_login),
        force_focus: Some(s.force_focus),
        theme: Some(s.theme),
        last_database: s.last_database,
    }
}

pub open spec fn opt_view(o: Option<String>) -> Option<Seq<char>> {
    match o {
        Some(s) => Some(s@),
        None => None,
    }
}

fn opt_clone(o: &Option<String>) -> (r: Option<String>)
    ensures
        opt_view(r) == opt_view(*o),
{
    match o {
        Some(s) => Some(s.clone()),
        None => None,
    }
}

#[derive(Debug, Clone, PartialEq)]
pub struct Settings {
    pub close_on_login: bool,
    pub force_focus: bool,
    pub theme: Theme,
    pub last_database: Option<String>,
}

impl View for Settings {
    type V = SettingsView;

    open spec fn view(&self) -> SettingsView {
        SettingsView {
            close_on_login: self.close_on_login,
            force_focus: self.force_focus,
            theme: self.theme,
            last_database: opt_view(self.last_database),
        }
    }
}

/// The fields of a settings document, each present or missing.
#[derive(Debug, Clone, PartialEq)]
pub struct SettingsDoc {
    pub close_on_login: Option<bool>,
    pub force_focus: Option<bool>,
    pub theme: Option<Theme>,
    pub last_database: Option<String>,
}

impl View for SettingsDoc {
    type V = SettingsDocView;

    open spec fn view(&self) -> SettingsDocView {
        SettingsDocView {
            close_on_login: self.close_on_login,
            force_focus: self.force_focus,
            theme: self.theme,
            last_database: opt_view(self.last_database),
        }
    }
}

impl Default for Settings {
    fn default() -> (r: Settings)
        ensures
            r@ == default_settings(),
    {
        Settings { close_on_login: true, force_focus: true, theme: Theme::Light, last_database: None }
    }
}

impl Settings {
    /// The settings that a document describes, with defaults for what it lacks.
    pub fn from_doc(doc: &SettingsDoc) -> (r: Settings)
        ensures
            r@ == settings_of(doc@),
    {
        let d = Settings::default();
        Settings {
            close_on_login: match doc.close_on_login {
                Some(b) => b,
                None => d.close_on_login,
            },
            force_focus: match doc.force_focus {
                Some(b) => b,
                None => d.force_focus,
            },
            theme: match doc.theme {
                Some(t) => t,
                None => d.theme,
            },
            last_database: opt_clone(&doc.last_database),
        }
    }

    /// The document to write for these settings.
    pub fn to_doc(&self) -> (r: SettingsDoc)
        ensures
            r@ == doc_of(self@),
    {
        SettingsDoc {
            close_on_login: Some(self.close_on_login),
            force_focus: Some(self.force_focus),
            theme: Some(self.theme),
            last_database: opt_clone(&self.last_database),
        }
    }

    /// These settings with `path` as the vault to open at startup.
    pub fn with_database(&self, path: &str) -> (r: Settings)
        ensures
            r@ == (SettingsView { last_database: Some(path@), ..self@ }),
    {
        Settings {
            close_on_login: self.close_on_login,
            force_focus: self.force_focus,
            theme: self.theme,
            last_database: Some(path.to_string()),
        }
    }
}

/// Loading the document that saving `s` writes gives `s` back.
pub proof fn lemma_load_after_save(s: SettingsView)
    ensures
        settings_of(doc_of(s)) == s,
{
}

/// Saving what a document loads to, then loading the saved document again,
/// gives what the document loaded to.
pub proof fn lemma_save_after_load(d: SettingsDocView)
    ensures
        settings_of(doc_of(settings_of(d))) == settings_of(d),
{
}

/// A document that lacks some fields still loads: each missing field takes
/// its default and each present one keeps its value.
pub proof fn lemma_missing_fields_default(d: SettingsDocView)
    ensures
        d.close_on_login is None ==> settings_of(d).close_on_login == default_settings().close_on_login,
        d.force_focus is None ==> settings_of(d).force_focus == default_settings().force_focus,
        d.theme is None ==> settings_of(d).theme == default_settings().theme,
        d.last_database is None ==> settings_of(d).last_database == default_settings().last_database,
        d.close_on_login matches Some(b) ==> settings_of(d).close_on_login == b,
        d.force_focus matches Some(b) ==> settings_of(d).force_focus == b,
        d.theme matches Some(t) ==> settings_of(d).theme == t,
        settings_of(d).last_database == d.last_database,
{
}

} // verus!
