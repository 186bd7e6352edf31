use lol_account_manager::settings::{Settings, SettingsDoc, Theme};

fn empty_doc() -> SettingsDoc {
    SettingsDoc { close_on_login: None, force_focus: None, theme: None, last_database: None }
}

#[test]
fn defaults_match_first_run() {
    let s = Settings::default();
    assert!(s.close_on_login);
    assert!(s.force_focus);
    assert_eq!(s.theme, Theme::Light);
    assert_eq!(s.last_database, None);
    assert_eq!(Theme::default(), Theme::Light);
}

#[test]
fn empty_document_loads_defaults() {
    assert_eq!(Settings::from_doc(&empty_doc()), Settings::default());
}

#[test]
fn missing_fields_take_defaults() {
    let doc = SettingsDoc { theme: Some(Theme::Dark), ..empty_doc() };
    let s = Settings::from_doc(&doc);
    assert!(s.close_on_login);
    assert!(s.force_focus);
    assert_eq!(s.theme, Theme::Dark);
    let doc = SettingsDoc { close_on_login: Some(false), last_database: Some("/tmp/v.sealed".to_string()), ..empty_doc() };
    let s = Settings::from_doc(&doc);
    assert!(!s.close_on_login);
    assert!(s.force_focus);
    assert_eq!(s.theme, Theme::Light);
    assert_eq!(s.last_database.as_deref(), Some("/tmp/v.sealed"));
}

#[test]
fn settings_round_trip() {
    let s = Settings { close_on_login: false, force_focus: true, theme: Theme::Dark, last_database: Some("/x".to_string()) };
    let doc = s.to_doc();
    assert_eq!(doc.close_on_login, Some(false));
    assert_eq!(doc.theme, Some(Theme::Dark));
    assert_eq!(Settings::from_doc(&doc), s);
    let partial = SettingsDoc { force_focus: Some(false), ..empty_doc() };
    let loaded = Settings::from_doc(&partial);
    assert_eq!(Settings::from_doc(&loaded.to_doc()), loaded);
}

#[test]
fn with_database_sets_only_the_path() {
    let s = Settings { close_on_login: false, force_focus: false, theme: Theme::Dark, last_database: None };
    let t = s.with_database("/tmp/v.sealed");
    assert_eq!(t.last_database.as_deref(), Some("/tmp/v.sealed"));
    assert!(!t.close_on_login);
    assert!(!t.force_focus);
    assert_eq!(t.theme, Theme::Dark);
}
