use lol_account_manager::envelope::{open_envelope, rejection, resolve_unsealed, seal_envelope, Unsealed, VaultError};
use lol_account_manager::vault::Database;

#[test]
fn sealed_payload_opens_with_its_passphrase() {
    let payload = b"- name: a\n  username: u\n  password: p\n  notes:\n  - l1\n  - l2\n".to_vec();
    let sealed = seal_envelope(&payload, "hunter2").unwrap();
    assert_ne!(sealed, payload);
    assert_eq!(open_envelope(&sealed, "hunter2"), Ok(payload));
}

#[test]
fn wrong_passphrase_is_auth_failure() {
    let db = Database::new("/tmp/v.sealed", "hunter2");
    let sealed = db.seal(b"[]\n").unwrap();
    let before = sealed.clone();
    assert_eq!(open_envelope(&sealed, "wrong"), Err(VaultError::AuthFailed));
    assert_eq!(sealed, before);
}

#[test]
fn not_an_envelope_is_unsupported() {
    assert_eq!(open_envelope(b"plain text, not sealed", "pw"), Err(VaultError::FormatUnsupported));
}

#[test]
fn empty_payload_round_trips() {
    let sealed = seal_envelope(b"", "pw").unwrap();
    assert_eq!(open_envelope(&sealed, "pw"), Ok(Vec::new()));
}

#[test]
fn age_outcomes_map_to_error_kinds() {
    assert_eq!(resolve_unsealed(Unsealed::Opened(vec![1, 2])), Ok(vec![1, 2]));
    assert_eq!(resolve_unsealed(Unsealed::NotPassphrase), Err(VaultError::FormatUnsupported));
    assert_eq!(resolve_unsealed(Unsealed::Unreadable), Err(VaultError::AuthFailed));
    assert_eq!(
        resolve_unsealed(Unsealed::Rejected(age::DecryptError::DecryptionFailed)),
        Err(VaultError::AuthFailed)
    );
    assert_eq!(rejection(&age::DecryptError::InvalidHeader), VaultError::FormatUnsupported);
    assert_eq!(rejection(&age::DecryptError::UnknownFormat), VaultError::FormatUnsupported);
    assert_eq!(rejection(&age::DecryptError::NoMatchingKeys), VaultError::AuthFailed);
    let io = std::io::Error::new(std::io::ErrorKind::Other, "disk");
    assert_eq!(rejection(&age::DecryptError::Io(io)), VaultError::Io);
}

#[test]
fn edit_save_and_reopen() {
    let mut db = Database::new("/tmp/v.sealed", "hunter2");
    db.append(lol_account_manager::account::Account::new(
        "a".to_string(),
        "u".to_string(),
        "p".to_string(),
        "l1\nl2".to_string(),
    ));
    let lines = lol_account_manager::notes::serialize(&db.accounts[0].notes);
    assert_eq!(lines, vec!["l1".to_string(), "l2".to_string()]);
    let payload = lines.join("\n").into_bytes();
    let sealed = db.seal(&payload).unwrap();
    let opened = open_envelope(&sealed, "hunter2").unwrap();
    let reread: Vec<String> = String::from_utf8(opened).unwrap().split('\n').map(|s| s.to_string()).collect();
    assert_eq!(lol_account_manager::notes::deserialize(&reread), "l1\nl2\n");
}

#[test]
fn excessive_work_has_its_own_kind() {
    let e = age::DecryptError::ExcessiveWork { required: 30, target: 18 };
    assert_eq!(rejection(&e), VaultError::ExcessiveWork);
    assert_eq!(resolve_unsealed(Unsealed::Rejected(e)), Err(VaultError::ExcessiveWork));
}
