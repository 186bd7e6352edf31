use lol_account_manager::account::Account;
use lol_account_manager::vault::Database;

fn acc(name: &str) -> Account {
    Account::new(name.to_string(), "u".to_string(), "p".to_string(), String::new())
}

fn names(db: &Database) -> Vec<String> {
    db.accounts.iter().map(|a| a.name.clone()).collect()
}

fn abc() -> Database {
    Database::from_accounts(vec![acc("A"), acc("B"), acc("C")], "/tmp/v.sealed", "hunter2")
}

#[test]
fn new_database_is_empty() {
    let db = Database::new("/tmp/v.sealed", "hunter2");
    assert_eq!(db.len(), 0);
    assert_eq!(db.path, "/tmp/v.sealed");
    assert_eq!(db.password, "hunter2");
}

#[test]
fn reorder_then_delete() {
    let mut db = abc();
    db.move_by(0, 1);
    assert_eq!(names(&db), vec!["B", "A", "C"]);
    db.remove_at(2);
    assert_eq!(names(&db), vec!["B", "A"]);
    assert_eq!(db.password, "hunter2");
}

#[test]
fn move_by_saturates_at_both_ends() {
    let mut db = abc();
    db.move_by(1, -5);
    assert_eq!(names(&db), vec!["B", "A", "C"]);
    let mut db = abc();
    db.move_by(1, 100);
    assert_eq!(names(&db), vec!["A", "C", "B"]);
    let mut db = abc();
    db.move_by(2, i32::MAX);
    assert_eq!(names(&db), vec!["A", "B", "C"]);
    let mut db = abc();
    db.move_by(2, i32::MIN);
    assert_eq!(names(&db), vec!["C", "B", "A"]);
}

#[test]
fn move_by_zero_is_no_op() {
    let mut db = abc();
    db.move_by(1, 0);
    assert_eq!(names(&db), vec!["A", "B", "C"]);
}

#[test]
fn move_by_keeps_length_and_places_element() {
    for index in 0..3usize {
        for k in -4i32..5 {
            let mut db = abc();
            let moved = db.accounts[index].name.clone();
            db.move_by(index, k);
            let target = (index as i64 + k as i64).clamp(0, 2) as usize;
            assert_eq!(db.len(), 3);
            assert_eq!(db.accounts[target].name, moved);
        }
    }
}

#[test]
fn swap_append_replace() {
    let mut db = abc();
    db.swap(0, 2);
    assert_eq!(names(&db), vec!["C", "B", "A"]);
    db.append(acc("D"));
    assert_eq!(names(&db), vec!["C", "B", "A", "D"]);
    db.replace_at(1, acc("X"));
    assert_eq!(names(&db), vec!["C", "X", "A", "D"]);
    db.swap(3, 3);
    assert_eq!(names(&db), vec!["C", "X", "A", "D"]);
}

#[test]
fn duplicate_names_are_kept() {
    let mut db = Database::new("/tmp/v.sealed", "pw");
    db.append(acc("same"));
    db.append(acc("same"));
    assert_eq!(names(&db), vec!["same", "same"]);
    assert!(db.same_as(&db.duplicate()));
}

#[test]
fn account_validity_and_equality() {
    assert!(acc("a").is_valid());
    assert!(!Account::default().is_valid());
    assert!(!Account::default().any_filled());
    let notes_only = Account::new(String::new(), String::new(), String::new(), "n".to_string());
    assert!(notes_only.any_filled());
    assert!(!notes_only.is_valid());
    assert!(acc("a") == acc("a"));
    assert!(acc("a") != acc("b"));
    assert!(acc("a").same_as(&acc("a").duplicate()));
}
