use lol_account_manager::util::ternary;

#[test]
fn ternary_picks_by_condition() {
    assert_eq!(ternary(true, "Hide", "Show"), "Hide");
    assert_eq!(ternary(false, "Hide", "Show"), "Show");
}
