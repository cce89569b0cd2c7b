use dcrm::{Modal, View};

#[test]
fn ui_state_defaults() {
    assert_eq!(View::default(), View::Dashboard);
    assert_eq!(Modal::default(), Modal::Closed);
    assert_ne!(Modal::EditContact("a".to_string()), Modal::EditContact("b".to_string()));
}
