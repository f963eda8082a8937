use hindsight_explorer::nav::NavigationState;
use hindsight_explorer::view::{View, ViewKind};

fn memories(id: &str) -> View {
    View::Memories(id.to_string())
}

#[test]
fn starts_at_bank_list() {
    let nav = NavigationState::new();
    assert_eq!(*nav.current(), View::Banks);
    assert_eq!(nav.depth(), 0);
}

#[test]
fn switch_to_current_is_a_no_op() {
    let mut nav = NavigationState::new();
    assert!(!nav.switch_to(View::Banks));
    assert_eq!(*nav.current(), View::Banks);
    assert_eq!(nav.depth(), 0);

    assert!(nav.switch_to(memories("a")));
    assert!(!nav.switch_to(memories("a")));
    assert_eq!(*nav.current(), memories("a"));
    assert_eq!(nav.depth(), 1);
}

#[test]
fn go_back_on_empty_history_is_a_no_op() {
    let mut nav = NavigationState::new();
    assert!(!nav.go_back());
    assert_eq!(*nav.current(), View::Banks);
    assert_eq!(nav.depth(), 0);
}

#[test]
fn go_back_undoes_one_switch() {
    let mut nav = NavigationState::new();
    assert!(nav.switch_to(View::Recall("a".to_string())));
    assert_eq!(nav.depth(), 1);
    assert!(nav.go_back());
    assert_eq!(*nav.current(), View::Banks);
    assert_eq!(nav.depth(), 0);
}

#[test]
fn lateral_switches_push_too() {
    let mut nav = NavigationState::new();
    nav.switch_to(memories("a"));
    nav.switch_to(View::Entities("a".to_string()));
    nav.switch_to(memories("b"));
    assert_eq!(nav.depth(), 3);
    assert_eq!(nav.stack, vec![View::Banks, memories("a"), View::Entities("a".to_string())]);
    assert!(nav.go_back());
    assert_eq!(*nav.current(), View::Entities("a".to_string()));
    assert!(nav.go_back());
    assert_eq!(*nav.current(), memories("a"));
    assert!(nav.go_back());
    assert_eq!(*nav.current(), View::Banks);
    assert!(!nav.go_back());
}

#[test]
fn enter_only_from_bank_list() {
    let mut nav = NavigationState::new();
    assert!(nav.enter("a".to_string()));
    assert_eq!(*nav.current(), memories("a"));
    assert_eq!(nav.stack, vec![View::Banks]);
    assert!(!nav.enter("b".to_string()));
    assert_eq!(*nav.current(), memories("a"));
    assert_eq!(nav.depth(), 1);
}

#[test]
fn views_are_equal_by_kind_and_bank() {
    assert_eq!(memories("a"), memories("a"));
    assert_ne!(memories("a"), memories("b"));
    assert_ne!(memories("a"), View::Entities("a".to_string()));
    assert_ne!(View::Banks, memories(""));
    assert_eq!(View::Banks, View::Banks);
    assert_eq!(memories("a").clone(), memories("a"));
}

#[test]
fn titles_and_bank_ids() {
    let id = "bank-1".to_string();
    assert_eq!(View::Banks.title(), "Banks");
    assert_eq!(View::Memories(id.clone()).title(), "Memories");
    assert_eq!(View::Entities(id.clone()).title(), "Entities");
    assert_eq!(View::Documents(id.clone()).title(), "Documents");
    assert_eq!(View::Recall(id.clone()).title(), "Recall");
    assert_eq!(View::Reflect(id.clone()).title(), "Reflect");
    assert_eq!(View::Banks.bank_id(), None);
    assert_eq!(View::Memories(id.clone()).bank_id(), Some("bank-1"));
    assert_eq!(View::Entities(id.clone()).bank_id(), Some("bank-1"));
    assert_eq!(View::Documents(id.clone()).bank_id(), Some("bank-1"));
    assert_eq!(View::Recall(id.clone()).bank_id(), Some("bank-1"));
    assert_eq!(View::Reflect(id.clone()).bank_id(), Some("bank-1"));
    assert_eq!(View::Recall(id.clone()).kind(), ViewKind::Recall);
    assert!(View::Recall(id.clone()).is_query_driven());
    assert!(View::Reflect(id.clone()).is_query_driven());
    assert!(!View::Documents(id).is_query_driven());
    assert!(!View::Banks.is_query_driven());
}
