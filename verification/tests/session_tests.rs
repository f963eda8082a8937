use hindsight_explorer::data::{
    Bank, Budget, Document, Entity, FetchRequest, FetchResponse, MemoryRecord, RecallResult,
};
use hindsight_explorer::input::{Command, InputMode, Key, KeyPress};
use hindsight_explorer::session::{Action, Session};
use hindsight_explorer::view::{View, ViewKind};

fn key(k: Key) -> KeyPress {
    KeyPress { key: k, ctrl: false }
}

fn ch(c: char) -> KeyPress {
    key(Key::Char(c))
}

fn bank(id: &str) -> Bank {
    Bank { id: id.to_string(), name: String::new() }
}

fn hit(text: &str) -> RecallResult {
    RecallResult {
        text: text.to_string(),
        kind: None,
        context: None,
        occurred_start: None,
        occurred_end: None,
        document_id: None,
    }
}

fn document(id: &str) -> Document {
    Document { id: Some(id.to_string()), content_type: None }
}

fn memory(text: &str) -> MemoryRecord {
    MemoryRecord { kind: None, created_at: None, text: Some(text.to_string()) }
}

fn with_banks(ids: &[&str]) -> Session {
    let mut s = Session::new(0);
    s.complete(FetchResponse::Banks(ids.iter().map(|id| bank(id)).collect()));
    s
}

fn in_recall(id: &str) -> Session {
    let mut s = with_banks(&[id]);
    let a = s.handle_key(ch('r'), 0);
    assert!(matches!(a, Action::Continue));
    assert_eq!(s.nav.current, View::Recall(id.to_string()));
    s
}

#[test]
fn fresh_session_state() {
    let s = Session::new(42);
    assert_eq!(s.nav.current, View::Banks);
    assert_eq!(s.nav.depth(), 0);
    assert_eq!(s.mode, InputMode::Normal);
    assert!(s.refresh.enabled);
    assert_eq!(s.refresh.last_refresh, 42);
    assert_eq!(s.store.status, "Press ? for help");
    assert_eq!(s.store.error, "");
    assert!(!s.store.loading);
    assert!(!s.show_help);
    assert_eq!(s.cursors.banks.current(), None);
    assert_eq!(s.cursors.recall.current(), None);
    assert!(s.store.banks.is_empty());
}

#[test]
fn initial_refresh_asks_for_banks() {
    let mut s = Session::new(0);
    let r = s.refresh(5);
    assert!(matches!(r, Some(FetchRequest::ListBanks)));
    assert!(s.store.loading);
    assert_eq!(s.refresh.last_refresh, 5);
}

#[test]
fn scenario_bank_list_selection_wraps() {
    let mut s = Session::new(0);
    s.complete(FetchResponse::Banks(vec![bank("a"), bank("b")]));
    assert_eq!(s.cursors.banks.current(), Some(0));
    assert_eq!(s.store.status, "Loaded 2 banks");
    assert!(!s.store.loading);
    assert!(matches!(s.handle_key(key(Key::Down), 1), Action::Continue));
    assert_eq!(s.cursors.banks.current(), Some(1));
    assert!(matches!(s.handle_key(ch('j'), 2), Action::Continue));
    assert_eq!(s.cursors.banks.current(), Some(0));
    assert!(matches!(s.handle_key(key(Key::Up), 3), Action::Continue));
    assert_eq!(s.cursors.banks.current(), Some(1));
    assert!(matches!(s.handle_key(ch('k'), 3), Action::Continue));
    assert_eq!(s.cursors.banks.current(), Some(0));
}

#[test]
fn scenario_drill_down_into_bank() {
    let mut s = with_banks(&["a", "b"]);
    let a = s.handle_key(key(Key::Enter), 7);
    assert_eq!(s.nav.current, View::Memories("a".to_string()));
    assert_eq!(s.nav.stack, vec![View::Banks]);
    match a {
        Action::Fetch(FetchRequest::ListMemories { bank_id, page_size, offset }) => {
            assert_eq!(bank_id, "a");
            assert_eq!(page_size, 100);
            assert_eq!(offset, 0);
        }
        other => panic!("unexpected action {:?}", other),
    }
    assert!(s.store.loading);
    assert_eq!(s.refresh.last_refresh, 7);
}

#[test]
fn scenario_recall_query() {
    let mut s = in_recall("a");
    assert!(matches!(s.handle_key(ch('/'), 1), Action::Continue));
    assert_eq!(s.mode, InputMode::Query);
    for c in "hello".chars() {
        assert!(matches!(s.handle_key(ch(c), 1), Action::Continue));
    }
    assert_eq!(s.recall_query, "hello");
    let a = s.handle_key(key(Key::Enter), 2);
    match a {
        Action::Fetch(FetchRequest::Recall { bank_id, query, budget, max_tokens, trace }) => {
            assert_eq!(bank_id, "a");
            assert_eq!(query, "hello");
            assert_eq!(budget, Budget::Mid);
            assert_eq!(max_tokens, 4096);
            assert!(!trace);
        }
        other => panic!("unexpected action {:?}", other),
    }
    assert!(s.store.loading);
    assert_eq!(s.mode, InputMode::Query);
    s.complete(FetchResponse::Recall(vec![hit("one"), hit("two"), hit("three")]));
    assert_eq!(s.mode, InputMode::Normal);
    assert_eq!(s.store.recall_results.len(), 3);
    assert_eq!(s.cursors.recall.current(), Some(0));
    assert_eq!(s.store.status, "Found 3 results");
    assert!(!s.store.loading);
    assert_eq!(s.recall_query, "hello");
}

#[test]
fn scenario_failed_reload_keeps_documents() {
    let mut s = with_banks(&["a"]);
    let a = s.handle_key(ch('d'), 1);
    assert!(matches!(a, Action::Fetch(FetchRequest::ListDocuments { .. })));
    assert_eq!(s.nav.current, View::Documents("a".to_string()));
    s.complete(FetchResponse::Documents(vec![
        document("1"),
        document("2"),
        document("3"),
        document("4"),
        document("5"),
    ]));
    assert_eq!(s.store.status, "Loaded 5 documents");
    assert_eq!(s.cursors.documents.current(), Some(0));
    s.handle_key(key(Key::Down), 2);
    s.handle_key(key(Key::Down), 2);
    let a = s.handle_key(ch('R'), 3);
    match a {
        Action::Fetch(FetchRequest::ListDocuments { bank_id, page_size, offset }) => {
            assert_eq!(bank_id, "a");
            assert_eq!(page_size, 100);
            assert_eq!(offset, 0);
        }
        other => panic!("unexpected action {:?}", other),
    }
    assert!(s.store.loading);
    assert_eq!(s.store.error, "");
    s.complete(FetchResponse::Failed("network unreachable".to_string()));
    assert_eq!(s.store.error, "Error: network unreachable");
    assert!(!s.store.loading);
    assert_eq!(s.store.documents.len(), 5);
    assert_eq!(s.cursors.documents.current(), Some(2));
    assert_eq!(s.store.status, "Loaded 5 documents");
    assert_eq!(s.nav.current, View::Documents("a".to_string()));
}

#[test]
fn slash_is_ignored_outside_query_screens() {
    let mut s = with_banks(&["a"]);
    assert!(matches!(s.handle_key(ch('/'), 1), Action::Continue));
    assert_eq!(s.mode, InputMode::Normal);
    s.handle_key(ch('m'), 1);
    assert_eq!(s.nav.current, View::Memories("a".to_string()));
    s.handle_key(ch('/'), 1);
    assert_eq!(s.mode, InputMode::Normal);
    s.handle_key(ch('e'), 1);
    s.handle_key(ch('/'), 1);
    assert_eq!(s.mode, InputMode::Normal);
    s.handle_key(ch('t'), 1);
    assert_eq!(s.nav.current, View::Reflect("a".to_string()));
    s.handle_key(ch('/'), 1);
    assert_eq!(s.mode, InputMode::Query);
}

#[test]
fn empty_recall_query_is_refused_without_fetch() {
    let mut s = in_recall("a");
    s.handle_key(ch('/'), 1);
    let a = s.handle_key(key(Key::Enter), 2);
    assert!(matches!(a, Action::Continue));
    assert_eq!(s.store.error, "Query cannot be empty");
    assert_eq!(s.mode, InputMode::Query);
    assert!(!s.store.loading);
    assert!(s.execute_recall().is_none());
}

#[test]
fn empty_reflect_query_is_refused_without_fetch() {
    let mut s = with_banks(&["a"]);
    s.handle_key(ch('t'), 0);
    s.handle_key(ch('/'), 1);
    let a = s.handle_key(key(Key::Enter), 2);
    assert!(matches!(a, Action::Continue));
    assert_eq!(s.store.error, "Query cannot be empty");
    assert_eq!(s.mode, InputMode::Query);
}

#[test]
fn reflect_query_round_trip() {
    let mut s = with_banks(&["a"]);
    assert!(matches!(s.handle_key(ch('t'), 0), Action::Continue));
    s.handle_key(ch('/'), 1);
    for c in "why?".chars() {
        s.handle_key(ch(c), 1);
    }
    assert_eq!(s.reflect_query, "why?");
    assert_eq!(s.recall_query, "");
    let a = s.handle_key(key(Key::Enter), 2);
    match a {
        Action::Fetch(FetchRequest::Reflect { bank_id, query, budget }) => {
            assert_eq!(bank_id, "a");
            assert_eq!(query, "why?");
            assert_eq!(budget, Budget::Mid);
        }
        other => panic!("unexpected action {:?}", other),
    }
    s.complete(FetchResponse::Reflect("because".to_string()));
    assert_eq!(s.store.reflect_text, "because");
    assert_eq!(s.store.status, "Reflection complete");
    assert_eq!(s.mode, InputMode::Normal);
    assert!(!s.store.loading);
}

#[test]
fn failed_query_stays_in_query_mode() {
    let mut s = in_recall("a");
    s.complete(FetchResponse::Recall(vec![hit("old")]));
    s.handle_key(ch('/'), 1);
    s.handle_key(ch('x'), 1);
    let a = s.handle_key(key(Key::Enter), 2);
    assert!(matches!(a, Action::Fetch(FetchRequest::Recall { .. })));
    s.complete(FetchResponse::Failed("timeout".to_string()));
    assert_eq!(s.mode, InputMode::Query);
    assert_eq!(s.store.error, "Error: timeout");
    assert_eq!(s.store.recall_results.len(), 1);
    assert!(!s.store.loading);
}

#[test]
fn query_editing_keys() {
    let mut s = in_recall("a");
    s.handle_key(ch('/'), 1);
    s.handle_key(ch('a'), 1);
    s.handle_key(ch('q'), 1);
    s.handle_key(ch('é'), 1);
    assert_eq!(s.recall_query, "aqé");
    s.handle_key(key(Key::Backspace), 1);
    assert_eq!(s.recall_query, "aq");
    s.handle_key(key(Key::Backspace), 1);
    s.handle_key(key(Key::Backspace), 1);
    assert_eq!(s.recall_query, "");
    s.handle_key(key(Key::Backspace), 1);
    assert_eq!(s.recall_query, "");
    s.handle_key(ch('z'), 1);
    assert!(matches!(s.handle_key(key(Key::Esc), 1), Action::Continue));
    assert_eq!(s.mode, InputMode::Normal);
    assert_eq!(s.recall_query, "z");
    assert_eq!(s.nav.current, View::Recall("a".to_string()));
}

#[test]
fn navigation_keys_are_ignored_in_query_mode() {
    let mut s = in_recall("a");
    s.complete(FetchResponse::Recall(vec![hit("one"), hit("two")]));
    s.handle_key(ch('/'), 1);
    let depth = s.nav.depth();
    assert!(matches!(s.handle_key(key(Key::Down), 1), Action::Continue));
    assert!(matches!(s.handle_key(key(Key::Up), 1), Action::Continue));
    assert!(matches!(s.handle_key(key(Key::Other), 1), Action::Continue));
    assert_eq!(s.cursors.recall.current(), Some(0));
    assert_eq!(s.nav.depth(), depth);
    assert_eq!(s.mode, InputMode::Query);
    assert!(matches!(s.handle_key(ch('q'), 1), Action::Continue));
    assert_eq!(s.recall_query, "q");
}

#[test]
fn quit_keys() {
    let mut s = Session::new(0);
    assert!(matches!(s.handle_key(ch('q'), 1), Action::Quit));
    assert!(matches!(s.handle_key(KeyPress { key: Key::Char('c'), ctrl: true }, 1), Action::Quit));
    assert!(matches!(s.handle_key(ch('c'), 1), Action::Continue));
    let mut s = in_recall("a");
    s.handle_key(ch('/'), 1);
    assert!(matches!(s.handle_key(KeyPress { key: Key::Char('c'), ctrl: true }, 1), Action::Quit));
    assert_eq!(s.recall_query, "");
}

#[test]
fn help_toggle() {
    let mut s = Session::new(0);
    s.handle_key(ch('?'), 1);
    assert!(s.show_help);
    s.handle_key(ch('?'), 1);
    assert!(!s.show_help);
}

#[test]
fn switch_to_current_view_does_nothing() {
    let mut s = with_banks(&["a"]);
    s.handle_key(ch('m'), 1);
    s.complete(FetchResponse::Memories(vec![memory("x")]));
    assert_eq!(s.nav.depth(), 1);
    let r = s.switch_to_view(View::Memories("a".to_string()), 9);
    assert!(r.is_none());
    assert_eq!(s.nav.depth(), 1);
    assert_eq!(s.nav.current, View::Memories("a".to_string()));
    assert!(!s.store.loading);
    assert_eq!(s.refresh.last_refresh, 1);
    let a = s.handle_key(ch('m'), 9);
    assert!(matches!(a, Action::Continue));
    assert_eq!(s.nav.depth(), 1);
}

#[test]
fn go_back_restores_and_reloads() {
    let mut s = with_banks(&["a"]);
    assert!(matches!(s.handle_key(key(Key::Esc), 1), Action::Continue));
    assert_eq!(s.nav.current, View::Banks);
    s.handle_key(key(Key::Enter), 1);
    let a = s.handle_key(key(Key::Esc), 2);
    assert!(matches!(a, Action::Fetch(FetchRequest::ListBanks)));
    assert_eq!(s.nav.current, View::Banks);
    assert_eq!(s.nav.depth(), 0);
    assert!(s.store.loading);
}

#[test]
fn back_to_query_screen_sends_nothing() {
    let mut s = in_recall("a");
    s.handle_key(ch('m'), 1);
    assert_eq!(s.nav.current, View::Memories("a".to_string()));
    let a = s.handle_key(key(Key::Esc), 2);
    assert!(matches!(a, Action::Continue));
    assert_eq!(s.nav.current, View::Recall("a".to_string()));
    assert!(!s.store.loading);
}

#[test]
fn view_switch_uses_selected_bank() {
    let mut s = with_banks(&["a", "b"]);
    s.handle_key(key(Key::Down), 0);
    let a = s.handle_key(ch('e'), 1);
    match a {
        Action::Fetch(FetchRequest::ListEntities { bank_id, limit }) => {
            assert_eq!(bank_id, "b");
            assert_eq!(limit, 100);
        }
        other => panic!("unexpected action {:?}", other),
    }
    assert_eq!(s.nav.current, View::Entities("b".to_string()));
    s.complete(FetchResponse::Entities(vec![Entity {
        canonical_name: "Ada".to_string(),
        mention_count: 3,
    }]));
    assert_eq!(s.store.status, "Loaded 1 entities");
    assert_eq!(s.cursors.entities.current(), Some(0));
}

#[test]
fn view_switch_without_banks_does_nothing() {
    let mut s = Session::new(0);
    for c in ['m', 'e', 'd', 'r', 't'] {
        assert!(matches!(s.handle_key(ch(c), 1), Action::Continue));
        assert_eq!(s.nav.current, View::Banks);
        assert_eq!(s.nav.depth(), 0);
    }
    assert!(matches!(s.handle_key(key(Key::Enter), 1), Action::Continue));
    assert_eq!(s.nav.current, View::Banks);
}

#[test]
fn query_screen_for_current_bank_when_none_selected() {
    let mut s = Session::new(0);
    assert!(s.switch_to_view(View::Memories("z".to_string()), 1).is_some());
    let a = s.handle_key(ch('r'), 2);
    assert!(matches!(a, Action::Continue));
    assert_eq!(s.nav.current, View::Recall("z".to_string()));
    assert_eq!(s.nav.depth(), 2);
}

#[test]
fn enter_does_nothing_outside_bank_list() {
    let mut s = with_banks(&["a"]);
    s.handle_key(key(Key::Enter), 1);
    let a = s.handle_key(key(Key::Enter), 2);
    assert!(matches!(a, Action::Continue));
    assert_eq!(s.nav.current, View::Memories("a".to_string()));
    assert_eq!(s.nav.depth(), 1);
}

#[test]
fn auto_refresh_tick() {
    let mut s = Session::new(1000);
    assert!(s.tick(1000).is_none());
    assert!(s.tick(5999).is_none());
    let r = s.tick(6000);
    assert!(matches!(r, Some(FetchRequest::ListBanks)));
    assert_eq!(s.refresh.last_refresh, 6000);
    assert!(s.store.loading);
    assert!(s.tick(6000).is_none());
    assert!(s.tick(10_999).is_none());
    s.complete(FetchResponse::Failed("down".to_string()));
    assert!(s.tick(10_999).is_none());
    assert!(s.tick(11_000).is_some());
    assert_eq!(s.store.error, "");
}

#[test]
fn explicit_refresh_restarts_the_interval() {
    let mut s = Session::new(0);
    let a = s.handle_key(ch('R'), 4000);
    assert!(matches!(a, Action::Fetch(FetchRequest::ListBanks)));
    assert!(s.tick(5000).is_none());
    assert!(s.tick(8999).is_none());
    assert!(s.tick(9000).is_some());
}

#[test]
fn auto_refresh_toggle() {
    let mut s = Session::new(0);
    assert!(matches!(s.handle_key(ch('a'), 100), Action::Continue));
    assert!(!s.refresh.enabled);
    assert_eq!(s.store.status, "Auto-refresh disabled");
    assert!(s.tick(1_000_000).is_none());
    s.handle_key(ch('a'), 2_000_000);
    assert!(s.refresh.enabled);
    assert_eq!(s.store.status, "Auto-refresh enabled (5s)");
    assert_eq!(s.refresh.last_refresh, 2_000_000);
    assert!(s.tick(2_000_000).is_none());
    assert!(s.tick(2_005_000).is_some());
}

#[test]
fn query_screens_are_not_reloaded() {
    let mut s = in_recall("a");
    assert!(s.refresh(10).is_none());
    assert!(!s.store.loading);
    assert_eq!(s.refresh.last_refresh, 10);
    assert!(s.tick(100_000).is_none());
    assert_eq!(s.refresh.last_refresh, 100_000);
    assert!(matches!(s.handle_key(ch('R'), 200_000), Action::Continue));
}

#[test]
fn reload_keeps_selection_that_still_fits() {
    let mut s = with_banks(&["a", "b", "c"]);
    s.handle_key(key(Key::Down), 0);
    s.handle_key(key(Key::Down), 0);
    assert_eq!(s.cursors.banks.current(), Some(2));
    s.complete(FetchResponse::Banks(vec![bank("a"), bank("b"), bank("c"), bank("d")]));
    assert_eq!(s.cursors.banks.current(), Some(2));
    assert_eq!(s.store.status, "Loaded 4 banks");
    s.complete(FetchResponse::Banks(vec![bank("a")]));
    assert_eq!(s.cursors.banks.current(), Some(0));
    s.complete(FetchResponse::Banks(vec![]));
    assert_eq!(s.cursors.banks.current(), None);
    assert_eq!(s.store.status, "Loaded 0 banks");
}

#[test]
fn status_counts_are_decimal() {
    let mut s = Session::new(0);
    s.complete(FetchResponse::Memories((0..100).map(|_| memory("m")).collect()));
    assert_eq!(s.store.status, "Loaded 100 memories");
    s.complete(FetchResponse::Memories((0..1234).map(|_| memory("m")).collect()));
    assert_eq!(s.store.status, "Loaded 1234 memories");
    s.complete(FetchResponse::Memories((0..9).map(|_| memory("m")).collect()));
    assert_eq!(s.store.status, "Loaded 9 memories");
    s.complete(FetchResponse::Memories((0..10).map(|_| memory("m")).collect()));
    assert_eq!(s.store.status, "Loaded 10 memories");
    s.complete(FetchResponse::Recall(vec![]));
    assert_eq!(s.store.status, "Found 0 results");
    assert_eq!(s.cursors.recall.current(), None);
}

#[test]
fn reflect_screen_has_no_list_to_move_in() {
    let mut s = with_banks(&["a", "b"]);
    s.handle_key(ch('t'), 0);
    let before = s.cursors;
    s.handle_key(key(Key::Down), 1);
    s.handle_key(key(Key::Up), 1);
    assert_eq!(s.cursors, before);
}

#[test]
fn unknown_keys_change_nothing() {
    let mut s = with_banks(&["a"]);
    assert!(matches!(s.handle_key(key(Key::Other), 1), Action::Continue));
    assert!(matches!(s.handle_key(key(Key::Backspace), 1), Action::Continue));
    assert!(matches!(s.handle_key(ch('x'), 1), Action::Continue));
    assert_eq!(s.nav.current, View::Banks);
    assert_eq!(s.mode, InputMode::Normal);
    assert_eq!(s.cursors.banks.current(), Some(0));
    assert_eq!(s.store.status, "Loaded 1 banks");
}

#[test]
fn commands_can_be_applied_directly() {
    let mut s = with_banks(&["a", "b"]);
    assert!(matches!(s.apply(Command::NextItem, 1), Action::Continue));
    assert_eq!(s.cursors.banks.current(), Some(1));
    assert!(matches!(s.apply(Command::Ignore, 1), Action::Continue));
    assert!(matches!(s.apply(Command::Quit, 1), Action::Quit));
    let a = s.apply(Command::Open(ViewKind::Documents), 2);
    assert!(matches!(a, Action::Fetch(FetchRequest::ListDocuments { .. })));
    assert_eq!(s.nav.current, View::Documents("b".to_string()));
    assert!(matches!(s.apply(Command::Open(ViewKind::Banks), 3), Action::Continue));
    assert_eq!(s.nav.current, View::Documents("b".to_string()));
    assert!(matches!(s.apply(Command::StartQuery, 3), Action::Continue));
    assert_eq!(s.mode, InputMode::Normal);
    let a = s.apply(Command::GoBack, 4);
    assert!(matches!(a, Action::Fetch(FetchRequest::ListBanks)));
}

#[test]
fn keys_never_touch_loaded_data() {
    let mut s = with_banks(&["a", "b"]);
    s.complete(FetchResponse::Memories(vec![memory("one"), memory("two")]));
    for k in [ch('m'), ch('j'), key(Key::Esc), ch('r'), ch('/'), ch('x'), key(Key::Enter), key(Key::Esc)] {
        s.handle_key(k, 1);
        assert_eq!(s.store.banks.len(), 2);
        assert_eq!(s.store.memories.len(), 2);
    }
}
