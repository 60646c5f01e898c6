use temporal_tui::controller::{DataController, Page};
use temporal_tui::loading::{LoadingState, Message};
use temporal_tui::selection::{Advance, SelectionCursor};

fn loaded(rows: Vec<char>, token: &[u8]) -> DataController<char> {
    let mut c: DataController<char> = DataController::new();
    c.reload(String::new());
    c.start_next().unwrap();
    c.finish(Ok(Page { rows, next_page_token: token.to_vec() }), 1);
    c
}

fn select(s: &mut SelectionCursor, c: &mut DataController<char>, index: usize) {
    for _ in 0..=index {
        assert_eq!(s.advance(c), Advance::Moved);
    }
    assert_eq!(s.selected(), Some(index));
}

#[test]
fn advance_from_last_row_loads_next_page_and_lands_on_first_new_row() {
    let mut c = loaded(vec!['A', 'B', 'C'], b"tok1");
    let mut s = SelectionCursor::new();
    select(&mut s, &mut c, 2);
    assert_eq!(s.advance(&mut c), Advance::Waiting);
    assert_eq!(c.pending_requests(), 1);
    assert!(!s.resume(&c));
    assert_eq!(s.selected(), Some(2));
    let req = c.start_next().unwrap();
    match req.message {
        Message::LoadPage { page_token } => assert_eq!(page_token, b"tok1".to_vec()),
        Message::Reload => panic!("expected a page request"),
    }
    assert!(!s.resume(&c));
    c.finish(Ok(Page { rows: vec!['D', 'E'], next_page_token: Vec::new() }), 2);
    assert!(s.resume(&c));
    assert_eq!(c.collection().rows(), &vec!['A', 'B', 'C', 'D', 'E']);
    assert!(c.collection().is_exhausted());
    assert_eq!(s.selected(), Some(3));
    assert_eq!(c.loading_state(), &LoadingState::PageLoaded);
}

#[test]
fn advance_from_last_row_of_exhausted_collection_wraps_without_fetch() {
    let mut c = loaded(vec!['A', 'B', 'C'], b"");
    let mut s = SelectionCursor::new();
    select(&mut s, &mut c, 2);
    assert_eq!(s.advance(&mut c), Advance::Moved);
    assert_eq!(s.selected(), Some(0));
    assert_eq!(c.pending_requests(), 0);
    assert!(!c.has_in_flight());
}

#[test]
fn advance_while_waiting_does_nothing() {
    let mut c = loaded(vec!['A'], b"t");
    let mut s = SelectionCursor::new();
    select(&mut s, &mut c, 0);
    assert_eq!(s.advance(&mut c), Advance::Waiting);
    assert_eq!(s.advance(&mut c), Advance::Waiting);
    assert_eq!(c.pending_requests(), 1);
}

#[test]
fn advance_from_last_row_waits_for_a_failed_page_too() {
    let mut c = loaded(vec!['A', 'B'], b"t");
    let mut s = SelectionCursor::new();
    select(&mut s, &mut c, 1);
    assert_eq!(s.advance(&mut c), Advance::Waiting);
    c.start_next().unwrap();
    c.finish(Err("timeout".to_string()), 2);
    assert!(s.resume(&c));
    assert_eq!(s.selected(), Some(0));
    assert_eq!(c.loading_state(), &LoadingState::Error("timeout".to_string()));
}

#[test]
fn retreat_from_first_row_wraps_to_last_without_fetch() {
    let mut c = loaded(vec!['A', 'B', 'C'], b"tok1");
    let mut s = SelectionCursor::new();
    select(&mut s, &mut c, 0);
    s.retreat(&c);
    assert_eq!(s.selected(), Some(2));
    assert_eq!(c.pending_requests(), 0);
    s.retreat(&c);
    assert_eq!(s.selected(), Some(1));
}

#[test]
fn navigation_on_empty_rows_leaves_nothing_selected() {
    let mut c = loaded(Vec::new(), b"");
    let mut s = SelectionCursor::new();
    assert_eq!(s.advance(&mut c), Advance::Moved);
    assert_eq!(s.selected(), None);
    s.retreat(&c);
    assert_eq!(s.selected(), None);
}

#[test]
fn reload_while_page_in_flight_drops_the_stale_page() {
    let mut c = loaded(vec!['A', 'B'], b"tok1");
    assert_eq!(c.load_next_page(), Some(1));
    let page_req = c.start_next().unwrap();
    assert!(matches!(page_req.message, Message::LoadPage { .. }));
    assert_eq!(c.reload("Type=Foo".to_string()), Some(2));
    c.finish(Ok(Page { rows: vec!['C', 'D'], next_page_token: b"tok2".to_vec() }), 2);
    assert_eq!(c.collection().rows(), &vec!['A', 'B']);
    assert!(c.is_loading());
    let reload_req = c.start_next().unwrap();
    assert!(matches!(reload_req.message, Message::Reload));
    assert_eq!(reload_req.filter, "Type=Foo");
    c.finish(Ok(Page { rows: vec!['F', 'G'], next_page_token: Vec::new() }), 3);
    assert_eq!(c.collection().rows(), &vec!['F', 'G']);
    assert!(c.collection().is_exhausted());
    assert_eq!(c.loading_state(), &LoadingState::Reloaded);
    assert_eq!(c.pending_requests(), 0);
}

#[test]
fn stale_page_failure_is_dropped_too() {
    let mut c = loaded(vec!['A'], b"tok1");
    c.load_next_page();
    c.start_next().unwrap();
    c.reload(String::new());
    c.finish(Err("gone".to_string()), 2);
    assert_eq!(c.loading_state(), &LoadingState::Loading);
    assert_eq!(c.error_message(), None);
}

#[test]
fn advance_is_busy_when_no_request_can_be_queued() {
    let mut c = loaded(vec!['A'], b"t");
    let mut s = SelectionCursor::new();
    select(&mut s, &mut c, 0);
    while c.reload(String::new()).is_some() {}
    assert_eq!(s.advance(&mut c), Advance::Busy);
    assert_eq!(s.selected(), Some(0));
    assert!(!s.is_waiting());
}
