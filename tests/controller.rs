use temporal_tui::controller::{DataController, Page, QUEUE_CAPACITY};
use temporal_tui::loading::{LoadingState, Message};

fn page(rows: Vec<char>, token: &[u8]) -> Page<char> {
    Page { rows, next_page_token: token.to_vec() }
}

#[test]
fn reload_turns_loading_before_any_response() {
    let mut c: DataController<char> = DataController::new();
    assert_eq!(c.loading_state(), &LoadingState::Idle);
    assert_eq!(c.reload("Type=Foo".to_string()), Some(0));
    assert!(c.is_loading());
    assert_eq!(c.pending_requests(), 1);
}

#[test]
fn reload_success_replaces_rows_and_records_time() {
    let mut c: DataController<char> = DataController::new();
    c.reload(String::new());
    c.start_next().unwrap();
    c.finish(Ok(page(vec!['A', 'B'], b"t")), 5);
    c.reload(String::new());
    c.start_next().unwrap();
    c.finish(Ok(page(vec!['X'], b"")), 9);
    assert_eq!(c.collection().rows(), &vec!['X']);
    assert!(c.collection().is_exhausted());
    assert_eq!(c.loading_state(), &LoadingState::Reloaded);
    assert_eq!(c.last_successful_load(), Some(9));
}

#[test]
fn failure_keeps_rows_and_records_message() {
    let mut c: DataController<char> = DataController::new();
    c.reload(String::new());
    c.start_next().unwrap();
    c.finish(Ok(page(vec!['A'], b"t")), 1);
    assert_eq!(c.load_next_page(), Some(1));
    c.start_next().unwrap();
    c.finish(Err("unavailable".to_string()), 2);
    assert_eq!(c.collection().rows(), &vec!['A']);
    assert_eq!(c.loading_state(), &LoadingState::Error("unavailable".to_string()));
    assert_eq!(c.error_message(), Some("unavailable".to_string()));
    assert_eq!(c.last_successful_load(), Some(1));
}

#[test]
fn load_next_page_is_refused_when_exhausted() {
    let mut c: DataController<char> = DataController::new();
    assert_eq!(c.load_next_page(), None);
    c.reload(String::new());
    c.start_next().unwrap();
    c.finish(Ok(page(vec!['A'], b"")), 1);
    assert_eq!(c.load_next_page(), None);
    assert_eq!(c.pending_requests(), 0);
    assert_eq!(c.loading_state(), &LoadingState::Reloaded);
}

#[test]
fn page_request_carries_cursor_and_filter() {
    let mut c: DataController<char> = DataController::new();
    c.reload("Type=Foo".to_string());
    c.start_next().unwrap();
    c.finish(Ok(page(vec!['A'], b"tok1")), 1);
    c.load_next_page();
    let req = c.start_next().unwrap();
    assert_eq!(req.seq, 1);
    assert_eq!(req.filter, "Type=Foo");
    match req.message {
        Message::LoadPage { page_token } => assert_eq!(page_token, b"tok1".to_vec()),
        Message::Reload => panic!("expected a page request"),
    }
    c.finish(Ok(page(vec!['B'], b"")), 2);
    assert_eq!(c.collection().rows(), &vec!['A', 'B']);
    assert_eq!(c.loading_state(), &LoadingState::PageLoaded);
}

#[test]
fn one_request_in_flight_at_a_time_in_submission_order() {
    let mut c: DataController<char> = DataController::new();
    c.reload("a".to_string());
    c.reload("b".to_string());
    let first = c.start_next().unwrap();
    assert!(c.start_next().is_none());
    assert!(c.has_in_flight());
    assert_eq!(first.filter, "a");
    assert!(!c.is_settled(0));
    c.finish(Ok(page(vec!['1'], b"")), 1);
    assert!(c.is_settled(0));
    let second = c.start_next().unwrap();
    assert_eq!(second.seq, 1);
    assert_eq!(second.filter, "b");
}

#[test]
fn queue_is_bounded() {
    let mut c: DataController<char> = DataController::new();
    for i in 0..QUEUE_CAPACITY {
        assert_eq!(c.reload(String::new()), Some(i as u64));
    }
    assert_eq!(c.reload(String::new()), None);
    assert_eq!(c.pending_requests(), QUEUE_CAPACITY);
}

#[test]
fn page_request_only_queues() {
    let mut c: DataController<char> = DataController::new();
    c.reload(String::new());
    c.start_next().unwrap();
    c.finish(Ok(page(vec!['A'], b"t")), 1);
    assert_eq!(c.load_next_page(), Some(1));
    assert_eq!(c.loading_state(), &LoadingState::Reloaded);
    assert_eq!(c.collection().rows(), &vec!['A']);
    c.start_next().unwrap();
    assert!(c.is_loading());
}

#[test]
fn no_page_is_asked_for_while_a_reload_is_pending() {
    let mut c: DataController<char> = DataController::new();
    c.reload(String::new());
    c.start_next().unwrap();
    c.finish(Ok(page(vec!['A'], b"old")), 1);
    c.reload(String::new());
    assert_eq!(c.load_next_page(), None);
    assert_eq!(c.pending_requests(), 1);
    c.start_next().unwrap();
    assert_eq!(c.load_next_page(), None);
    c.finish(Ok(page(vec!['X'], b"new")), 2);
    assert_eq!(c.load_next_page(), Some(2));
    let req = c.start_next().unwrap();
    match req.message {
        Message::LoadPage { page_token } => assert_eq!(page_token, b"new".to_vec()),
        Message::Reload => panic!("expected a page request"),
    }
}
