use temporal_tui::controller::Page;
use temporal_tui::execution::{ExecutionId, ExecutionInfo};
use temporal_tui::keys::{Key, KeyCode, KeyOutcome, Keybind};
use temporal_tui::loading::{LoadingState, Message};
use temporal_tui::navigator::{Mode, ViewNavigator, ViewWidget};
use temporal_tui::query::QueryInput;
use temporal_tui::table::{Mode as TableMode, WorkflowTableWidget};
use temporal_tui::workflow::{DescribeInfo, HistoryEventInfo, WorkflowWidget};

fn key(code: KeyCode) -> Key {
    Key { code, ctrl: false }
}

fn ctrl(c: char) -> Key {
    Key { code: KeyCode::Char(c), ctrl: true }
}

fn info(id: &str) -> ExecutionInfo {
    ExecutionInfo {
        execution: Some(ExecutionId { workflow_id: id.to_string(), run_id: "r".to_string() }),
        workflow_type_name: Some("T".to_string()),
        status: 1,
        task_queue: "q".to_string(),
        start_time: None,
        close_time: None,
        execution_time: None,
        execution_duration: None,
        history_size_bytes: 0,
    }
}

fn event(id: i64) -> HistoryEventInfo<u8> {
    HistoryEventInfo { event_id: id, event_time: None, event_type: Some("EVENT_TYPE_TIMER_FIRED".to_string()), attributes: 0 }
}

#[test]
fn modes_have_names() {
    assert_eq!(Mode::Normal.as_str(), "NORMAL");
    assert_eq!(Mode::Insert.as_str(), "INSERT");
    assert_eq!(TableMode::Normal.as_str(), "NORMAL");
    assert_eq!(TableMode::Query.as_str(), "QUERY");
}

#[test]
fn keybind_keeps_its_parts() {
    let k = Keybind::new(vec!["j".to_string()], "Down".to_string());
    assert_eq!(k.key_list(), &vec!["j".to_string()]);
    assert_eq!(k.operation_text(), "Down");
}

#[test]
fn query_input_edits_at_the_cursor() {
    let mut q = QueryInput::new("Enter a query...");
    assert_eq!(q.query(), "");
    assert_eq!(q.shown_text(), "Enter a query...");
    for c in ['a', 'b'] {
        q.handle_key(key(KeyCode::Char(c)));
    }
    q.handle_key(key(KeyCode::Left));
    q.handle_key(key(KeyCode::Char('x')));
    assert_eq!(q.shown_text(), "axb");
    assert_eq!(q.cursor(), 2);
    q.handle_key(key(KeyCode::Right));
    q.handle_key(key(KeyCode::Right));
    assert_eq!(q.cursor(), 3);
    q.handle_key(key(KeyCode::Backspace));
    assert_eq!(q.shown_text(), "ax");
    q.handle_key(key(KeyCode::Backspace));
    q.handle_key(key(KeyCode::Backspace));
    assert_eq!(q.shown_text(), "Enter a query...");
    assert_eq!(q.cursor(), 0);
}

#[test]
fn query_is_trimmed() {
    let mut q = QueryInput::new("");
    for c in "  Type = 'Foo'\t ".chars() {
        q.handle_key(key(KeyCode::Char(c)));
    }
    assert_eq!(q.query(), "Type = 'Foo'");
}

#[test]
fn table_reload_uses_the_typed_filter() {
    let mut t = WorkflowTableWidget::new(48);
    assert_eq!(t.handle_normal_key(ctrl('q')), KeyOutcome::Done);
    assert_eq!(t.mode(), TableMode::Query);
    for c in "Type=Foo".chars() {
        assert_eq!(t.handle_query_key(key(KeyCode::Char(c))), KeyOutcome::Done);
    }
    assert_eq!(t.handle_query_key(ctrl('r')), KeyOutcome::Done);
    assert!(t.is_loading());
    let req = t.start_next().unwrap();
    assert_eq!(req.filter, "Type=Foo");
    assert!(matches!(req.message, Message::Reload));
}

#[test]
fn table_load_selects_first_row_and_reports_age() {
    let mut t = WorkflowTableWidget::new(48);
    assert!(t.reload());
    t.start_next().unwrap();
    t.finish_load(Ok(Page { rows: vec![info("a"), info("b")], next_page_token: Vec::new() }), 100);
    assert_eq!(t.get_selected_workflow_id(), Some("a".to_string()));
    assert_eq!(t.get_duration_since_last_reload(130), Some(30));
    assert_eq!(t.get_duration_since_last_reload(50), None);
    assert_eq!(t.is_error(), (false, None));
    assert_eq!(t.handle_normal_key(key(KeyCode::Down)), KeyOutcome::Done);
    assert!(t.is_on_last_row());
    assert_eq!(t.get_selected_workflow_id(), Some("b".to_string()));
    t.previous_row();
    t.previous_row();
    assert_eq!(t.get_selected_workflow_id(), Some("b".to_string()));
}

#[test]
fn table_refuses_a_page_with_a_bad_report() {
    let mut t = WorkflowTableWidget::new(48);
    t.reload();
    t.start_next().unwrap();
    let mut bad = info("b");
    bad.execution = None;
    t.finish_load(Ok(Page { rows: vec![info("a"), bad], next_page_token: Vec::new() }), 1);
    assert_eq!(t.is_error(), (true, Some("invalid workflow execution: workflow has no execution".to_string())));
    assert_eq!(t.pane().controller().collection().len(), 0);
    assert_eq!(t.get_selected_workflow_id(), None);
}

#[test]
fn detail_view_expands_and_collapses_events() {
    let mut w: WorkflowWidget<u8> = WorkflowWidget::new("wf", None);
    assert!(w.reload());
    w.start_next().unwrap();
    w.finish_reload(
        Ok(DescribeInfo { execution: Some(info("wf")), pending_activities: Vec::new() }),
        Ok(Page { rows: vec![event(1), event(2)], next_page_token: b"p2".to_vec() }),
        7,
    );
    assert!(w.execution().is_some());
    assert_eq!(w.get_selected_history_event(), Some(0));
    assert_eq!(w.handle_key(key(KeyCode::Enter)), KeyOutcome::Done);
    assert!(w.is_displaying_history_event());
    assert_eq!(w.handle_key(key(KeyCode::Esc)), KeyOutcome::Done);
    assert!(!w.is_displaying_history_event());
    assert_eq!(w.handle_key(key(KeyCode::Esc)), KeyOutcome::Leave);
    assert_eq!(w.handle_key(key(KeyCode::Char('j'))), KeyOutcome::Done);
    assert_eq!(w.handle_key(key(KeyCode::Down)), KeyOutcome::Waiting);
    w.start_next().unwrap();
    w.finish_page(Ok(Page { rows: vec![event(3)], next_page_token: Vec::new() }), 8);
    assert!(w.resume_next_row());
    assert_eq!(w.get_selected_history_event(), Some(2));
}

#[test]
fn detail_reload_failure_is_recorded() {
    let mut w: WorkflowWidget<u8> = WorkflowWidget::new("wf", Some("run-1"));
    assert_eq!(w.run_id(), Some(&"run-1".to_string()));
    w.reload();
    w.start_next().unwrap();
    w.finish_reload(
        Ok(DescribeInfo { execution: None, pending_activities: Vec::new() }),
        Ok(Page { rows: vec![event(1)], next_page_token: Vec::new() }),
        7,
    );
    assert_eq!(
        w.pane().controller().loading_state(),
        &LoadingState::Error("unknown workflow execution".to_string())
    );
    assert!(w.execution().is_none());
    assert_eq!(w.pane().controller().collection().len(), 0);
}

#[test]
fn navigator_moves_between_list_and_detail() {
    let mut n: ViewNavigator<u8> = ViewNavigator::new(48);
    assert_eq!(n.epoch(), 0);
    assert_eq!(n.mode(), Mode::Normal);
    assert_eq!(n.handle_key(key(KeyCode::Enter)), KeyOutcome::Ignored);
    let req = n.start_next(0).unwrap();
    assert!(matches!(req.message, Message::Reload));
    assert!(n.finish_list(0, Ok(Page { rows: vec![info("wf-7")], next_page_token: Vec::new() }), 1));
    assert_eq!(n.handle_key(key(KeyCode::Enter)), KeyOutcome::Switched);
    assert_eq!(n.epoch(), 1);
    match n.active_view() {
        ViewWidget::Workflow(w) => assert_eq!(w.workflow_id(), "wf-7"),
        ViewWidget::WorkflowTable(_) => panic!("expected the detail view"),
    }
    assert!(n.start_next(0).is_none());
    assert!(!n.finish_list(0, Ok(Page { rows: Vec::new(), next_page_token: Vec::new() }), 2));
    assert!(n.start_next(1).is_some());
    assert_eq!(n.handle_key(key(KeyCode::Esc)), KeyOutcome::Switched);
    assert_eq!(n.epoch(), 2);
    assert!(matches!(n.active_view(), ViewWidget::WorkflowTable(_)));
    assert_eq!(n.handle_key(ctrl('c')), KeyOutcome::Quit);
    assert_eq!(n.handle_key(key(KeyCode::Esc)), KeyOutcome::Quit);
}

#[test]
fn navigator_reports_insert_mode_while_filtering() {
    let mut n: ViewNavigator<u8> = ViewNavigator::new(10);
    assert_eq!(n.handle_key(ctrl('q')), KeyOutcome::Done);
    assert_eq!(n.mode(), Mode::Insert);
    assert_eq!(n.handle_key(key(KeyCode::Esc)), KeyOutcome::Ignored);
}

#[test]
fn keybinds_widget_holds_bindings_in_order() {
    let mut w = temporal_tui::keys::KeybindsWidget::new(&[("Up", &["k", "↑"]), ("Reload", &["Ctrl+r"])]);
    w.push(("Quit", &["Ctrl+c"]));
    let e = w.entries();
    assert_eq!(e.len(), 3);
    assert_eq!(e[0], ("Up".to_string(), vec!["k".to_string(), "↑".to_string()]));
    assert_eq!(e[2], ("Quit".to_string(), vec!["Ctrl+c".to_string()]));
}

#[test]
fn query_input_default_shows_placeholder() {
    let q = QueryInput::default();
    assert_eq!(q.shown_text(), "Enter a query...");
    assert_eq!(q.query(), "");
}

#[test]
fn control_with_upper_case_c_quits_too() {
    let mut n: ViewNavigator<u8> = ViewNavigator::new(10);
    assert_eq!(n.handle_key(ctrl('C')), KeyOutcome::Quit);
    assert_eq!(n.handle_key(ctrl('q')), KeyOutcome::Done);
    assert_eq!(n.handle_key(ctrl('C')), KeyOutcome::Quit);
}

#[test]
fn long_filter_text_types_and_erases_symmetrically() {
    let mut q = QueryInput::new("");
    for _ in 0..5000 {
        q.handle_key(key(KeyCode::Char('a')));
    }
    assert_eq!(q.cursor(), 5000);
    q.handle_key(key(KeyCode::Char('b')));
    q.handle_key(key(KeyCode::Backspace));
    assert_eq!(q.cursor(), 5000);
    assert_eq!(q.query(), "a".repeat(5000));
}
