use vstd::prelude::*;

use crate::controller::{ControllerView, Page, Request};
use crate::execution::{
    conversion_message, execution_of, executions_from_infos, ConversionError, ExecutionInfo,
    WorkflowExecution,
};
use crate::keys::{
    advance_outcome, is_ctrl, is_down, is_up, outcome_of_advance, Key, KeyCode, KeyOutcome,
};
use crate::pane::{Pane, PaneView};
use crate::query::{is_trim, QueryInput, QueryView};
use crate::selection::{advanced, resumed, retreated, Advance, SelectionView};

verus! {

/// The modes of the execution list.
#[derive(Clone, Copy, Debug, PartialEq, Eq, Structural)]
pub enum Mode {
    /// Keys navigate.
    Normal,
    /// Keys edit the filter text.
    Query,
}

impl Mode {
    pub fn as_str(&self) -> (r: &'static str)
        ensures
            r@ == match *self {
                Mode::Normal => "NORMAL"@,
                Mode::Query => "QUERY"@,
            },
    {
        match self {
            Mode::Normal => "NORMAL",
            Mode::Query => "QUERY",
        }
    }
}

/// `filter` is the filter text that the input `q` holds.
pub open spec fn filter_of(q: QueryView, filter: Seq<char>) -> bool {
    match q.text {
        Some(t) => is_trim(t, filter),
        None => filter.len() == 0,
    }
}

/// The executions of a page, when every report checks: `rows[i]` is the
/// checked form of `infos[i]`.
pub open spec fn all_checked(infos: Seq<ExecutionInfo>, rows: Seq<WorkflowExecution>) -> bool {
    &&& rows.len() == infos.len()
    &&& forall|i: int|
        0 <= i < infos.len() ==> execution_of(#[trigger] infos[i]) == Ok::<
            WorkflowExecution,
            ConversionError,
        >(rows[i])
}

/// The report at `k` is the first refused among `infos`, for `e`.
pub open spec fn first_refused(infos: Seq<ExecutionInfo>, k: int, e: ConversionError) -> bool {
    &&& 0 <= k < infos.len()
    &&& execution_of(infos[k]) == Err::<WorkflowExecution, ConversionError>(e)
    &&& forall|i: int| 0 <= i < k ==> #[trigger] execution_of(infos[i]) is Ok
}

/// The execution list, as mathematical values.
pub struct TableView {
    pub pane: PaneView<WorkflowExecution>,
    pub query: QueryView,
    pub mode: Mode,
    pub page_size: u32,
}

impl TableView {
    pub open spec fn wf(self) -> bool {
        self.pane.wf() && self.query.wf()
    }

    pub open spec fn with_controller(self, c: ControllerView<WorkflowExecution>) -> TableView {
        TableView { pane: PaneView { controller: c, ..self.pane }, ..self }
    }

    pub open spec fn with_selection(self, s: SelectionView) -> TableView {
        TableView { pane: PaneView { selection: s, ..self.pane }, ..self }
    }

    pub open spec fn with_pane(self, p: PaneView<WorkflowExecution>) -> TableView {
        TableView { pane: p, ..self }
    }

    pub open spec fn with_mode(self, m: Mode) -> TableView {
        TableView { mode: m, ..self }
    }

    pub open spec fn with_query(self, q: QueryView) -> TableView {
        TableView { query: q, ..self }
    }

    /// After a reload was asked for: the controller queued it under the
    /// input's filter text.
    pub open spec fn reload_asked(self, after: TableView) -> bool {
        &&& filter_of(self.query, after.pane.controller.filter)
        &&& after == self.with_controller(
            self.pane.controller.reloaded(after.pane.controller.filter),
        )
    }

    /// What a key press in normal mode does: `after` is the list after it
    /// and `r` its outcome.
    pub open spec fn normal_key_step(self, key: Key, after: TableView, r: KeyOutcome) -> bool {
        &&& (is_ctrl(key, 'q') ==> r == KeyOutcome::Done && after == self.with_mode(
            Mode::Query,
        ))
        &&& (!is_ctrl(key, 'q') && is_down(key) ==> {
            let (s, c, a) = advanced(self.pane.selection, self.pane.controller);
            &&& r == advance_outcome(a)
            &&& after == self.with_controller(c).with_selection(s)
        })
        &&& (!is_ctrl(key, 'q') && !is_down(key) && is_up(key) ==> r == KeyOutcome::Done
            && after == self.with_selection(
            retreated(
                self.pane.selection,
                self.pane.controller.collection.rows.len(),
            ),
        ))
        &&& (!is_ctrl(key, 'q') && !is_down(key) && !is_up(key) && is_ctrl(key, 'r') ==> {
            &&& self.pane.controller.has_room() ==> r == KeyOutcome::Done && self.reload_asked(after)
            &&& !self.pane.controller.has_room() ==> r == KeyOutcome::Busy
                && after == self
        })
        &&& (!is_ctrl(key, 'q') && !is_down(key) && !is_up(key) && !is_ctrl(key, 'r') && key.code
            == KeyCode::Enter ==> after == self && r == if self.pane.selection.index is Some {
            KeyOutcome::Switched
        } else {
            KeyOutcome::Ignored
        })
        &&& (!is_ctrl(key, 'q') && !is_down(key) && !is_up(key) && !is_ctrl(key, 'r') && key.code
            != KeyCode::Enter ==> r == KeyOutcome::Ignored && after == self)
    }

    /// What a key press in query mode does: `after` is the list after it and
    /// `r` its outcome.
    pub open spec fn query_key_step(self, key: Key, after: TableView, r: KeyOutcome) -> bool {
        &&& (is_ctrl(key, 'q') ==> r == KeyOutcome::Done && after == self.with_mode(
            Mode::Normal,
        ))
        &&& (!is_ctrl(key, 'q') && is_ctrl(key, 'r') ==> {
            &&& self.pane.controller.has_room() ==> r == KeyOutcome::Done && self.reload_asked(after)
            &&& !self.pane.controller.has_room() ==> r == KeyOutcome::Busy
                && after == self
        })
        &&& (!is_ctrl(key, 'q') && !is_ctrl(key, 'r') && (key.code is Char || key.code
            == KeyCode::Backspace || key.code == KeyCode::Left || key.code == KeyCode::Right)
            ==> r == KeyOutcome::Done && after == self.with_query(
            self.query.after_key(key),
        ))
        &&& (!is_ctrl(key, 'q') && !is_ctrl(key, 'r') && !(key.code is Char || key.code
            == KeyCode::Backspace || key.code == KeyCode::Left || key.code == KeyCode::Right)
            ==> r == KeyOutcome::Ignored && after == self)
    }

    /// The list after the request in flight ended with `outcome`, `now`
    /// being the caller's clock reading. Every reported execution is
    /// checked; when one is refused, the first refusal is recorded as the
    /// error and the rows stay as they were.
    pub open spec fn load_finished(
        self,
        outcome: Result<Page<ExecutionInfo>, String>,
        now: u64,
        after: TableView,
    ) -> bool {
        match outcome {
            Err(m) => after == self.with_pane(self.pane.failed(m)),
            Ok(page) => {
                &&& (forall|i: int|
                    0 <= i < page.rows@.len() ==> #[trigger] execution_of(page.rows@[i]) is Ok)
                    ==> exists|rows: Seq<WorkflowExecution>|
                    all_checked(page.rows@, rows) && after == self.with_pane(
                        self.pane.applied(rows, page.next_page_token@, now),
                    )
                &&& !(forall|i: int|
                    0 <= i < page.rows@.len() ==> #[trigger] execution_of(page.rows@[i]) is Ok)
                    ==> exists|k: int, e: ConversionError, m: String|
                    first_refused(page.rows@, k, e) && m@ == conversion_message(e)
                        && after == self.with_pane(self.pane.failed(m))
            },
        }
    }

    /// The highlighted execution, if any.
    pub open spec fn selected_row(self) -> Option<WorkflowExecution> {
        match self.pane.selection.index {
            Some(i) => Some(self.pane.controller.collection.rows[i as int]),
            None => None,
        }
    }
}

/// The list of executions, with its filter input.
pub struct WorkflowTableWidget {
    pane: Pane<WorkflowExecution>,
    query: QueryInput,
    mode: Mode,
    page_size: u32,
}

impl View for WorkflowTableWidget {
    type V = TableView;

    closed spec fn view(&self) -> TableView {
        TableView {
            pane: self.pane@,
            query: self.query@,
            mode: self.mode,
            page_size: self.page_size,
        }
    }
}

impl WorkflowTableWidget {
    pub open spec fn wf(&self) -> bool {
        self@.wf()
    }

    /// An empty list that asks for `page_size` executions a page, in normal
    /// mode, with an empty filter and nothing asked for.
    pub fn new(page_size: u32) -> (r: Self)
        ensures
            r.wf(),
            r@.pane.controller.collection.rows.len() == 0,
            r@.pane.controller.collection.cursor is None,
            r@.pane.controller.state is Idle,
            r@.pane.controller.queue.len() == 0,
            r@.pane.controller.in_flight is None,
            r@.pane.controller.issued == 0,
            r@.pane.controller.completed == 0,
            r@.pane.controller.latest_reload is None,
            r@.pane.controller.last_reload_at is None,
            r@.pane.selection.index is None,
            r@.pane.selection.awaiting is None,
            r@.query.text is None,
            r@.mode == Mode::Normal,
            r@.page_size == page_size,
    {
        WorkflowTableWidget {
            pane: Pane::new(),
            query: QueryInput::default(),
            mode: Mode::Normal,
            page_size,
        }
    }

    pub fn page_size(&self) -> (r: u32)
        ensures
            r == self@.page_size,
    {
        self.page_size
    }

    pub fn pane(&self) -> (r: &Pane<WorkflowExecution>)
        ensures
            r@ == self@.pane,
    {
        &self.pane
    }

    pub fn query_input(&self) -> (r: &QueryInput)
        ensures
            r@ == self@.query,
    {
        &self.query
    }

    pub fn mode(&self) -> (r: Mode)
        ensures
            r == self@.mode,
    {
        self.mode
    }

    pub fn set_mode(&mut self, mode: Mode)
        requires
            old(self).wf(),
        ensures
            final(self).wf(),
            final(self)@ == old(self)@.with_mode(mode),
    {
        self.mode = mode;
    }

    /// Asks for the list again under the input's filter text. Returns false,
    /// with nothing changed, when no request can be queued.
    pub fn reload(&mut self) -> (r: bool)
        requires
            old(self).wf(),
        ensures
            final(self).wf(),
            r == old(self)@.pane.controller.has_room(),
            r ==> old(self)@.reload_asked(final(self)@),
            !r ==> final(self)@ == old(self)@,
    {
        let filter = self.query.query();
        self.pane.reload(filter).is_some()
    }

    /// Asks for the next page. Returns false, with nothing changed, when the
    /// list is exhausted or no request can be queued.
    pub fn load_next_page(&mut self) -> (r: bool)
        requires
            old(self).wf(),
        ensures
            final(self).wf(),
            r == old(self)@.pane.controller.can_request_page(),
            r ==> final(self)@ == old(self)@.with_controller(
                old(self)@.pane.controller.page_requested(),
            ),
            !r ==> final(self)@ == old(self)@,
    {
        self.pane.load_next_page().is_some()
    }

    /// True while a fetch is asked for or running.
    pub fn is_loading(&self) -> (r: bool)
        ensures
            r == (self@.pane.controller.state is Loading),
    {
        self.pane.controller().is_loading()
    }

    /// Whether the last fetch failed, and its message.
    pub fn is_error(&self) -> (r: (bool, Option<String>))
        ensures
            r.0 == (self@.pane.controller.state is Error),
            match self@.pane.controller.state {
                crate::loading::LoadingState::Error(m) => r.1 matches Some(s) && s@ == m@,
                _ => r.1 is None,
            },
    {
        let m = self.pane.controller().error_message();
        (m.is_some(), m)
    }

    /// Moves the highlight to the next execution.
    pub fn next_row(&mut self) -> (r: Advance)
        requires
            old(self).wf(),
        ensures
            final(self).wf(),
            (final(self)@.pane.selection, final(self)@.pane.controller, r) == advanced(
                old(self)@.pane.selection,
                old(self)@.pane.controller,
            ),
            final(self)@ == old(self)@.with_pane(final(self)@.pane),
    {
        self.pane.next_row()
    }

    /// Completes a waiting forward move.
    pub fn resume_next_row(&mut self) -> (r: bool)
        requires
            old(self).wf(),
        ensures
            final(self).wf(),
            (final(self)@.pane.selection, r) == resumed(
                old(self)@.pane.selection,
                old(self)@.pane.controller,
            ),
            final(self)@ == old(self)@.with_selection(final(self)@.pane.selection),
    {
        self.pane.resume_next_row()
    }

    pub fn is_on_last_row(&self) -> (r: bool)
        ensures
            r == (self@.pane.selection.index matches Some(i) && i + 1
                == self@.pane.controller.collection.rows.len()),
    {
        self.pane.is_on_last_row()
    }

    /// Moves the highlight to the previous execution; it never fetches.
    pub fn previous_row(&mut self)
        requires
            old(self).wf(),
        ensures
            final(self).wf(),
            final(self)@ == old(self)@.with_selection(
                retreated(
                    old(self)@.pane.selection,
                    old(self)@.pane.controller.collection.rows.len(),
                ),
            ),
    {
        self.pane.previous_row()
    }

    /// How long ago, by the caller's clock reading `now`, the last reload
    /// succeeded; `None` before any, or when `now` is earlier.
    pub fn get_duration_since_last_reload(&self, now: u64) -> (r: Option<u64>)
        ensures
            match self@.pane.controller.last_reload_at {
                Some(t) => if now >= t {
                    r == Some((now - t) as u64)
                } else {
                    r is None
                },
                None => r is None,
            },
    {
        match self.pane.controller().last_successful_load() {
            Some(t) => if now >= t {
                Some(now - t)
            } else {
                None
            },
            None => None,
        }
    }

    /// The workflow id of the highlighted execution, if any.
    pub fn get_selected_workflow_id(&self) -> (r: Option<String>)
        requires
            self.wf(),
        ensures
            match self@.selected_row() {
                Some(e) => r matches Some(id) && id@ == e.workflow_id@,
                None => r is None,
            },
    {
        match self.pane.selected_row() {
            Some(e) => Some(e.workflow_id.clone()),
            None => None,
        }
    }

    /// Hands the oldest waiting request to the worker.
    pub fn start_next(&mut self) -> (r: Option<Request>)
        requires
            old(self).wf(),
        ensures
            final(self).wf(),
            old(self)@.pane.controller.in_flight is None && old(self)@.pane.controller.queue.len()
                > 0 ==> {
                &&& r matches Some(req)
                &&& req@ == old(self)@.pane.controller.queue[0]
                &&& final(self)@ == old(self)@.with_controller(
                    old(self)@.pane.controller.started(),
                )
            },
            old(self)@.pane.controller.in_flight is Some || old(self)@.pane.controller.queue.len()
                == 0 ==> r is None && final(self)@ == old(self)@,
    {
        self.pane.start_next()
    }

    /// Applies the outcome of the request in flight. Every reported
    /// execution is checked; when one is refused, the first refusal is
    /// recorded as the error and the rows stay as they were.
    pub fn finish_load(&mut self, outcome: Result<Page<ExecutionInfo>, String>, now: u64)
        requires
            old(self).wf(),
            old(self)@.pane.controller.in_flight is Some,
        ensures
            final(self).wf(),
            old(self)@.load_finished(outcome, now, final(self)@),
    {
        match outcome {
            Err(m) => {
                self.pane.finish(Err(m), now);
            },
            Ok(page) => {
                let ghost infos = page.rows@;
                match executions_from_infos(page.rows) {
                    Ok(rows) => {
                        let ghost rv = rows@;
                        self.pane.finish(
                            Ok(Page { rows, next_page_token: page.next_page_token }),
                            now,
                        );
                        assert(all_checked(infos, rv));
                    },
                    Err(e) => {
                        let m = e.message();
                        self.pane.finish(Err(m), now);
                        proof {
                            let k = choose|k: int|
                                0 <= k < infos.len() && execution_of(#[trigger] infos[k])
                                    == Err::<WorkflowExecution, ConversionError>(e) && forall|
                                    i: int,
                                | 0 <= i < k ==> #[trigger] execution_of(infos[i]) is Ok;
                            assert(first_refused(infos, k, e));
                        }
                    },
                }
            },
        }
    }

    /// Handles a key press in normal mode: Control-q turns to query mode,
    /// `j` or down moves forward, `k` or up moves back, Control-r reloads,
    /// and Enter asks to open the highlighted execution.
    pub fn handle_normal_key(&mut self, key: Key) -> (r: KeyOutcome)
        requires
            old(self).wf(),
        ensures
            final(self).wf(),
            old(self)@.normal_key_step(key, final(self)@, r),
    {
        if key.ctrl_with('q') {
            self.mode = Mode::Query;
            KeyOutcome::Done
        } else if key.down() {
            let a = self.next_row();
            outcome_of_advance(a)
        } else if key.up() {
            self.previous_row();
            KeyOutcome::Done
        } else if key.ctrl_with('r') {
            if self.reload() {
                KeyOutcome::Done
            } else {
                KeyOutcome::Busy
            }
        } else if key.code == KeyCode::Enter {
            if self.pane.selected().is_some() {
                KeyOutcome::Switched
            } else {
                KeyOutcome::Ignored
            }
        } else {
            KeyOutcome::Ignored
        }
    }

    /// Handles a key press in query mode: Control-q turns to normal mode,
    /// Control-r reloads under the filter typed so far, and characters,
    /// Backspace, Left and Right edit the filter.
    pub fn handle_query_key(&mut self, key: Key) -> (r: KeyOutcome)
        requires
            old(self).wf(),
        ensures
            final(self).wf(),
            old(self)@.query_key_step(key, final(self)@, r),
    {
        if key.ctrl_with('q') {
            self.mode = Mode::Normal;
            KeyOutcome::Done
        } else if key.ctrl_with('r') {
            if self.reload() {
                KeyOutcome::Done
            } else {
                KeyOutcome::Busy
            }
        } else {
            match key.code {
                KeyCode::Char(_) | KeyCode::Backspace | KeyCode::Left | KeyCode::Right => {
                    self.query.handle_key(key);
                    KeyOutcome::Done
                },
                _ => KeyOutcome::Ignored,
            }
        }
    }
}

} // verus!
