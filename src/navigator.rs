use vstd::prelude::*;

use crate::controller::{ControllerView, Page, Request, RequestView};
use crate::execution::ExecutionInfo;
use crate::keys::{is_quit, Key, KeyCode, KeyOutcome};
use crate::loading::{LoadingState, MessageView};
use crate::selection::resumed;
use crate::table::{Mode as TableMode, TableView, WorkflowTableWidget};
use crate::workflow::{DescribeInfo, HistoryEventInfo, WorkflowView, WorkflowWidget};

verus! {

/// The modes of the whole application, shown in its footer.
#[derive(Clone, Copy, Debug, PartialEq, Eq, Structural)]
pub enum Mode {
    /// Keys navigate.
    Normal,
    /// Keys are typed into an input.
    Insert,
}

impl Mode {
    pub fn as_str(&self) -> (r: &'static str)
        ensures
            r@ == match *self {
                Mode::Normal => "NORMAL"@,
                Mode::Insert => "INSERT"@,
            },
    {
        match self {
            Mode::Normal => "NORMAL",
            Mode::Insert => "INSERT",
        }
    }
}

/// The view on screen.
pub enum ViewWidget<A> {
    /// The detail view of one execution.
    Workflow(WorkflowWidget<A>),
    /// The list of executions.
    WorkflowTable(WorkflowTableWidget),
}

/// The view on screen, as mathematical values.
pub enum ViewModel<A> {
    Workflow(WorkflowView<A>),
    WorkflowTable(TableView),
}

impl<A> View for ViewWidget<A> {
    type V = ViewModel<A>;

    open spec fn view(&self) -> ViewModel<A> {
        match self {
            ViewWidget::Workflow(w) => ViewModel::Workflow(w@),
            ViewWidget::WorkflowTable(t) => ViewModel::WorkflowTable(t@),
        }
    }
}

impl<A> ViewModel<A> {
    pub open spec fn wf(self) -> bool {
        match self {
            ViewModel::Workflow(w) => w.wf(),
            ViewModel::WorkflowTable(t) => t.wf(),
        }
    }
}

/// A controller that was just made and asked for its first reload, under
/// `filter`.
pub open spec fn is_fresh_reloading<T>(c: ControllerView<T>, filter: Seq<char>) -> bool {
    &&& c.wf()
    &&& c.collection.rows.len() == 0
    &&& c.collection.cursor is None
    &&& c.state is Loading
    &&& c.queue == seq![RequestView { seq: 0, message: MessageView::Reload, filter }]
    &&& c.in_flight is None
    &&& c.issued == 1
    &&& c.completed == 0
    &&& c.latest_reload == Some(0u64)
    &&& c.filter == filter
    &&& c.last_reload_at is None
}

/// A list view that was just made and asked for its first page: normal
/// mode, empty filter, nothing highlighted.
pub open spec fn is_fresh_table(t: TableView, page_size: u32) -> bool {
    &&& t.wf()
    &&& is_fresh_reloading(t.pane.controller, Seq::empty())
    &&& t.pane.selection.index is None
    &&& t.pane.selection.awaiting is None
    &&& t.query.text is None
    &&& t.mode == TableMode::Normal
    &&& t.page_size == page_size
}

/// A detail view of `workflow_id`'s latest run that was just made and asked
/// for its first load.
pub open spec fn is_fresh_workflow<A>(w: WorkflowView<A>, workflow_id: Seq<char>) -> bool {
    &&& w.wf()
    &&& w.workflow_id == workflow_id
    &&& w.run_id is None
    &&& is_fresh_reloading(w.pane.controller, Seq::empty())
    &&& w.pane.selection.index is None
    &&& w.pane.selection.awaiting is None
    &&& w.execution is None
    &&& w.pending_activities.len() == 0
    &&& w.display_event is None
}

/// The epoch after `e`; epochs only tell views apart.
pub open spec fn next_epoch(e: u64) -> u64 {
    if e == u64::MAX {
        0
    } else {
        (e + 1) as u64
    }
}

/// Which view is shown, and which epoch it belongs to.
pub struct NavigatorView<A> {
    pub view: ViewModel<A>,
    pub epoch: u64,
    pub page_size: u32,
}

impl<A> NavigatorView<A> {
    /// `after` is this state once the list applied `outcome`: the same epoch,
    /// and the list as [`TableView::load_finished`] says.
    pub open spec fn list_finished(
        self,
        outcome: Result<Page<ExecutionInfo>, String>,
        now: u64,
        after: NavigatorView<A>,
    ) -> bool {
        &&& after.epoch == self.epoch
        &&& after.page_size == self.page_size
        &&& match (self.view, after.view) {
            (ViewModel::WorkflowTable(t), ViewModel::WorkflowTable(t2)) => t.load_finished(
                outcome,
                now,
                t2,
            ),
            _ => false,
        }
    }

    /// `after` is this state once the detail view applied a reload: the same
    /// epoch, and the view as [`WorkflowView::reload_finished`] says.
    pub open spec fn detail_reloaded(
        self,
        describe: Result<DescribeInfo, String>,
        history: Result<Page<HistoryEventInfo<A>>, String>,
        now: u64,
        after: NavigatorView<A>,
    ) -> bool {
        &&& after.epoch == self.epoch
        &&& after.page_size == self.page_size
        &&& match (self.view, after.view) {
            (ViewModel::Workflow(w), ViewModel::Workflow(w2)) => w.reload_finished(
                describe,
                history,
                now,
                w2,
            ),
            _ => false,
        }
    }

    /// `after` is this state once the detail view applied a page of
    /// history: the same epoch, and the view as
    /// [`WorkflowView::page_finished`] says.
    pub open spec fn detail_paged(
        self,
        history: Result<Page<HistoryEventInfo<A>>, String>,
        now: u64,
        after: NavigatorView<A>,
    ) -> bool {
        &&& after.epoch == self.epoch
        &&& after.page_size == self.page_size
        &&& match (self.view, after.view) {
            (ViewModel::Workflow(w), ViewModel::Workflow(w2)) => w.page_finished(history, now, w2),
            _ => false,
        }
    }

    /// The list is on screen, belongs to `epoch`, and has a request in
    /// flight.
    pub open spec fn list_awaits(self, epoch: u64) -> bool {
        &&& epoch == self.epoch
        &&& self.view matches ViewModel::WorkflowTable(t)
        &&& t.pane.controller.in_flight is Some
    }

    /// A detail view is on screen, belongs to `epoch`, and has in flight a
    /// reload (`reload`) or a page (`!reload`).
    pub open spec fn detail_awaits(self, epoch: u64, reload: bool) -> bool {
        &&& epoch == self.epoch
        &&& self.view matches ViewModel::Workflow(w)
        &&& w.pane.controller.in_flight matches Some(f)
        &&& f.reload == reload
    }
}

/// Moves between the list of executions and the detail of one. Each view
/// is made fresh when it is entered and owns its own controller; the epoch
/// changes with every change of view, so that a worker serving an older
/// view can tell that it has been retired.
pub struct ViewNavigator<A> {
    view: ViewWidget<A>,
    epoch: u64,
    page_size: u32,
}

impl<A> View for ViewNavigator<A> {
    type V = NavigatorView<A>;

    closed spec fn view(&self) -> NavigatorView<A> {
        NavigatorView { view: self.view@, epoch: self.epoch, page_size: self.page_size }
    }
}

fn fresh_table(page_size: u32) -> (r: WorkflowTableWidget)
    ensures
        is_fresh_table(r@, page_size),
{
    let mut t = WorkflowTableWidget::new(page_size);
    let _ = t.reload();
    proof {
        let f = t@.pane.controller.filter;
        assert(f.len() == 0);
        assert(f =~= Seq::<char>::empty());
        assert(t@.pane.controller.queue =~= seq![
            RequestView { seq: 0, message: MessageView::Reload, filter: Seq::<char>::empty() },
        ]);
    }
    t
}

fn fresh_workflow<A>(workflow_id: &str) -> (r: WorkflowWidget<A>)
    ensures
        is_fresh_workflow(r@, workflow_id@),
{
    let mut w = WorkflowWidget::new(workflow_id, None);
    let _ = w.reload();
    proof {
        assert(w@.pane.controller.queue =~= seq![
            RequestView { seq: 0, message: MessageView::Reload, filter: Seq::<char>::empty() },
        ]);
    }
    w
}

impl<A> ViewNavigator<A> {
    pub open spec fn wf(&self) -> bool {
        self@.view.wf()
    }

    /// Starts on a fresh list view that asks for `page_size` executions a
    /// page and has asked for its first page.
    pub fn new(page_size: u32) -> (r: Self)
        ensures
            r.wf(),
            r@.epoch == 0,
            r@.page_size == page_size,
            r@.view matches ViewModel::WorkflowTable(t) && is_fresh_table(t, page_size),
    {
        ViewNavigator {
            view: ViewWidget::WorkflowTable(fresh_table(page_size)),
            epoch: 0,
            page_size,
        }
    }

    pub fn active_view(&self) -> (r: &ViewWidget<A>)
        ensures
            r@ == self@.view,
    {
        &self.view
    }

    pub fn epoch(&self) -> (r: u64)
        ensures
            r == self@.epoch,
    {
        self.epoch
    }

    /// The application mode: inserting while the list takes filter text.
    pub fn mode(&self) -> (r: Mode)
        ensures
            r == match self@.view {
                ViewModel::WorkflowTable(t) => if t.mode == TableMode::Query {
                    Mode::Insert
                } else {
                    Mode::Normal
                },
                ViewModel::Workflow(_) => Mode::Normal,
            },
    {
        match &self.view {
            ViewWidget::WorkflowTable(t) => match t.mode() {
                TableMode::Query => Mode::Insert,
                TableMode::Normal => Mode::Normal,
            },
            ViewWidget::Workflow(_) => Mode::Normal,
        }
    }

    fn bump_epoch(&mut self)
        ensures
            final(self)@ == (NavigatorView { epoch: next_epoch(old(self)@.epoch), ..old(self)@ }),
    {
        self.epoch = if self.epoch == u64::MAX {
            0
        } else {
            self.epoch + 1
        };
    }

    /// Handles a key press. Control-c (or Control-C) quits anywhere. On the list, Enter
    /// on a highlighted execution opens a fresh detail view of it, and Esc
    /// in normal mode quits. On the detail view, Esc with no event expanded
    /// returns to a fresh list view. Every other press goes to the view on
    /// screen; a change of view moves to the next epoch.
    pub fn handle_key(&mut self, key: Key) -> (r: KeyOutcome)
        requires
            old(self).wf(),
        ensures
            final(self).wf(),
            final(self)@.page_size == old(self)@.page_size,
            is_quit(key) ==> r == KeyOutcome::Quit && final(self)@ == old(self)@,
            r == KeyOutcome::Switched <==> final(self)@.epoch != old(self)@.epoch,
            r == KeyOutcome::Switched ==> final(self)@.epoch == next_epoch(old(self)@.epoch),
            !is_quit(key) ==> match old(self)@.view {
                ViewModel::WorkflowTable(t) => {
                    &&& (t.mode == TableMode::Normal && key.code == KeyCode::Enter
                        && t.pane.selection.index is Some) ==> {
                        &&& r == KeyOutcome::Switched
                        &&& final(self)@.view matches ViewModel::Workflow(w) && is_fresh_workflow(
                            w,
                            t.selected_row()->0.workflow_id@,
                        )
                    }
                    &&& (t.mode == TableMode::Normal && key.code == KeyCode::Esc) ==> r
                        == KeyOutcome::Quit && final(self)@ == old(self)@
                    &&& (t.mode == TableMode::Normal && key.code != KeyCode::Esc && !(key.code
                        == KeyCode::Enter && t.pane.selection.index is Some)) ==> (
                    final(self)@.view matches ViewModel::WorkflowTable(t2)
                        && t.normal_key_step(key, t2, r) && final(self)@.epoch == old(self)@.epoch)
                    &&& t.mode == TableMode::Query ==> (
                    final(self)@.view matches ViewModel::WorkflowTable(t2)
                        && t.query_key_step(key, t2, r) && final(self)@.epoch == old(self)@.epoch)
                },
                ViewModel::Workflow(w) => {
                    &&& (key.code == KeyCode::Esc && w.display_event is None) ==> {
                        &&& r == KeyOutcome::Switched
                        &&& final(self)@.view matches ViewModel::WorkflowTable(t)
                            && is_fresh_table(t, old(self)@.page_size)
                    }
                    &&& !(key.code == KeyCode::Esc && w.display_event is None) ==> (
                    final(self)@.view matches ViewModel::Workflow(w2) && w.key_step(key, w2, r)
                        && final(self)@.epoch == old(self)@.epoch)
                },
            },
    {
        if key.quit() {
            return KeyOutcome::Quit;
        }
        let page_size = self.page_size;
        let mut open: Option<String> = None;
        let mut leave = false;
        let r = match &mut self.view {
            ViewWidget::WorkflowTable(t) => {
                let id = t.get_selected_workflow_id();
                let normal = t.mode() == TableMode::Normal;
                let r = if normal {
                    t.handle_normal_key(key)
                } else {
                    t.handle_query_key(key)
                };
                if r == KeyOutcome::Switched {
                    open = id;
                    r
                } else if normal && key.code == KeyCode::Esc {
                    KeyOutcome::Quit
                } else {
                    r
                }
            },
            ViewWidget::Workflow(w) => {
                let r = w.handle_key(key);
                if r == KeyOutcome::Leave {
                    leave = true;
                    KeyOutcome::Switched
                } else {
                    r
                }
            },
        };
        if leave {
            self.view = ViewWidget::WorkflowTable(fresh_table(page_size));
            self.bump_epoch();
            return KeyOutcome::Switched;
        }
        match open {
            Some(id) => {
                self.view = ViewWidget::Workflow(fresh_workflow(id.as_str()));
                self.bump_epoch();
                KeyOutcome::Switched
            },
            None => {
                if r == KeyOutcome::Switched {
                    KeyOutcome::Ignored
                } else {
                    r
                }
            },
        }
    }

    /// Completes a forward move that waits for a page, in the view on
    /// screen; true when none is left waiting.
    pub fn resume(&mut self) -> (r: bool)
        requires
            old(self).wf(),
        ensures
            final(self).wf(),
            final(self)@.epoch == old(self)@.epoch,
            final(self)@.page_size == old(self)@.page_size,
            match old(self)@.view {
                ViewModel::WorkflowTable(t) => {
                    let (s, done) = resumed(t.pane.selection, t.pane.controller);
                    r == done && final(self)@.view == ViewModel::<A>::WorkflowTable(
                        t.with_selection(s),
                    )
                },
                ViewModel::Workflow(w) => {
                    let (s, done) = resumed(w.pane.selection, w.pane.controller);
                    r == done && final(self)@.view == ViewModel::Workflow(w.with_selection(s))
                },
            },
    {
        match &mut self.view {
            ViewWidget::WorkflowTable(t) => t.resume_next_row(),
            ViewWidget::Workflow(w) => w.resume_next_row(),
        }
    }

    /// Hands the view's oldest waiting request to a worker of `epoch`; a
    /// worker of an older epoch gets nothing.
    pub fn start_next(&mut self, epoch: u64) -> (r: Option<Request>)
        requires
            old(self).wf(),
        ensures
            final(self).wf(),
            final(self)@.epoch == old(self)@.epoch,
            final(self)@.page_size == old(self)@.page_size,
            epoch != old(self)@.epoch ==> r is None && final(self)@ == old(self)@,
            epoch == old(self)@.epoch ==> match old(self)@.view {
                ViewModel::WorkflowTable(t) => {
                    let c = t.pane.controller;
                    if c.in_flight is None && c.queue.len() > 0 {
                        &&& r matches Some(req)
                        &&& req@ == c.queue[0]
                        &&& final(self)@.view == ViewModel::<A>::WorkflowTable(
                            t.with_controller(c.started()),
                        )
                    } else {
                        r is None && final(self)@ == old(self)@
                    }
                },
                ViewModel::Workflow(w) => {
                    let c = w.pane.controller;
                    if c.in_flight is None && c.queue.len() > 0 {
                        &&& r matches Some(req)
                        &&& req@ == c.queue[0]
                        &&& final(self)@.view == ViewModel::Workflow(w.with_controller(c.started()))
                    } else {
                        r is None && final(self)@ == old(self)@
                    }
                },
            },
    {
        if epoch != self.epoch {
            return None;
        }
        match &mut self.view {
            ViewWidget::WorkflowTable(t) => t.start_next(),
            ViewWidget::Workflow(w) => w.start_next(),
        }
    }

    /// Applies a page of the execution list fetched by a worker of `epoch`.
    /// Returns false, with nothing changed, when that worker is retired, the
    /// list is not on screen, or it has no request in flight.
    pub fn finish_list(
        &mut self,
        epoch: u64,
        outcome: Result<Page<ExecutionInfo>, String>,
        now: u64,
    ) -> (r: bool)
        requires
            old(self).wf(),
        ensures
            final(self).wf(),
            final(self)@.epoch == old(self)@.epoch,
            final(self)@.page_size == old(self)@.page_size,
            r == old(self)@.list_awaits(epoch),
            r ==> old(self)@.list_finished(outcome, now, final(self)@),
            !r ==> final(self)@ == old(self)@,
    {
        if epoch != self.epoch {
            return false;
        }
        match &mut self.view {
            ViewWidget::WorkflowTable(t) => {
                if !t.pane().controller().has_in_flight() {
                    return false;
                }
                t.finish_load(outcome, now);
                true
            },
            ViewWidget::Workflow(_) => false,
        }
    }

    /// Applies the reload of a detail view fetched by a worker of `epoch`.
    /// Returns false, with nothing changed, when that worker is retired, no
    /// detail view is on screen, or its request in flight is not a reload.
    pub fn finish_workflow_reload(
        &mut self,
        epoch: u64,
        describe: Result<DescribeInfo, String>,
        history: Result<Page<HistoryEventInfo<A>>, String>,
        now: u64,
    ) -> (r: bool)
        requires
            old(self).wf(),
        ensures
            final(self).wf(),
            final(self)@.epoch == old(self)@.epoch,
            final(self)@.page_size == old(self)@.page_size,
            r == old(self)@.detail_awaits(epoch, true),
            r ==> old(self)@.detail_reloaded(describe, history, now, final(self)@),
            !r ==> final(self)@ == old(self)@,
    {
        if epoch != self.epoch {
            return false;
        }
        match &mut self.view {
            ViewWidget::Workflow(w) => {
                match w.pane().controller().in_flight_is_reload() {
                    Some(true) => {},
                    _ => {
                        return false;
                    },
                }
                w.finish_reload(describe, history, now);
                true
            },
            ViewWidget::WorkflowTable(_) => false,
        }
    }

    /// Applies a page of history fetched by a worker of `epoch`. Returns
    /// false, with nothing changed, when that worker is retired, no detail
    /// view is on screen, or its request in flight is not a page.
    pub fn finish_workflow_page(
        &mut self,
        epoch: u64,
        history: Result<Page<HistoryEventInfo<A>>, String>,
        now: u64,
    ) -> (r: bool)
        requires
            old(self).wf(),
        ensures
            final(self).wf(),
            final(self)@.epoch == old(self)@.epoch,
            final(self)@.page_size == old(self)@.page_size,
            r == old(self)@.detail_awaits(epoch, false),
            r ==> old(self)@.detail_paged(history, now, final(self)@),
            !r ==> final(self)@ == old(self)@,
    {
        if epoch != self.epoch {
            return false;
        }
        match &mut self.view {
            ViewWidget::Workflow(w) => {
                match w.pane().controller().in_flight_is_reload() {
                    Some(false) => {},
                    _ => {
                        return false;
                    },
                }
                w.finish_page(history, now);
                true
            },
            ViewWidget::WorkflowTable(_) => false,
        }
    }
}

} // verus!
