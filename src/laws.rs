use vstd::prelude::*;

use crate::collection::token_cursor;
use crate::controller::{is_stale, ControllerView, InFlight, Page, RequestView};
use crate::loading::{LoadingState, MessageView};
use crate::keys::{is_down, Key, KeyOutcome};
use crate::execution::{execution_of, ConversionError, ExecutionInfo, WorkflowExecution};
use crate::pane::PaneView;
use crate::table::{all_checked, TableView};
use crate::workflow::{description_error, kept_events, DescribeInfo, HistoryEventInfo, WorkflowView};
use crate::selection::{advanced, resumed, retreated, Advance, SelectionView};

verus! {

/// When a reload's response is applied, the rows become exactly the
/// response's rows and the cursor becomes the response's token: no row that
/// was loaded before can be seen afterwards unless the response carries it.
pub proof fn law_reload_replaces_rows<T>(c: ControllerView<T>, page: Page<T>, now: u64)
    requires
        c.wf(),
        c.in_flight matches Some(f) && f.reload,
    ensures
        c.finished(Ok(page), now).collection.rows == page.rows@,
        c.finished(Ok(page), now).collection.cursor == token_cursor(page.next_page_token@),
{
}

/// When a page's response is applied, every row loaded before stays where it
/// was, and the new rows follow them in the order the page gave them.
pub proof fn law_page_appends_rows<T>(c: ControllerView<T>, page: Page<T>, now: u64)
    requires
        c.wf(),
        c.in_flight matches Some(f) && !f.reload && !is_stale(f, c.latest_reload),
    ensures
        ({
            let after = c.finished(Ok(page), now).collection.rows;
            &&& after.len() == c.collection.rows.len() + page.rows@.len()
            &&& forall|i: int| 0 <= i < c.collection.rows.len() ==> #[trigger] after[i]
                == c.collection.rows[i]
            &&& forall|i: int|
                0 <= i < page.rows@.len() ==> after[c.collection.rows.len() + i]
                    == #[trigger] page.rows@[i]
        }),
{
}

/// After a response is applied, the collection is exhausted exactly when the
/// response's continuation token was empty.
pub proof fn law_exhausted_iff_empty_token<T>(c: ControllerView<T>, page: Page<T>, now: u64)
    requires
        c.wf(),
        c.in_flight matches Some(f) && !is_stale(f, c.latest_reload),
    ensures
        (c.finished(Ok(page), now).collection.cursor is None) <==> page.next_page_token@.len()
            == 0,
{
}

/// A forward move from the last row loaded, while pages remain and no reload
/// is pending, queues exactly one request, for the page at the cursor, and
/// changes nothing else. The move stays
/// blocked while that request is pending; serving it records `PageLoaded` or
/// `Error`, and only then does the move complete.
pub proof fn law_advance_on_last_row_fetches_once<T>(
    s: SelectionView,
    c: ControllerView<T>,
    outcome: Result<Page<T>, String>,
    now: u64,
)
    requires
        c.wf(),
        s.awaiting is None,
        c.collection.rows.len() > 0,
        s.index == Some((c.collection.rows.len() - 1) as usize),
        c.collection.cursor is Some,
        c.has_room(),
        !c.reload_pending(),
    ensures
        ({
            let (s1, c1, r) = advanced(s, c);
            &&& r == Advance::Waiting
            &&& s1.index == s.index
            &&& c1.collection == c.collection
            &&& c1.state == c.state
            &&& c1.queue == c.queue.push(
                RequestView {
                    seq: c.issued,
                    message: MessageView::LoadPage { page_token: c.collection.cursor->0 },
                    filter: c.filter,
                },
            )
            &&& forall|c2: ControllerView<T>| !c2.settled(c.issued) ==> #[trigger] resumed(s1, c2) == (s1, false)
            &&& forall|c2: ControllerView<T>|
                c2.wf() && #[trigger] c2.in_flight == Some(InFlight { seq: c.issued, reload: false })
                    && !is_stale(c2.in_flight->0, c2.latest_reload) ==> {
                    let c3 = c2.finished(outcome, now);
                    &&& !c2.settled(c.issued)
                    &&& c3.settled(c.issued)
                    &&& (c3.state is PageLoaded || c3.state is Error)
                    &&& resumed(s1, c3).1
                }
        }),
{
}

/// A forward move from the last row of an exhausted collection wraps to the
/// first row and asks for nothing.
pub proof fn law_advance_wraps_when_exhausted<T>(s: SelectionView, c: ControllerView<T>)
    requires
        s.awaiting is None,
        s.index matches Some(i) && i + 1 == c.collection.rows.len(),
        c.collection.cursor is None,
    ensures
        advanced(s, c) == (SelectionView { index: Some(0), awaiting: None }, c, Advance::Moved),
{
}

/// A backward move from the first row wraps to the last row, and leaves any
/// awaited page as it was.
pub proof fn law_retreat_wraps_to_last(s: SelectionView, len: nat)
    requires
        len > 0,
        s.index == Some(0usize),
        len <= usize::MAX,
    ensures
        retreated(s, len).index == Some((len - 1) as usize),
        retreated(s, len).awaiting == s.awaiting,
{
}

/// A page response whose request was submitted before the newest reload is
/// dropped, whatever it holds: the rows, cursor and state stay as they were.
pub proof fn law_superseded_page_is_dropped<T>(
    c: ControllerView<T>,
    outcome: Result<Page<T>, String>,
    now: u64,
)
    requires
        c.wf(),
        c.in_flight matches Some(f) && !f.reload,
        c.latest_reload matches Some(r) && r > c.in_flight->0.seq,
    ensures
        c.finished(outcome, now).collection == c.collection,
        c.finished(outcome, now).state == c.state,
        c.finished(outcome, now).queue == c.queue,
{
}

/// A reload submitted while a page load is in flight, with nothing else
/// waiting: both are served in submission order, the page's response is
/// dropped, and the rows end as exactly the reload's rows.
pub proof fn law_reload_during_page_load<T>(
    c: ControllerView<T>,
    filter: Seq<char>,
    page_outcome: Result<Page<T>, String>,
    reload_page: Page<T>,
    now: u64,
)
    requires
        c.wf(),
        c.in_flight matches Some(f) && !f.reload,
        c.queue.len() == 0,
        c.has_room(),
    ensures
        ({
            let c1 = c.reloaded(filter);
            let c2 = c1.finished(page_outcome, now);
            let c3 = c2.started();
            let c4 = c3.finished(Ok(reload_page), now);
            &&& c2.collection == c.collection
            &&& c3.in_flight == Some(InFlight { seq: c.issued, reload: true })
            &&& c3.queue.len() == 0
            &&& c4.collection.rows == reload_page.rows@
            &&& c4.collection.cursor == token_cursor(reload_page.next_page_token@)
            &&& c4.state == LoadingState::Reloaded
        }),
{
    let c1 = c.reloaded(filter);
    assert(c1.queue[0].seq == c.issued);
}

/// When a reload's rows reach a view, the highlight moves to the first row,
/// or to none when the reload brought no rows, no forward move is left
/// waiting, and the highlight stays within the rows.
pub proof fn law_reload_resets_highlight<T>(
    p: PaneView<T>,
    rows: Seq<T>,
    token: Seq<u8>,
    now: u64,
)
    requires
        p.wf(),
        p.controller.in_flight matches Some(f) && f.reload,
    ensures
        p.applied(rows, token, now).selection.index == (if rows.len() > 0 {
            Some(0usize)
        } else {
            None
        }),
        p.applied(rows, token, now).selection.awaiting is None,
        p.applied(rows, token, now).wf(),
{
}

/// Whatever a response brings, the highlight of a view stays within its
/// rows.
pub proof fn law_highlight_stays_within_rows<T>(
    p: PaneView<T>,
    outcome: Result<Page<T>, String>,
    now: u64,
)
    requires
        p.wf(),
        p.controller.in_flight is Some,
    ensures
        p.finished(outcome, now).wf(),
{
}

/// The checked executions of a page are determined by the page.
proof fn lemma_checked_unique(
    infos: Seq<ExecutionInfo>,
    rows: Seq<WorkflowExecution>,
    other: Seq<WorkflowExecution>,
)
    requires
        all_checked(infos, rows),
        all_checked(infos, other),
    ensures
        rows == other,
{
    assert forall|i: int| 0 <= i < rows.len() implies rows[i] == other[i] by {
        assert(execution_of(infos[i]) == Ok::<WorkflowExecution, ConversionError>(rows[i]));
        assert(execution_of(infos[i]) == Ok::<WorkflowExecution, ConversionError>(other[i]));
    }
    assert(rows =~= other);
}

/// The rows the list shows once a page of checked executions `rows` was
/// applied, when every report of the page checks.
proof fn lemma_list_applied(
    t: TableView,
    page: Page<ExecutionInfo>,
    rows: Seq<WorkflowExecution>,
    now: u64,
    after: TableView,
)
    requires
        all_checked(page.rows@, rows),
        t.load_finished(Ok(page), now, after),
    ensures
        after == t.with_pane(t.pane.applied(rows, page.next_page_token@, now)),
{
    assert forall|i: int| 0 <= i < page.rows@.len() implies #[trigger] execution_of(
        page.rows@[i],
    ) is Ok by {
        assert(execution_of(page.rows@[i]) == Ok::<WorkflowExecution, ConversionError>(rows[i]));
    }
    let other = choose|other: Seq<WorkflowExecution>|
        all_checked(page.rows@, other) && after == t.with_pane(
            t.pane.applied(other, page.next_page_token@, now),
        );
    lemma_checked_unique(page.rows@, rows, other);
}

/// When a reload of the execution list brings a page whose reports all
/// check, the list shows exactly those executions, takes the page's cursor,
/// and highlights the first of them, or nothing when there are none.
pub proof fn law_list_reload_replaces_rows(
    t: TableView,
    page: Page<ExecutionInfo>,
    rows: Seq<WorkflowExecution>,
    now: u64,
    after: TableView,
)
    requires
        t.wf(),
        t.pane.controller.in_flight matches Some(f) && f.reload,
        all_checked(page.rows@, rows),
        t.load_finished(Ok(page), now, after),
    ensures
        after.pane.controller.collection.rows == rows,
        after.pane.controller.collection.cursor == token_cursor(page.next_page_token@),
        after.pane.selection.index == (if rows.len() > 0 {
            Some(0usize)
        } else {
            None
        }),
{
    lemma_list_applied(t, page, rows, now, after);
}

/// When a page of the execution list brings reports that all check, and no
/// later reload superseded it, the executions shown before stay in order and
/// the new ones follow; the highlight stays where it was.
pub proof fn law_list_page_appends_rows(
    t: TableView,
    page: Page<ExecutionInfo>,
    rows: Seq<WorkflowExecution>,
    now: u64,
    after: TableView,
)
    requires
        t.wf(),
        t.pane.controller.in_flight matches Some(f) && !f.reload && !is_stale(
            f,
            t.pane.controller.latest_reload,
        ),
        all_checked(page.rows@, rows),
        t.load_finished(Ok(page), now, after),
    ensures
        after.pane.controller.collection.rows == t.pane.controller.collection.rows + rows,
        after.pane.controller.state == LoadingState::PageLoaded,
        after.pane.selection == t.pane.selection,
{
    lemma_list_applied(t, page, rows, now, after);
}

/// After a response whose reports all check is applied to the execution
/// list, the list is exhausted exactly when the response's token was empty.
pub proof fn law_list_exhausted_iff_empty_token(
    t: TableView,
    page: Page<ExecutionInfo>,
    rows: Seq<WorkflowExecution>,
    now: u64,
    after: TableView,
)
    requires
        t.wf(),
        t.pane.controller.in_flight matches Some(f) && !is_stale(
            f,
            t.pane.controller.latest_reload,
        ),
        all_checked(page.rows@, rows),
        t.load_finished(Ok(page), now, after),
    ensures
        (after.pane.controller.collection.cursor is None) <==> page.next_page_token@.len() == 0,
{
    lemma_list_applied(t, page, rows, now, after);
}

/// When a reload of a detail view brings a description that checks and a
/// first page of history, the history becomes exactly that page's events of
/// known type, and the view is exhausted exactly when its token was empty.
pub proof fn law_detail_reload_replaces_events<A>(
    w: WorkflowView<A>,
    info: DescribeInfo,
    page: Page<HistoryEventInfo<A>>,
    now: u64,
    after: WorkflowView<A>,
)
    requires
        w.wf(),
        w.pane.controller.in_flight matches Some(f) && f.reload,
        description_error(info) is None,
        w.reload_finished(Ok(info), Ok(page), now, after),
    ensures
        after.pane.controller.collection.rows == kept_events(page.rows@),
        after.pane.controller.collection.cursor == token_cursor(page.next_page_token@),
        (after.pane.controller.collection.cursor is None) <==> page.next_page_token@.len() == 0,
{
}

/// When a page of history that no later reload superseded arrives, the
/// events shown before stay in order and the page's events of known type
/// follow; the view is exhausted exactly when the page's token was empty.
pub proof fn law_detail_page_appends_events<A>(
    w: WorkflowView<A>,
    page: Page<HistoryEventInfo<A>>,
    now: u64,
    after: WorkflowView<A>,
)
    requires
        w.wf(),
        w.pane.controller.in_flight matches Some(f) && !f.reload && !is_stale(
            f,
            w.pane.controller.latest_reload,
        ),
        w.page_finished(Ok(page), now, after),
    ensures
        after.pane.controller.collection.rows == w.pane.controller.collection.rows + kept_events(
            page.rows@,
        ),
        (after.pane.controller.collection.cursor is None) <==> page.next_page_token@.len() == 0,
        after.pane.selection == w.pane.selection,
{
}

/// A down press on the last execution loaded, while pages remain and no
/// reload is pending, queues exactly one request, for the page at the
/// cursor, changes neither rows nor loading state, and waits: the highlight
/// stays until that request has been served.
pub proof fn law_list_down_on_last_row_fetches_once(
    t: TableView,
    key: Key,
    r: KeyOutcome,
    after: TableView,
)
    requires
        t.wf(),
        is_down(key),
        t.pane.selection.awaiting is None,
        t.pane.selection.index matches Some(i) && i + 1 == t.pane.controller.collection.rows.len(),
        t.pane.controller.can_request_page(),
        t.normal_key_step(key, after, r),
    ensures
        r == KeyOutcome::Waiting,
        after.pane.controller.queue == t.pane.controller.queue.push(
            RequestView {
                seq: t.pane.controller.issued,
                message: MessageView::LoadPage {
                    page_token: t.pane.controller.collection.cursor->0,
                },
                filter: t.pane.controller.filter,
            },
        ),
        after.pane.controller.collection == t.pane.controller.collection,
        after.pane.controller.state == t.pane.controller.state,
        after.pane.selection.index == t.pane.selection.index,
        after.pane.selection.awaiting == Some(t.pane.controller.issued),
{
}

/// A down press on the last history event loaded, while pages remain and no
/// reload is pending, queues exactly one request, for the page at the
/// cursor, and waits with the highlight where it was.
pub proof fn law_detail_down_on_last_row_fetches_once<A>(
    w: WorkflowView<A>,
    key: Key,
    r: KeyOutcome,
    after: WorkflowView<A>,
)
    requires
        w.wf(),
        is_down(key),
        w.pane.selection.awaiting is None,
        w.pane.selection.index matches Some(i) && i + 1 == w.pane.controller.collection.rows.len(),
        w.pane.controller.can_request_page(),
        w.key_step(key, after, r),
    ensures
        r == KeyOutcome::Waiting,
        after.pane.controller.queue == w.pane.controller.queue.push(
            RequestView {
                seq: w.pane.controller.issued,
                message: MessageView::LoadPage {
                    page_token: w.pane.controller.collection.cursor->0,
                },
                filter: w.pane.controller.filter,
            },
        ),
        after.pane.controller.collection == w.pane.controller.collection,
        after.pane.controller.state == w.pane.controller.state,
        after.pane.selection.index == w.pane.selection.index,
        after.pane.selection.awaiting == Some(w.pane.controller.issued),
{
}

} // verus!
