use vstd::prelude::*;

use crate::controller::{Page, Request};
use crate::keys::{advance_outcome, is_ctrl, is_down, is_up, outcome_of_advance, Key, KeyCode, KeyOutcome};
use crate::execution::{
    conversion_message, execution_of, ConversionError, ExecutionInfo, Timestamp,
    WorkflowExecution,
};
use crate::controller::ControllerView;
use crate::pane::{Pane, PaneView};
use crate::selection::{advanced, resumed, retreated, Advance, SelectionView};

verus! {

/// The state of an activity that has not finished.
#[derive(Clone, Copy, Debug, PartialEq, Eq, Structural)]
pub enum PendingActivityState {
    Unspecified,
    Scheduled,
    Started,
    CancelRequested,
}

/// The state that a wire code stands for.
pub open spec fn activity_state_of_code(code: i32) -> Option<PendingActivityState> {
    if code == 0 {
        Some(PendingActivityState::Unspecified)
    } else if code == 1 {
        Some(PendingActivityState::Scheduled)
    } else if code == 2 {
        Some(PendingActivityState::Started)
    } else if code == 3 {
        Some(PendingActivityState::CancelRequested)
    } else {
        None
    }
}

impl PendingActivityState {
    pub fn as_str(&self) -> (r: &'static str)
        ensures
            r@ == match *self {
                PendingActivityState::Unspecified => "Unspecified"@,
                PendingActivityState::Scheduled => "Scheduled"@,
                PendingActivityState::Started => "Started"@,
                PendingActivityState::CancelRequested => "CancelRequested"@,
            },
    {
        match self {
            PendingActivityState::Unspecified => "Unspecified",
            PendingActivityState::Scheduled => "Scheduled",
            PendingActivityState::Started => "Started",
            PendingActivityState::CancelRequested => "CancelRequested",
        }
    }

    /// The state for a wire code; an unknown code is refused.
    pub fn try_from_code(code: i32) -> (r: Result<Self, ConversionError>)
        ensures
            match activity_state_of_code(code) {
                Some(s) => r == Ok::<Self, ConversionError>(s),
                None => r == Err::<Self, ConversionError>(ConversionError::InvalidActivityState),
            },
    {
        match code {
            0 => Ok(PendingActivityState::Unspecified),
            1 => Ok(PendingActivityState::Scheduled),
            2 => Ok(PendingActivityState::Started),
            3 => Ok(PendingActivityState::CancelRequested),
            _ => Err(ConversionError::InvalidActivityState),
        }
    }
}

/// An opaque payload: metadata entries, data bytes, and the title it is
/// shown under.
pub struct Payload {
    pub metadata: Vec<(String, Vec<u8>)>,
    pub data: Vec<u8>,
    pub title: Option<String>,
}

impl Payload {
    /// A payload without a title.
    pub fn new(metadata: Vec<(String, Vec<u8>)>, data: Vec<u8>) -> (r: Self)
        ensures
            r.metadata == metadata,
            r.data == data,
            r.title is None,
    {
        Payload { metadata, data, title: None }
    }

    /// The same payload, shown under `title`.
    pub fn with_title(self, title: &str) -> (r: Self)
        ensures
            r.metadata == self.metadata,
            r.data == self.data,
            r.title matches Some(t) && t@ == title@,
    {
        Payload { title: Some(title.to_owned()), ..self }
    }
}

/// The last failure of an activity.
pub struct Failure {
    pub message: String,
    pub source: String,
    pub stack_trace: String,
}

/// What the service reports about a pending activity, before it is checked.
pub struct PendingActivityInfo {
    pub activity_id: String,
    pub activity_type: Option<String>,
    pub state: i32,
    pub heartbeat_details: Option<Vec<Payload>>,
    pub last_heartbeat_time: Option<Timestamp>,
    pub last_started_time: Option<Timestamp>,
    pub attempt: i32,
    pub maximum_attempts: i32,
    pub scheduled_time: Option<Timestamp>,
    pub expiration_time: Option<Timestamp>,
    pub last_failure: Option<Failure>,
    pub last_worker_identity: String,
    pub last_attempt_complete_time: Option<Timestamp>,
    pub next_attempt_schedule_time: Option<Timestamp>,
}

/// A pending activity, checked.
pub struct PendingActivity {
    pub id: String,
    pub activity_type: Option<String>,
    pub state: PendingActivityState,
    pub heartbeat_details: Option<Vec<Payload>>,
    pub last_heartbeat_time: Option<Timestamp>,
    pub last_started_time: Option<Timestamp>,
    pub attempt: u32,
    pub maximum_attempts: u32,
    pub scheduled_time: Option<Timestamp>,
    pub expiration_time: Option<Timestamp>,
    pub last_failure: Option<Failure>,
    pub last_worker_identity: String,
    pub last_attempt_complete_time: Option<Timestamp>,
    pub next_attempt_schedule_time: Option<Timestamp>,
}

/// The title that heartbeat details are shown under.
pub const HEARTBEAT_TITLE: &'static str = "Heartbeat details";

/// Each payload, in order, shown under `title`.
pub open spec fn titled(payloads: Seq<Payload>, title: Seq<char>, out: Seq<Payload>) -> bool {
    &&& out.len() == payloads.len()
    &&& forall|i: int|
        0 <= i < payloads.len() ==> {
            &&& (#[trigger] out[i]).metadata == payloads[i].metadata
            &&& out[i].data == payloads[i].data
            &&& out[i].title matches Some(t) && t@ == title
        }
}

/// Gives every payload `title`, keeping their order.
pub fn with_titles(payloads: Vec<Payload>, title: &str) -> (r: Vec<Payload>)
    ensures
        titled(payloads@, title@, r@),
{
    let ghost all = payloads@;
    let mut rest = payloads;
    let mut out: Vec<Payload> = Vec::new();
    while rest.len() > 0
        invariant
            all == payloads@,
            out@.len() + rest@.len() == all.len(),
            rest@ == all.subrange(out@.len() as int, all.len() as int),
            forall|i: int|
                0 <= i < out@.len() ==> {
                    &&& (#[trigger] out@[i]).metadata == all[i].metadata
                    &&& out@[i].data == all[i].data
                    &&& out@[i].title matches Some(t) && t@ == title@
                },
        decreases rest@.len(),
    {
        let p = rest.remove(0);
        assert(all[out@.len() as int] == p);
        out.push(p.with_title(title));
        assert(rest@ =~= all.subrange(out@.len() as int, all.len() as int));
    }
    out
}

/// `a` is the checked form of `info`.
pub open spec fn activity_from(info: PendingActivityInfo, a: PendingActivity) -> bool {
    &&& activity_state_of_code(info.state) == Some(a.state)
    &&& a.id == info.activity_id
    &&& a.activity_type == info.activity_type
    &&& (info.heartbeat_details matches Some(h) ==> a.heartbeat_details matches Some(d) && titled(
        h@,
        HEARTBEAT_TITLE@,
        d@,
    ))
    &&& (info.heartbeat_details is None ==> a.heartbeat_details is None)
    &&& a.last_heartbeat_time == info.last_heartbeat_time
    &&& a.last_started_time == info.last_started_time
    &&& a.attempt == info.attempt as u32
    &&& a.maximum_attempts == info.maximum_attempts as u32
    &&& a.scheduled_time == info.scheduled_time
    &&& a.expiration_time == info.expiration_time
    &&& a.last_failure == info.last_failure
    &&& a.last_worker_identity == info.last_worker_identity
    &&& a.last_attempt_complete_time == info.last_attempt_complete_time
    &&& a.next_attempt_schedule_time == info.next_attempt_schedule_time
}

impl PendingActivity {
    /// Checks a reported pending activity: its state must be a known one.
    /// Heartbeat details are shown under [`HEARTBEAT_TITLE`].
    pub fn try_from_info(info: PendingActivityInfo) -> (r: Result<Self, ConversionError>)
        ensures
            activity_state_of_code(info.state) is None ==> r == Err::<Self, ConversionError>(
                ConversionError::InvalidActivityState,
            ),
            activity_state_of_code(info.state) is Some ==> (r matches Ok(a) && activity_from(
                info,
                a,
            )),
    {
        let state = match PendingActivityState::try_from_code(info.state) {
            Ok(s) => s,
            Err(e) => {
                return Err(e);
            },
        };
        let heartbeat_details = match info.heartbeat_details {
            Some(h) => Some(with_titles(h, HEARTBEAT_TITLE)),
            None => None,
        };
        Ok(
            PendingActivity {
                id: info.activity_id,
                activity_type: info.activity_type,
                state,
                heartbeat_details,
                last_heartbeat_time: info.last_heartbeat_time,
                last_started_time: info.last_started_time,
                attempt: info.attempt as u32,
                maximum_attempts: info.maximum_attempts as u32,
                scheduled_time: info.scheduled_time,
                expiration_time: info.expiration_time,
                last_failure: info.last_failure,
                last_worker_identity: info.last_worker_identity,
                last_attempt_complete_time: info.last_attempt_complete_time,
                next_attempt_schedule_time: info.next_attempt_schedule_time,
            },
        )
    }
}

/// Checks every reported pending activity, keeping their order; an unknown
/// state anywhere refuses them all.
pub fn activities_from_infos(infos: Vec<PendingActivityInfo>) -> (r: Result<
    Vec<PendingActivity>,
    ConversionError,
>)
    ensures
        (forall|i: int| 0 <= i < infos@.len() ==> (activity_state_of_code(
            #[trigger] infos@[i].state,
        ) is Some)) ==> (r matches Ok(v) && v@.len() == infos@.len() && forall|i: int|
            0 <= i < infos@.len() ==> activity_from(#[trigger] infos@[i], v@[i])),
        !(forall|i: int| 0 <= i < infos@.len() ==> (activity_state_of_code(
            #[trigger] infos@[i].state,
        ) is Some)) ==> r == Err::<Vec<PendingActivity>, ConversionError>(
            ConversionError::InvalidActivityState,
        ),
{
    let ghost all = infos@;
    let mut rest = infos;
    let mut out: Vec<PendingActivity> = Vec::new();
    while rest.len() > 0
        invariant
            all == infos@,
            out@.len() + rest@.len() == all.len(),
            rest@ == all.subrange(out@.len() as int, all.len() as int),
            forall|i: int| 0 <= i < out@.len() ==> activity_from(#[trigger] all[i], out@[i]),
        decreases rest@.len(),
    {
        let info = rest.remove(0);
        let ghost k = out@.len() as int;
        assert(all[k] == info);
        match PendingActivity::try_from_info(info) {
            Ok(a) => {
                out.push(a);
                assert(rest@ =~= all.subrange(out@.len() as int, all.len() as int));
            },
            Err(e) => {
                assert(activity_state_of_code(all[k].state) is None);
                return Err(e);
            },
        }
    }
    Ok(out)
}

/// What the service reports about one event of an execution's history. Its
/// type is given by name, or is `None` when the type is unknown.
pub struct HistoryEventInfo<A> {
    pub event_id: i64,
    pub event_time: Option<Timestamp>,
    pub event_type: Option<String>,
    pub attributes: A,
}

/// One event of an execution's history, with the attributes it carries.
pub struct HistoryEvent<A> {
    pub id: i64,
    pub time: Option<Timestamp>,
    pub event_type: String,
    pub attributes: A,
}

impl<A> HistoryEvent<A> {
    /// When the event happened, as [`crate::execution::time_text`] writes it.
    pub fn time_as_string(&self) -> (r: String)
        ensures
            r@ == crate::execution::time_text(self.time),
    {
        crate::execution::time_as_string(self.time)
    }

    /// The event's type as a label, such as "Workflow Execution Started".
    pub fn type_as_string(&self) -> (r: String)
        ensures
            r@ == crate::label::event_type_label(self.event_type@),
    {
        crate::label::type_label(self.event_type.as_str())
    }
}

/// The events of known type among `s`, in order.
pub open spec fn kept_events<A>(s: Seq<HistoryEventInfo<A>>) -> Seq<HistoryEvent<A>>
    decreases s.len(),
{
    if s.len() == 0 {
        Seq::empty()
    } else {
        let e = s.last();
        let before = kept_events(s.drop_last());
        match e.event_type {
            Some(t) => before.push(
                HistoryEvent { id: e.event_id, time: e.event_time, event_type: t, attributes: e.attributes },
            ),
            None => before,
        }
    }
}

/// Keeps the events of known type, in order, and skips the others.
pub fn events_from_history<A>(infos: Vec<HistoryEventInfo<A>>) -> (r: Vec<HistoryEvent<A>>)
    ensures
        r@ == kept_events(infos@),
{
    let ghost all = infos@;
    let mut rest = infos;
    let mut out: Vec<HistoryEvent<A>> = Vec::new();
    let ghost mut k: int = 0;
    while rest.len() > 0
        invariant
            all == infos@,
            0 <= k <= all.len(),
            rest@ == all.subrange(k, all.len() as int),
            out@ == kept_events(all.subrange(0, k)),
        decreases rest@.len(),
    {
        let info = rest.remove(0);
        assert(all[k] == info);
        assert(all.subrange(0, k + 1).drop_last() =~= all.subrange(0, k));
        assert(all.subrange(0, k + 1).last() == info);
        match info.event_type {
            Some(t) => {
                out.push(
                    HistoryEvent {
                        id: info.event_id,
                        time: info.event_time,
                        event_type: t,
                        attributes: info.attributes,
                    },
                );
            },
            None => {},
        }
        proof {
            k = k + 1;
        }
        assert(rest@ =~= all.subrange(k, all.len() as int));
    }
    assert(all.subrange(0, k) =~= all);
    out
}

/// What the service reports when asked to describe one execution.
pub struct DescribeInfo {
    pub execution: Option<ExecutionInfo>,
    pub pending_activities: Vec<PendingActivityInfo>,
}

/// A described execution, checked.
pub struct Description {
    pub execution: WorkflowExecution,
    pub pending_activities: Vec<PendingActivity>,
}

/// The error, if any, that refuses a description: no execution, then what is
/// wrong with the execution, then an unknown activity state.
pub open spec fn description_error(info: DescribeInfo) -> Option<ConversionError> {
    match info.execution {
        None => Some(ConversionError::UnknownExecution),
        Some(e) => match execution_of(e) {
            Err(err) => Some(err),
            Ok(_) => if forall|i: int|
                0 <= i < info.pending_activities@.len() ==> (activity_state_of_code(
                    #[trigger] info.pending_activities@[i].state,
                ) is Some) {
                None
            } else {
                Some(ConversionError::InvalidActivityState)
            },
        },
    }
}

impl Description {
    /// Checks a description; see [`description_error`].
    pub fn try_from_info(info: DescribeInfo) -> (r: Result<Self, ConversionError>)
        ensures
            match description_error(info) {
                Some(e) => r == Err::<Self, ConversionError>(e),
                None => r matches Ok(d) && {
                    &&& Ok::<WorkflowExecution, ConversionError>(d.execution) == execution_of(
                        info.execution->0,
                    )
                    &&& d.pending_activities@.len() == info.pending_activities@.len()
                    &&& forall|i: int|
                        0 <= i < info.pending_activities@.len() ==> activity_from(
                            #[trigger] info.pending_activities@[i],
                            d.pending_activities@[i],
                        )
                },
            },
    {
        let execution = match info.execution {
            Some(e) => match WorkflowExecution::try_from_info(e) {
                Ok(x) => x,
                Err(err) => {
                    return Err(err);
                },
            },
            None => {
                return Err(ConversionError::UnknownExecution);
            },
        };
        match activities_from_infos(info.pending_activities) {
            Ok(pending_activities) => Ok(Description { execution, pending_activities }),
            Err(err) => Err(err),
        }
    }
}

/// The detail view of one execution, as mathematical values.
pub struct WorkflowView<A> {
    pub workflow_id: Seq<char>,
    pub run_id: Option<Seq<char>>,
    pub pane: PaneView<HistoryEvent<A>>,
    pub execution: Option<WorkflowExecution>,
    pub pending_activities: Seq<PendingActivity>,
    /// The history event shown expanded, if any.
    pub display_event: Option<usize>,
}

impl<A> WorkflowView<A> {
    pub open spec fn with_pane(self, pane: PaneView<HistoryEvent<A>>) -> WorkflowView<A> {
        WorkflowView { pane, ..self }
    }

    pub open spec fn with_controller(self, c: ControllerView<HistoryEvent<A>>) -> WorkflowView<A> {
        WorkflowView { pane: PaneView { controller: c, ..self.pane }, ..self }
    }

    pub open spec fn with_selection(self, s: SelectionView) -> WorkflowView<A> {
        WorkflowView { pane: PaneView { selection: s, ..self.pane }, ..self }
    }

    pub open spec fn with_display(self, d: Option<usize>) -> WorkflowView<A> {
        WorkflowView { display_event: d, ..self }
    }

    /// The expanded event after Enter: the highlighted one, if any.
    pub open spec fn display_after_enter(self) -> Option<usize> {
        match self.pane.selection.index {
            Some(i) => Some(i),
            None => self.display_event,
        }
    }

    /// What a key press does: `after` is the view after it and `r` its
    /// outcome.
    pub open spec fn key_step(self, key: Key, after: WorkflowView<A>, r: KeyOutcome) -> bool {
        &&& (is_down(key) ==> {
            let (s, c, a) = advanced(self.pane.selection, self.pane.controller);
            &&& r == advance_outcome(a)
            &&& after == self.with_controller(c).with_selection(s)
        })
        &&& (!is_down(key) && is_up(key) ==> r == KeyOutcome::Done && after == self.with_selection(
            retreated(
                self.pane.selection,
                self.pane.controller.collection.rows.len(),
            ),
        ))
        &&& (!is_down(key) && !is_up(key) && is_ctrl(key, 'r') ==> {
            &&& self.pane.controller.has_room() ==> r == KeyOutcome::Done && after
                == self.with_controller(self.pane.controller.reloaded(Seq::empty()))
            &&& !self.pane.controller.has_room() ==> r == KeyOutcome::Busy
                && after == self
        })
        &&& (!is_down(key) && !is_up(key) && !is_ctrl(key, 'r') && key.code == KeyCode::Enter
            ==> r == KeyOutcome::Done && after == self.with_display(
            self.display_after_enter(),
        ))
        &&& (!is_down(key) && !is_up(key) && !is_ctrl(key, 'r') && key.code == KeyCode::Esc ==> {
            &&& self.display_event is Some ==> r == KeyOutcome::Done && after
                == self.with_display(None)
            &&& self.display_event is None ==> r == KeyOutcome::Leave && after
                == self
        })
        &&& (!is_down(key) && !is_up(key) && !is_ctrl(key, 'r') && key.code != KeyCode::Enter
            && key.code != KeyCode::Esc ==> r == KeyOutcome::Ignored && after == self)
    }

    /// The view after a reload ended with the description `describe` and the
    /// first page of history `history`, `now` being the caller's clock
    /// reading. Any failure, or a description that does not check, is
    /// recorded as an error and changes nothing else; otherwise the
    /// description is taken and the events of known type replace the history.
    pub open spec fn reload_finished(
        self,
        describe: Result<DescribeInfo, String>,
        history: Result<Page<HistoryEventInfo<A>>, String>,
        now: u64,
        after: WorkflowView<A>,
    ) -> bool {
        &&& (after.workflow_id == self.workflow_id)
        &&& (after.run_id == self.run_id)
        &&& (after.display_event == kept_display(
            self.display_event,
            after.pane.controller.collection.rows.len(),
        ))
        &&& (match describe {
            Err(m) => {
                &&& after.pane == self.pane.failed(m)
                &&& after.execution == self.execution
                &&& after.pending_activities == self.pending_activities
            },
            Ok(info) => match description_error(info) {
                Some(e) => {
                    &&& exists|m: String|
                        m@ == conversion_message(e) && after.pane == self.pane.failed(m)
                    &&& after.execution == self.execution
                    &&& after.pending_activities == self.pending_activities
                },
                None => match history {
                    Err(m) => {
                        &&& after.pane == self.pane.failed(m)
                        &&& after.execution == self.execution
                        &&& after.pending_activities == self.pending_activities
                    },
                    Ok(page) => {
                        &&& after.pane == self.pane.applied(
                            kept_events(page.rows@),
                            page.next_page_token@,
                            now,
                        )
                        &&& after.execution matches Some(x) && Ok::<
                            WorkflowExecution,
                            ConversionError,
                        >(x) == execution_of(info.execution->0)
                        &&& after.pending_activities.len()
                            == info.pending_activities@.len()
                        &&& forall|i: int|
                            0 <= i < info.pending_activities@.len() ==> activity_from(
                                #[trigger] info.pending_activities@[i],
                                after.pending_activities[i],
                            )
                    },
                },
            },
        })
    }

    /// The view after a page of history ended with `history`: the events of
    /// known type are appended, or the failure is recorded.
    pub open spec fn page_finished(
        self,
        history: Result<Page<HistoryEventInfo<A>>, String>,
        now: u64,
        after: WorkflowView<A>,
    ) -> bool {
        &&& (after.workflow_id == self.workflow_id)
        &&& (after.run_id == self.run_id)
        &&& (after.execution == self.execution)
        &&& (after.pending_activities == self.pending_activities)
        &&& (after.display_event == kept_display(
            self.display_event,
            after.pane.controller.collection.rows.len(),
        ))
        &&& (match history {
            Err(m) => after.pane == self.pane.failed(m),
            Ok(page) => after.pane == self.pane.applied(
                kept_events(page.rows@),
                page.next_page_token@,
                now,
            ),
        })
    }

    pub open spec fn wf(self) -> bool {
        &&& self.pane.wf()
        &&& (self.display_event matches Some(i) ==> i < self.pane.controller.collection.rows.len())
    }
}

/// An expanded event stays expanded while it is still among `len` rows.
pub open spec fn kept_display(d: Option<usize>, len: nat) -> Option<usize> {
    match d {
        Some(i) => if i < len {
            Some(i)
        } else {
            None
        },
        None => None,
    }
}

/// The detail view of one execution: its description, its pending
/// activities, and its event history loaded page by page.
pub struct WorkflowWidget<A> {
    workflow_id: String,
    run_id: Option<String>,
    pane: Pane<HistoryEvent<A>>,
    execution: Option<WorkflowExecution>,
    pending_activities: Vec<PendingActivity>,
    display_event: Option<usize>,
}

impl<A> View for WorkflowWidget<A> {
    type V = WorkflowView<A>;

    closed spec fn view(&self) -> WorkflowView<A> {
        WorkflowView {
            workflow_id: self.workflow_id@,
            run_id: match self.run_id {
                Some(r) => Some(r@),
                None => None,
            },
            pane: self.pane@,
            execution: self.execution,
            pending_activities: self.pending_activities@,
            display_event: self.display_event,
        }
    }
}

impl<A> WorkflowWidget<A> {
    pub open spec fn wf(&self) -> bool {
        self@.wf()
    }

    /// A detail view of `workflow_id` (of `run_id`, or of its latest run),
    /// with nothing loaded and nothing asked for.
    pub fn new(workflow_id: &str, run_id: Option<&str>) -> (r: Self)
        ensures
            r.wf(),
            r@.workflow_id == workflow_id@,
            r@.run_id == match run_id {
                Some(s) => Some(s@),
                None => None::<Seq<char>>,
            },
            r@.pane.controller.collection.rows.len() == 0,
            r@.pane.controller.collection.cursor is None,
            r@.pane.controller.state is Idle,
            r@.pane.controller.queue.len() == 0,
            r@.pane.controller.in_flight is None,
            r@.pane.controller.issued == 0,
            r@.pane.controller.completed == 0,
            r@.pane.controller.latest_reload is None,
            r@.pane.controller.last_reload_at is None,
            r@.pane.selection.index is None,
            r@.pane.selection.awaiting is None,
            r@.execution is None,
            r@.pending_activities.len() == 0,
            r@.display_event is None,
    {
        WorkflowWidget {
            workflow_id: workflow_id.to_owned(),
            run_id: match run_id {
                Some(s) => Some(s.to_owned()),
                None => None,
            },
            pane: Pane::new(),
            execution: None,
            pending_activities: Vec::new(),
            display_event: None,
        }
    }

    pub fn workflow_id(&self) -> (r: &String)
        ensures
            r@ == self@.workflow_id,
    {
        &self.workflow_id
    }

    pub fn run_id(&self) -> (r: Option<&String>)
        ensures
            match r {
                Some(s) => self@.run_id == Some(s@),
                None => self@.run_id is None,
            },
    {
        match &self.run_id {
            Some(s) => Some(s),
            None => None,
        }
    }

    pub fn pane(&self) -> (r: &Pane<HistoryEvent<A>>)
        ensures
            r@ == self@.pane,
    {
        &self.pane
    }

    pub fn execution(&self) -> (r: &Option<WorkflowExecution>)
        ensures
            *r == self@.execution,
    {
        &self.execution
    }

    pub fn pending_activities(&self) -> (r: &Vec<PendingActivity>)
        ensures
            r@ == self@.pending_activities,
    {
        &self.pending_activities
    }

    /// Asks for the description and the first page of history again.
    /// Returns false, with nothing changed, when no request can be queued.
    pub fn reload(&mut self) -> (r: bool)
        requires
            old(self).wf(),
        ensures
            final(self).wf(),
            r == old(self)@.pane.controller.has_room(),
            r ==> final(self)@ == old(self)@.with_controller(
                old(self)@.pane.controller.reloaded(Seq::empty()),
            ),
            !r ==> final(self)@ == old(self)@,
    {
        let empty = String::new();
        assert(empty@ =~= Seq::<char>::empty());
        self.pane.reload(empty).is_some()
    }

    /// Asks for the next page of history. Returns false, with nothing
    /// changed, when the history is exhausted or no request can be queued.
    pub fn load_next_page(&mut self) -> (r: bool)
        requires
            old(self).wf(),
        ensures
            final(self).wf(),
            r == old(self)@.pane.controller.can_request_page(),
            r ==> final(self)@ == old(self)@.with_controller(
                old(self)@.pane.controller.page_requested(),
            ),
            !r ==> final(self)@ == old(self)@,
    {
        self.pane.load_next_page().is_some()
    }

    /// Moves the highlight to the next event; see [`crate::selection::SelectionCursor::advance`].
    pub fn next_row(&mut self) -> (r: Advance)
        requires
            old(self).wf(),
        ensures
            final(self).wf(),
            (final(self)@.pane.selection, final(self)@.pane.controller, r) == advanced(
                old(self)@.pane.selection,
                old(self)@.pane.controller,
            ),
            final(self)@ == old(self)@.with_pane(final(self)@.pane),
    {
        self.pane.next_row()
    }

    /// Completes a waiting forward move.
    pub fn resume_next_row(&mut self) -> (r: bool)
        requires
            old(self).wf(),
        ensures
            final(self).wf(),
            (final(self)@.pane.selection, r) == resumed(
                old(self)@.pane.selection,
                old(self)@.pane.controller,
            ),
            final(self)@ == old(self)@.with_selection(final(self)@.pane.selection),
    {
        self.pane.resume_next_row()
    }

    /// Moves the highlight to the previous event; it never fetches.
    pub fn previous_row(&mut self)
        requires
            old(self).wf(),
        ensures
            final(self).wf(),
            final(self)@ == old(self)@.with_selection(
                retreated(
                    old(self)@.pane.selection,
                    old(self)@.pane.controller.collection.rows.len(),
                ),
            ),
    {
        self.pane.previous_row()
    }

    pub fn is_on_last_row(&self) -> (r: bool)
        ensures
            r == (self@.pane.selection.index matches Some(i) && i + 1
                == self@.pane.controller.collection.rows.len()),
    {
        self.pane.is_on_last_row()
    }

    /// The highlighted event's position, if any.
    pub fn get_selected_history_event(&self) -> (r: Option<usize>)
        ensures
            r == self@.pane.selection.index,
    {
        self.pane.selected()
    }

    /// Expands the highlighted event, if any.
    pub fn display_selected_event(&mut self)
        requires
            old(self).wf(),
        ensures
            final(self).wf(),
            final(self)@ == old(self)@.with_display(old(self)@.display_after_enter()),
    {
        match self.pane.selected() {
            Some(i) => {
                self.display_event = Some(i);
            },
            None => {},
        }
    }

    /// Collapses the expanded event.
    pub fn clear_display_event(&mut self)
        requires
            old(self).wf(),
        ensures
            final(self).wf(),
            final(self)@ == old(self)@.with_display(None),
    {
        self.display_event = None;
    }

    pub fn is_displaying_history_event(&self) -> (r: bool)
        ensures
            r == (self@.display_event is Some),
    {
        self.display_event.is_some()
    }

    /// The expanded event's position, if any.
    pub fn displayed_event(&self) -> (r: Option<usize>)
        ensures
            r == self@.display_event,
    {
        self.display_event
    }

    /// Hands the oldest waiting request to the worker.
    pub fn start_next(&mut self) -> (r: Option<Request>)
        requires
            old(self).wf(),
        ensures
            final(self).wf(),
            final(self)@.pane.selection == old(self)@.pane.selection,
            old(self)@.pane.controller.in_flight is None && old(self)@.pane.controller.queue.len()
                > 0 ==> {
                &&& r matches Some(req)
                &&& req@ == old(self)@.pane.controller.queue[0]
                &&& final(self)@ == old(self)@.with_controller(
                    old(self)@.pane.controller.started(),
                )
            },
            old(self)@.pane.controller.in_flight is Some || old(self)@.pane.controller.queue.len()
                == 0 ==> r is None && final(self)@ == old(self)@,
    {
        self.pane.start_next()
    }

    /// Applies the outcome of a reload: the description and the first page of
    /// history. Any failure, or a description that does not check, is
    /// recorded as an error and changes nothing else. Otherwise the
    /// description is taken and the events of known type replace the history.
    pub fn finish_reload(
        &mut self,
        describe: Result<DescribeInfo, String>,
        history: Result<Page<HistoryEventInfo<A>>, String>,
        now: u64,
    )
        requires
            old(self).wf(),
            old(self)@.pane.controller.in_flight matches Some(f) && f.reload,
        ensures
            final(self).wf(),
            old(self)@.reload_finished(describe, history, now, final(self)@),
    {
        match describe {
            Err(m) => {
                self.pane.finish(Err(m), now);
            },
            Ok(info) => match Description::try_from_info(info) {
                Err(e) => {
                    let m = e.message();
                    self.pane.finish(Err(m), now);
                },
                Ok(d) => match history {
                    Err(m) => {
                        self.pane.finish(Err(m), now);
                    },
                    Ok(page) => {
                        self.execution = Some(d.execution);
                        self.pending_activities = d.pending_activities;
                        let events = events_from_history(page.rows);
                        self.pane.finish(
                            Ok(Page { rows: events, next_page_token: page.next_page_token }),
                            now,
                        );
                    },
                },
            },
        }
        self.keep_display();
    }

    /// Applies the outcome of a page of history: the events of known type
    /// are appended, or the failure is recorded.
    pub fn finish_page(&mut self, history: Result<Page<HistoryEventInfo<A>>, String>, now: u64)
        requires
            old(self).wf(),
            old(self)@.pane.controller.in_flight matches Some(f) && !f.reload,
        ensures
            final(self).wf(),
            old(self)@.page_finished(history, now, final(self)@),
    {
        match history {
            Err(m) => {
                self.pane.finish(Err(m), now);
            },
            Ok(page) => {
                let events = events_from_history(page.rows);
                self.pane.finish(
                    Ok(Page { rows: events, next_page_token: page.next_page_token }),
                    now,
                );
            },
        }
        self.keep_display();
    }

    fn keep_display(&mut self)
        requires
            old(self)@.pane.wf(),
        ensures
            final(self).wf(),
            final(self)@ == old(self)@.with_display(
                kept_display(
                    old(self)@.display_event,
                    old(self)@.pane.controller.collection.rows.len(),
                ),
            ),
    {
        let len = self.pane.controller().collection().len();
        match self.display_event {
            Some(i) => {
                if i >= len {
                    self.display_event = None;
                }
            },
            None => {},
        }
    }

    /// Handles a key press: `j` or down moves forward, `k` or up moves back,
    /// Control-r reloads, Enter expands the highlighted event, and Esc
    /// collapses it, or asks to leave the view when none is expanded.
    pub fn handle_key(&mut self, key: Key) -> (r: KeyOutcome)
        requires
            old(self).wf(),
        ensures
            final(self).wf(),
            old(self)@.key_step(key, final(self)@, r),
    {
        if key.down() {
            let a = self.next_row();
            outcome_of_advance(a)
        } else if key.up() {
            self.previous_row();
            KeyOutcome::Done
        } else if key.ctrl_with('r') {
            if self.reload() {
                KeyOutcome::Done
            } else {
                KeyOutcome::Busy
            }
        } else if key.code == KeyCode::Enter {
            self.display_selected_event();
            KeyOutcome::Done
        } else if key.code == KeyCode::Esc {
            if self.display_event.is_some() {
                self.display_event = None;
                KeyOutcome::Done
            } else {
                KeyOutcome::Leave
            }
        } else {
            KeyOutcome::Ignored
        }
    }
}

} // verus!
