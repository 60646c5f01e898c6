use vstd::prelude::*;

verus! {

/// A point in time as the service reports it: seconds and nanoseconds since
/// the Unix epoch.
#[derive(Clone, Copy, Debug, PartialEq, Eq, Structural)]
pub struct Timestamp {
    pub seconds: i64,
    pub nanos: i32,
}

/// A signed span of time as the service reports it.
#[derive(Clone, Copy, Debug, PartialEq, Eq, Structural)]
pub struct SignedSpan {
    pub seconds: i64,
    pub nanos: i32,
}

/// A non-negative span of time.
#[derive(Clone, Copy, Debug, PartialEq, Eq, Structural)]
pub struct Span {
    pub seconds: u64,
    pub nanos: u32,
}

pub const NANOS_PER_SECOND: i128 = 1_000_000_000;

/// The length of a signed span, in nanoseconds.
pub open spec fn span_nanos(d: SignedSpan) -> int {
    d.seconds * 1_000_000_000 + d.nanos
}

/// The whole seconds carried over from the nanoseconds push the seconds past
/// `i64::MAX`: the span is then held at its greatest value.
pub open spec fn span_saturates(d: SignedSpan) -> bool {
    d.nanos >= 1_000_000_000 && d.seconds + d.nanos / 1_000_000_000 > i64::MAX
}

/// The span a signed span stands for, or `None` when it is negative. A span
/// whose carried seconds overflow is held at `i64::MAX` seconds and
/// 999,999,999 nanoseconds.
pub open spec fn span_of(d: SignedSpan) -> Option<Span> {
    if span_saturates(d) {
        Some(Span { seconds: i64::MAX as u64, nanos: 999_999_999 })
    } else if span_nanos(d) < 0 {
        None
    } else {
        Some(
            Span {
                seconds: (span_nanos(d) / 1_000_000_000) as u64,
                nanos: (span_nanos(d) % 1_000_000_000) as u32,
            },
        )
    }
}

/// Converts a signed span; see [`span_of`].
pub fn span_from_signed(d: SignedSpan) -> (r: Option<Span>)
    ensures
        r == span_of(d),
{
    if d.nanos >= 1_000_000_000 {
        let carry: i64 = (d.nanos / 1_000_000_000) as i64;
        if d.seconds as i128 + carry as i128 > i64::MAX as i128 {
            return Some(Span { seconds: i64::MAX as u64, nanos: 999_999_999 });
        }
    }
    let total: i128 = d.seconds as i128 * NANOS_PER_SECOND + d.nanos as i128;
    if total < 0 {
        None
    } else {
        assert(total / 1_000_000_000 <= u64::MAX) by (nonlinear_arith)
            requires
                total == d.seconds * 1_000_000_000 + d.nanos,
                d.seconds <= i64::MAX,
                d.nanos <= i32::MAX,
                total >= 0,
        ;
        Some(
            Span {
                seconds: (total / NANOS_PER_SECOND) as u64,
                nanos: (total % NANOS_PER_SECOND) as u32,
            },
        )
    }
}

/// The text of a point in time, in UTC, as chrono formats it; `None` when it
/// lies outside the dates chrono can represent.
pub uninterp spec fn utc_text(seconds: i64, nanos: u32) -> Option<Seq<char>>;

/// Relies on chrono's `DateTime::<Utc>::from_timestamp`, which gives no date
/// for a point outside its range, and on `DateTime::format` with the pattern
/// below to write the date.
#[verifier::external_body]
fn timestamp_text(seconds: i64, nanos: u32) -> (r: Option<String>)
    ensures
        match r {
            Some(s) => utc_text(seconds, nanos) == Some(s@),
            None => utc_text(seconds, nanos) is None,
        },
{
    chrono::DateTime::from_timestamp(seconds, nanos).map(
        |t| t.format("%y-%m-%d %H:%M:%S %Z").to_string(),
    )
}

/// The text shown for an optional point in time: chrono's text, or "-" when
/// there is none or chrono cannot represent it.
pub open spec fn time_text(t: Option<Timestamp>) -> Seq<char> {
    match t {
        Some(t) => match utc_text(t.seconds, t.nanos as u32) {
            Some(s) => s,
            None => seq!['-'],
        },
        None => seq!['-'],
    }
}

/// Writes an optional point in time as [`time_text`] says.
pub fn time_as_string(t: Option<Timestamp>) -> (r: String)
    ensures
        r@ == time_text(t),
{
    let dash = "-".to_owned();
    proof {
        reveal_strlit("-");
    }
    match t {
        Some(t) => match timestamp_text(t.seconds, t.nanos as u32) {
            Some(s) => s,
            None => dash,
        },
        None => dash,
    }
}

/// The lifecycle status of an execution.
#[derive(Clone, Copy, Debug, PartialEq, Eq, Structural)]
pub enum WorkflowExecutionStatus {
    Unspecified,
    Running,
    Completed,
    Failed,
    Canceled,
    Terminated,
    ContinuedAsNew,
    TimedOut,
}

/// The status that a wire code stands for.
pub open spec fn status_of_code(code: i32) -> Option<WorkflowExecutionStatus> {
    if code == 0 {
        Some(WorkflowExecutionStatus::Unspecified)
    } else if code == 1 {
        Some(WorkflowExecutionStatus::Running)
    } else if code == 2 {
        Some(WorkflowExecutionStatus::Completed)
    } else if code == 3 {
        Some(WorkflowExecutionStatus::Failed)
    } else if code == 4 {
        Some(WorkflowExecutionStatus::Canceled)
    } else if code == 5 {
        Some(WorkflowExecutionStatus::Terminated)
    } else if code == 6 {
        Some(WorkflowExecutionStatus::ContinuedAsNew)
    } else if code == 7 {
        Some(WorkflowExecutionStatus::TimedOut)
    } else {
        None
    }
}

/// The name shown for a status.
pub open spec fn status_name(s: WorkflowExecutionStatus) -> Seq<char> {
    match s {
        WorkflowExecutionStatus::Unspecified => "Unspecified"@,
        WorkflowExecutionStatus::Running => "Running"@,
        WorkflowExecutionStatus::Completed => "Completed"@,
        WorkflowExecutionStatus::Failed => "Failed"@,
        WorkflowExecutionStatus::Canceled => "Canceled"@,
        WorkflowExecutionStatus::Terminated => "Terminated"@,
        WorkflowExecutionStatus::ContinuedAsNew => "ContinuedAsNew"@,
        WorkflowExecutionStatus::TimedOut => "TimedOut"@,
    }
}

impl WorkflowExecutionStatus {
    /// The status for a wire code, or `None` for a code that names none.
    pub fn from_code(code: i32) -> (r: Option<Self>)
        ensures
            r == status_of_code(code),
    {
        match code {
            0 => Some(WorkflowExecutionStatus::Unspecified),
            1 => Some(WorkflowExecutionStatus::Running),
            2 => Some(WorkflowExecutionStatus::Completed),
            3 => Some(WorkflowExecutionStatus::Failed),
            4 => Some(WorkflowExecutionStatus::Canceled),
            5 => Some(WorkflowExecutionStatus::Terminated),
            6 => Some(WorkflowExecutionStatus::ContinuedAsNew),
            7 => Some(WorkflowExecutionStatus::TimedOut),
            _ => None,
        }
    }

    pub fn name(&self) -> (r: &'static str)
        ensures
            r@ == status_name(*self),
    {
        match self {
            WorkflowExecutionStatus::Unspecified => "Unspecified",
            WorkflowExecutionStatus::Running => "Running",
            WorkflowExecutionStatus::Completed => "Completed",
            WorkflowExecutionStatus::Failed => "Failed",
            WorkflowExecutionStatus::Canceled => "Canceled",
            WorkflowExecutionStatus::Terminated => "Terminated",
            WorkflowExecutionStatus::ContinuedAsNew => "ContinuedAsNew",
            WorkflowExecutionStatus::TimedOut => "TimedOut",
        }
    }
}

/// The identity of one run of a workflow.
pub struct ExecutionId {
    pub workflow_id: String,
    pub run_id: String,
}

/// What the service reports about one execution, field by field, before it
/// is checked.
pub struct ExecutionInfo {
    pub execution: Option<ExecutionId>,
    pub workflow_type_name: Option<String>,
    pub status: i32,
    pub task_queue: String,
    pub start_time: Option<Timestamp>,
    pub close_time: Option<Timestamp>,
    pub execution_time: Option<Timestamp>,
    pub execution_duration: Option<SignedSpan>,
    pub history_size_bytes: i64,
}

/// Why a reported execution was refused.
#[derive(Clone, Copy, Debug, PartialEq, Eq, Structural)]
pub enum ConversionError {
    NoExecution,
    NegativeDuration,
    InvalidStatus,
    NoType,
    UnknownExecution,
    InvalidActivityState,
}

/// The message recorded for a refused report: a refused execution is
/// "invalid workflow execution: " and the reason, a refused activity
/// "invalid workflow pending activity: " and the reason.
pub open spec fn conversion_message(e: ConversionError) -> Seq<char> {
    match e {
        ConversionError::NoExecution => "invalid workflow execution: workflow has no execution"@,
        ConversionError::NegativeDuration => "invalid workflow execution: workflow execution duration is negative"@,
        ConversionError::InvalidStatus => "invalid workflow execution: workflow execution has an invalid status"@,
        ConversionError::NoType => "invalid workflow execution: workflow execution has no type"@,
        ConversionError::UnknownExecution => "unknown workflow execution"@,
        ConversionError::InvalidActivityState => "invalid workflow pending activity: invalid state"@,
    }
}

impl ConversionError {
    pub fn message(&self) -> (r: String)
        ensures
            r@ == conversion_message(*self),
    {
        let m = match self {
            ConversionError::NoExecution => "invalid workflow execution: workflow has no execution",
            ConversionError::NegativeDuration => "invalid workflow execution: workflow execution duration is negative",
            ConversionError::InvalidStatus => "invalid workflow execution: workflow execution has an invalid status",
            ConversionError::NoType => "invalid workflow execution: workflow execution has no type",
            ConversionError::UnknownExecution => "unknown workflow execution",
            ConversionError::InvalidActivityState => "invalid workflow pending activity: invalid state",
        };
        m.to_owned()
    }
}

/// One execution, checked.
pub struct WorkflowExecution {
    pub status: WorkflowExecutionStatus,
    pub workflow_type: String,
    pub workflow_id: String,
    pub run_id: String,
    pub task_queue: String,
    pub start_time: Option<Timestamp>,
    pub close_time: Option<Timestamp>,
    pub execution_time: Option<Timestamp>,
    pub execution_duration: Option<Span>,
    pub history_size_bytes: u64,
}

/// The checked execution that a report stands for, or the first thing wrong
/// with it: its identity, then its duration, its status, its type.
pub open spec fn execution_of(info: ExecutionInfo) -> Result<WorkflowExecution, ConversionError> {
    match info.execution {
        None => Err(ConversionError::NoExecution),
        Some(id) => {
            let duration_ok = match info.execution_duration {
                Some(d) => span_of(d) is Some,
                None => true,
            };
            if !duration_ok {
                Err(ConversionError::NegativeDuration)
            } else {
                match status_of_code(info.status) {
                    None => Err(ConversionError::InvalidStatus),
                    Some(status) => match info.workflow_type_name {
                        None => Err(ConversionError::NoType),
                        Some(workflow_type) => Ok(
                            WorkflowExecution {
                                status,
                                workflow_type,
                                workflow_id: id.workflow_id,
                                run_id: id.run_id,
                                task_queue: info.task_queue,
                                start_time: info.start_time,
                                close_time: info.close_time,
                                execution_time: info.execution_time,
                                execution_duration: match info.execution_duration {
                                    Some(d) => span_of(d),
                                    None => None,
                                },
                                history_size_bytes: info.history_size_bytes as u64,
                            },
                        ),
                    },
                }
            }
        },
    }
}

impl WorkflowExecution {
    /// Checks a reported execution; see [`execution_of`].
    pub fn try_from_info(info: ExecutionInfo) -> (r: Result<Self, ConversionError>)
        ensures
            r == execution_of(info),
    {
        let id = match info.execution {
            Some(id) => id,
            None => {
                return Err(ConversionError::NoExecution);
            },
        };
        let execution_duration = match info.execution_duration {
            Some(d) => match span_from_signed(d) {
                Some(s) => Some(s),
                None => {
                    return Err(ConversionError::NegativeDuration);
                },
            },
            None => None,
        };
        let status = match WorkflowExecutionStatus::from_code(info.status) {
            Some(s) => s,
            None => {
                return Err(ConversionError::InvalidStatus);
            },
        };
        let workflow_type = match info.workflow_type_name {
            Some(t) => t,
            None => {
                return Err(ConversionError::NoType);
            },
        };
        Ok(
            WorkflowExecution {
                status,
                workflow_type,
                workflow_id: id.workflow_id,
                run_id: id.run_id,
                task_queue: info.task_queue,
                start_time: info.start_time,
                close_time: info.close_time,
                execution_time: info.execution_time,
                execution_duration,
                history_size_bytes: info.history_size_bytes as u64,
            },
        )
    }

    pub fn start_time_as_string(&self) -> (r: String)
        ensures
            r@ == time_text(self.start_time),
    {
        time_as_string(self.start_time)
    }

    pub fn close_time_as_string(&self) -> (r: String)
        ensures
            r@ == time_text(self.close_time),
    {
        time_as_string(self.close_time)
    }

    pub fn execution_time_as_string(&self) -> (r: String)
        ensures
            r@ == time_text(self.execution_time),
    {
        time_as_string(self.execution_time)
    }

    /// The duration in whole seconds, as "<seconds>s", or "-" when unknown.
    pub fn execution_duration_as_string(&self) -> (r: String)
        ensures
            r@ == match self.execution_duration {
                Some(d) => crate::label::decimal(d.seconds as nat).push('s'),
                None => seq!['-'],
            },
    {
        match self.execution_duration {
            Some(d) => crate::label::seconds_text(d.seconds),
            None => {
                let dash = "-".to_owned();
                proof {
                    reveal_strlit("-");
                }
                dash
            },
        }
    }

    pub fn status_as_string(&self) -> (r: String)
        ensures
            r@ == status_name(self.status),
    {
        self.status.name().to_owned()
    }
}

/// Checks every reported execution of a page, keeping their order; the first
/// one refused decides the error.
pub fn executions_from_infos(infos: Vec<ExecutionInfo>) -> (r: Result<
    Vec<WorkflowExecution>,
    ConversionError,
>)
    ensures
        match r {
            Ok(v) => v@.len() == infos@.len() && forall|i: int|
                0 <= i < infos@.len() ==> execution_of(#[trigger] infos@[i]) == Ok::<
                    WorkflowExecution,
                    ConversionError,
                >(v@[i]),
            Err(e) => exists|k: int|
                0 <= k < infos@.len() && execution_of(#[trigger] infos@[k]) == Err::<
                    WorkflowExecution,
                    ConversionError,
                >(e) && forall|i: int| 0 <= i < k ==> #[trigger] execution_of(infos@[i]) is Ok,
        },
{
    let ghost all = infos@;
    let mut rest = infos;
    let mut out: Vec<WorkflowExecution> = Vec::new();
    while rest.len() > 0
        invariant
            all == infos@,
            out@.len() + rest@.len() == all.len(),
            rest@ == all.subrange(out@.len() as int, all.len() as int),
            forall|i: int|
                0 <= i < out@.len() ==> execution_of(#[trigger] all[i]) == Ok::<
                    WorkflowExecution,
                    ConversionError,
                >(out@[i]),
        decreases rest@.len(),
    {
        let info = rest.remove(0);
        let ghost k = out@.len() as int;
        assert(all[k] == info);
        match WorkflowExecution::try_from_info(info) {
            Ok(e) => {
                out.push(e);
                assert(rest@ =~= all.subrange(out@.len() as int, all.len() as int));
            },
            Err(e) => {
                assert(forall|i: int| 0 <= i < k ==> #[trigger] execution_of(all[i]) is Ok);
                assert(execution_of(all[k]) == Err::<WorkflowExecution, ConversionError>(e));
                return Err(e);
            },
        }
    }
    Ok(out)
}

} // verus!
