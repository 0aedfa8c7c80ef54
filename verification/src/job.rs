//! Background jobs: status lifecycle, progress snapshots, persisted
//! reports, and the record values the persistence collaborator is asked to
//! write at each lifecycle step.
//!
//! The store itself lives outside this library; everything here computes
//! exactly what is to be written or published, so the lifecycle rules are
//! verified even though the writes happen elsewhere.

use vstd::prelude::*;
use crate::strutil::str_eq;

verus! {

/// Lifecycle status of a job.
#[derive(Debug, Clone, Copy, PartialEq, Eq, Structural)]
pub enum JobStatus {
    Running,
    Queued,
    Completed,
    Cancelled,
    Failed,
}

/// The canonical wire string of a job status.
pub open spec fn spec_job_status_str(s: JobStatus) -> Seq<char> {
    match s {
        JobStatus::Running => "RUNNING"@,
        JobStatus::Queued => "QUEUED"@,
        JobStatus::Completed => "COMPLETED"@,
        JobStatus::Cancelled => "CANCELLED"@,
        JobStatus::Failed => "FAILED"@,
    }
}

/// The three ways a run can end. Terminal states are final: no transition
/// leaves them.
pub open spec fn spec_is_terminal(s: JobStatus) -> bool {
    s is Completed || s is Cancelled || s is Failed
}

/// The lifecycle's legal transitions: a queued job starts running, and a
/// running job ends in exactly one terminal state.
pub open spec fn spec_can_transition(from: JobStatus, to: JobStatus) -> bool {
    ||| (from is Queued && to is Running)
    ||| (from is Running && spec_is_terminal(to))
}

/// Terminal states admit no further transition: the lifecycle is monotonic
/// and its endings are final.
pub proof fn lemma_terminal_is_final(s: JobStatus)
    requires
        spec_is_terminal(s),
    ensures
        forall|t: JobStatus| !spec_can_transition(s, t),
{
}

impl JobStatus {
    /// Canonical wire string of this status.
    pub fn as_str(&self) -> (r: &'static str)
        ensures
            r@ == spec_job_status_str(*self),
    {
        match self {
            JobStatus::Running => "RUNNING",
            JobStatus::Queued => "QUEUED",
            JobStatus::Completed => "COMPLETED",
            JobStatus::Cancelled => "CANCELLED",
            JobStatus::Failed => "FAILED",
        }
    }

    /// Parse a stored status string. Only the five canonical strings are
    /// ever stored, so the caller vouches for the input.
    pub fn from_str(s: &str) -> (r: JobStatus)
        requires
            exists|st: JobStatus| s@ == spec_job_status_str(st),
        ensures
            s@ == spec_job_status_str(r),
    {
        if str_eq(s, "RUNNING") {
            JobStatus::Running
        } else if str_eq(s, "QUEUED") {
            JobStatus::Queued
        } else if str_eq(s, "COMPLETED") {
            JobStatus::Completed
        } else if str_eq(s, "CANCELLED") {
            JobStatus::Cancelled
        } else {
            proof {
                let st = choose|st: JobStatus| s@ == spec_job_status_str(st);
                assert(st is Failed);
            }
            JobStatus::Failed
        }
    }

    /// Whether this status is terminal.
    pub fn is_terminal(&self) -> (r: bool)
        ensures
            r == spec_is_terminal(*self),
    {
        match self {
            JobStatus::Completed => true,
            JobStatus::Cancelled => true,
            JobStatus::Failed => true,
            _ => false,
        }
    }
}

/// An ephemeral progress snapshot: published, never persisted.
#[derive(Debug, Clone, PartialEq, Eq)]
pub struct JobUpdate {
    pub runner_id: String,
    pub current_task: Option<u64>,
    pub task_count: u64,
    pub message: Option<String>,
    pub status: Option<JobStatus>,
}

/// A lifecycle event published to subscribers. Best-effort fan-out: a slow
/// subscriber never stalls the publisher.
#[derive(Debug, Clone, PartialEq, Eq)]
pub enum ClientEvent {
    JobStarted { runner_id: String, current_task: u64, task_count: u64, message: Option<String> },
    JobProgress { runner_id: String, current_task: u64, task_count: u64, message: Option<String> },
    JobCompleted { runner_id: String },
    JobFailed { runner_id: String, message: String },
    JobCancelled { runner_id: String },
}

/// The kinds of work a job can carry. Dispatch is by variant, keeping the
/// set of job kinds open to extension without run-time type inspection.
#[derive(Debug, Clone, PartialEq, Eq)]
pub enum JobVariant {
    /// Scan one library root for new and changed media.
    LibraryScan { library_path: String },
}

impl JobVariant {
    /// The kind tag persisted and reported for this job.
    pub fn kind(&self) -> (r: &'static str)
        ensures
            r@ == spec_job_kind(*self),
    {
        match self {
            JobVariant::LibraryScan { .. } => "LibraryScanJob",
        }
    }

    /// The human-readable details of this job.
    pub fn details(&self) -> (r: Option<&String>)
        ensures
            match (r, self) {
                (Some(d), JobVariant::LibraryScan { library_path }) => d == library_path,
                (None, _) => false,
            },
    {
        match self {
            JobVariant::LibraryScan { library_path } => Some(library_path),
        }
    }
}

/// The kind tag of a job variant.
pub open spec fn spec_job_kind(j: JobVariant) -> Seq<char> {
    match j {
        JobVariant::LibraryScan { .. } => "LibraryScanJob"@,
    }
}

/// A job row as the store returns it.
pub struct JobRecord {
    pub id: String,
    pub kind: String,
    pub details: Option<String>,
    /// Wire string of the job status.
    pub status: String,
    pub task_count: i32,
    pub completed_task_count: i32,
    pub seconds_elapsed: u64,
    pub completed_at: String,
}

/// A job as reported to clients.
#[derive(Debug, Clone, PartialEq, Eq)]
pub struct JobReport {
    /// The job runner id, absent for a queued job not yet persisted.
    pub id: Option<String>,
    /// The kind of job, e.g. a library scan.
    pub kind: String,
    /// The extra details of the job, e.g. the scanned path.
    pub details: Option<String>,
    /// The status of the job; running jobs are not persisted.
    pub status: JobStatus,
    /// The total number of tasks.
    pub task_count: Option<i32>,
    /// The number of tasks completed without failure.
    pub completed_task_count: Option<i32>,
    /// The time (in seconds) the job took.
    pub seconds_elapsed: Option<u64>,
    /// When the job completed.
    pub completed_at: Option<String>,
}

impl JobReport {
    /// Report a persisted job row. The store only ever holds the five
    /// canonical status strings.
    pub fn from_record(record: JobRecord) -> (r: JobReport)
        requires
            exists|st: JobStatus| record.status@ == spec_job_status_str(st),
        ensures
            r.id == Some(record.id),
            r.kind == record.kind,
            r.details == record.details,
            spec_job_status_str(r.status) == record.status@,
            r.task_count == Some(record.task_count),
            r.completed_task_count == Some(record.completed_task_count),
            r.seconds_elapsed == Some(record.seconds_elapsed),
            r.completed_at == Some(record.completed_at),
    {
        let status = JobStatus::from_str(record.status.as_str());
        JobReport {
            id: Some(record.id),
            kind: record.kind,
            details: record.details,
            status,
            task_count: Some(record.task_count),
            completed_task_count: Some(record.completed_task_count),
            seconds_elapsed: Some(record.seconds_elapsed),
            completed_at: Some(record.completed_at),
        }
    }

    /// Report a job that is only queued: nothing is persisted yet.
    pub fn from_queued(job: &JobVariant) -> (r: JobReport)
        ensures
            r.id is None,
            r.kind@ == spec_job_kind(*job),
            match (r.details, *job) {
                (Some(d), JobVariant::LibraryScan { library_path }) => d@ == library_path@,
                (None, _) => false,
            },
            r.status == JobStatus::Queued,
            r.task_count is None,
            r.completed_task_count is None,
            r.seconds_elapsed is None,
            r.completed_at is None,
    {
        let details = match job.details() {
            Some(d) => Some(d.clone()),
            None => None,
        };
        JobReport {
            id: None,
            kind: job.kind().to_owned(),
            details,
            status: JobStatus::Queued,
            task_count: None,
            completed_task_count: None,
            seconds_elapsed: None,
            completed_at: None,
        }
    }
}

/// What the store is asked to write for a newly submitted job: the row is
/// created queued, with its kind and details and no progress yet.
pub fn new_job_record(id: String, job: &JobVariant) -> (r: JobRecord)
    ensures
        r.id == id,
        r.kind@ == spec_job_kind(*job),
        match (r.details, *job) {
            (Some(d), JobVariant::LibraryScan { library_path }) => d@ == library_path@,
            (None, _) => false,
        },
        r.status@ == spec_job_status_str(JobStatus::Queued),
        r.task_count == 0,
        r.completed_task_count == 0,
        r.seconds_elapsed == 0,
{
    let details = match job.details() {
        Some(d) => Some(d.clone()),
        None => None,
    };
    JobRecord {
        id,
        kind: job.kind().to_owned(),
        details,
        status: JobStatus::Queued.as_str().to_owned(),
        task_count: 0,
        completed_task_count: 0,
        seconds_elapsed: 0,
        completed_at: String::new(),
    }
}

/// A partial update of a job row: only the present fields are written.
#[derive(Debug, Clone, PartialEq, Eq)]
pub struct JobRowUpdate {
    pub id: String,
    pub task_count: Option<i32>,
    pub completed_task_count: Option<i32>,
    pub seconds_elapsed: Option<u64>,
    pub status: Option<JobStatus>,
}

/// The message published when a job starts.
pub open spec fn spec_job_started_message(id: Seq<char>) -> Seq<char> {
    "Job "@ + id + " started."@
}

/// What starting a job writes and publishes: the row gets its task count —
/// set exactly once, here — and the running status, and a started event is
/// published. A task count beyond the store's integer range is rejected.
pub fn start_job_update(id: &String, task_count: u64) -> (r: Result<
    (JobRowUpdate, ClientEvent),
    crate::error::ApiError,
>)
    ensures
        match r {
            Ok(p) => {
                &&& task_count <= i32::MAX
                &&& p.0.id@ == id@
                &&& p.0.task_count == Some(task_count as i32)
                &&& p.0.completed_task_count is None
                &&& p.0.seconds_elapsed is None
                &&& p.0.status == Some(JobStatus::Running)
                &&& p.1 matches ClientEvent::JobStarted {
                    runner_id,
                    current_task,
                    task_count: tc,
                    message,
                } && runner_id@ == id@ && current_task == 1 && tc == task_count && match message {
                    Some(m) => m@ == spec_job_started_message(id@),
                    None => false,
                }
            },
            Err(e) => task_count > i32::MAX && e matches
                crate::error::ApiError::InternalServerError(_),
        },
{
    if task_count > i32::MAX as u64 {
        let mut m = String::new();
        m.append("out of range integral type conversion attempted");
        return Err(crate::error::ApiError::InternalServerError(m));
    }
    let mut message = String::new();
    message.append("Job ");
    message.append(id.as_str());
    message.append(" started.");
    let update = JobRowUpdate {
        id: id.clone(),
        task_count: Some(task_count as i32),
        completed_task_count: None,
        seconds_elapsed: None,
        status: Some(JobStatus::Running),
    };
    let event = ClientEvent::JobStarted {
        runner_id: id.clone(),
        current_task: 1,
        task_count,
        message: Some(message),
    };
    Ok((update, event))
}

/// What ending a job writes: the completed-task count, the elapsed time and
/// the run's terminal outcome — completed, cancelled or failed, whichever
/// way the work ended, so the persisted record carries the real ending. A
/// count beyond the store's integer range is rejected.
pub fn end_job_update(
    id: &String,
    outcome: JobStatus,
    completed_task_count: u64,
    elapsed_seconds: u64,
) -> (r: Result<JobRowUpdate, crate::error::ApiError>)
    requires
        spec_is_terminal(outcome),
    ensures
        match r {
            Ok(u) => {
                &&& completed_task_count <= i32::MAX
                &&& u.id@ == id@
                &&& u.task_count is None
                &&& u.completed_task_count == Some(completed_task_count as i32)
                &&& u.seconds_elapsed == Some(elapsed_seconds)
                &&& u.status == Some(outcome)
            },
            Err(e) => completed_task_count > i32::MAX && e matches
                crate::error::ApiError::InternalServerError(_),
        },
{
    if completed_task_count > i32::MAX as u64 {
        let mut m = String::new();
        m.append("out of range integral type conversion attempted");
        return Err(crate::error::ApiError::InternalServerError(m));
    }
    Ok(JobRowUpdate {
        id: id.clone(),
        task_count: None,
        completed_task_count: Some(completed_task_count as i32),
        seconds_elapsed: Some(elapsed_seconds),
        status: Some(outcome),
    })
}

/// A log row to be appended for a failure event.
#[derive(Debug, Clone, PartialEq, Eq)]
pub struct TentativeLog {
    pub message: String,
    pub job_id: Option<String>,
    pub level: String,
}

/// The log entry a failure event persists: the event's message at error
/// level, attributed to the failing runner.
pub fn failure_log(event: &ClientEvent) -> (r: TentativeLog)
    requires
        event matches ClientEvent::JobFailed { .. },
    ensures
        event matches ClientEvent::JobFailed { runner_id, message } ==> {
            &&& r.message@ == message@
            &&& match r.job_id {
                Some(j) => j@ == runner_id@,
                None => false,
            }
            &&& r.level@ == "ERROR"@
        },
{
    match event {
        ClientEvent::JobFailed { runner_id, message } => TentativeLog {
            message: message.clone(),
            job_id: Some(runner_id.clone()),
            level: "ERROR".to_owned(),
        },
        _ => TentativeLog { message: String::new(), job_id: None, level: "ERROR".to_owned() },
    }
}

} // verus!
