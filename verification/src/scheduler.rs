//! Job runner and scheduler.
//!
//! The scheduler keeps one FIFO queue and guarantees single-flight
//! execution: at most one job runs at a time. A running scan is a small
//! state machine stepped between files — the defined suspension and
//! cancellation points — and every lifecycle transition is checked against
//! the status lifecycle. The file work itself (I/O, archives) happens
//! outside; the machine consumes its outcomes as values.

use vstd::prelude::*;
use crate::enums::FileStatus;
use crate::error::{spec_status_of_error, ApiError, ProcessFileError};
use crate::job::{
    spec_is_terminal, ClientEvent, JobStatus, JobVariant,
};
use crate::media_file::ProcessedMediaFile;

verus! {

/// The status a scan records for one file's outcome: processed files are
/// ready, failed ones carry their error's status.
pub open spec fn spec_status_of_outcome(
    o: Result<ProcessedMediaFile, ProcessFileError>,
) -> FileStatus {
    match o {
        Ok(_) => FileStatus::Ready,
        Err(e) => spec_status_of_error(e),
    }
}

/// One library scan in flight.
pub struct ScanRun {
    pub runner_id: String,
    pub status: JobStatus,
    pub task_count: u64,
    pub current_task: u64,
    pub completed_tasks: u64,
    pub cancel_requested: bool,
    pub file_statuses: Vec<FileStatus>,
}

impl ScanRun {
    /// The run's invariant: progress counters stay within the task count,
    /// one status is recorded per handled file, and the status is the
    /// running one or a terminal one — never queued again.
    pub open spec fn wf(&self) -> bool {
        &&& self.current_task <= self.task_count
        &&& self.completed_tasks <= self.current_task
        &&& self.file_statuses@.len() == self.current_task
        &&& (self.status is Running || spec_is_terminal(self.status))
    }

    /// Start a run: the task count is set here, exactly once, and the
    /// started event precedes everything the run will publish.
    pub fn start(runner_id: String, task_count: u64) -> (r: (ScanRun, ClientEvent))
        ensures
            r.0.wf(),
            r.0.runner_id == runner_id,
            r.0.status == JobStatus::Running,
            r.0.task_count == task_count,
            r.0.current_task == 0,
            r.0.completed_tasks == 0,
            !r.0.cancel_requested,
            r.0.file_statuses@ =~= Seq::<FileStatus>::empty(),
            r.1 == (ClientEvent::JobStarted {
                runner_id,
                current_task: 1,
                task_count,
                message: None::<String>,
            }),
    {
        let run = ScanRun {
            runner_id: runner_id.clone(),
            status: JobStatus::Running,
            task_count,
            current_task: 0,
            completed_tasks: 0,
            cancel_requested: false,
            file_statuses: Vec::new(),
        };
        let event = ClientEvent::JobStarted { runner_id, current_task: 1, task_count, message: None };
        (run, event)
    }

    /// Request cooperative cancellation: only the flag changes, and the
    /// run observes it at its next checkpoint.
    pub fn request_cancel(&mut self)
        ensures
            final(self).cancel_requested,
            final(self).runner_id == old(self).runner_id,
            final(self).status == old(self).status,
            final(self).task_count == old(self).task_count,
            final(self).current_task == old(self).current_task,
            final(self).completed_tasks == old(self).completed_tasks,
            final(self).file_statuses == old(self).file_statuses,
    {
        self.cancel_requested = true;
    }

    /// Record one file's outcome: the per-file status is appended — an
    /// error is recorded, never propagated — and a progress event is
    /// published. No suspension happens mid-file.
    pub fn process_file(&mut self, outcome: &Result<ProcessedMediaFile, ProcessFileError>) -> (ev:
        ClientEvent)
        requires
            old(self).wf(),
            old(self).status is Running,
            old(self).current_task < old(self).task_count,
        ensures
            final(self).wf(),
            final(self).runner_id == old(self).runner_id,
            final(self).status == JobStatus::Running,
            final(self).task_count == old(self).task_count,
            final(self).current_task == old(self).current_task + 1,
            final(self).completed_tasks == old(self).completed_tasks + (
                if *outcome is Ok {
                    1int
                } else {
                    0int
                }
            ),
            final(self).cancel_requested == old(self).cancel_requested,
            final(self).file_statuses@ == old(self).file_statuses@.push(
                spec_status_of_outcome(*outcome),
            ),
            ev == (ClientEvent::JobProgress {
                runner_id: old(self).runner_id,
                current_task: (old(self).current_task + 1) as u64,
                task_count: old(self).task_count,
                message: None::<String>,
            }),
    {
        let status = match outcome {
            Ok(_) => {
                self.completed_tasks = self.completed_tasks + 1;
                FileStatus::Ready
            },
            Err(e) => e.file_status(),
        };
        self.file_statuses.push(status);
        self.current_task = self.current_task + 1;
        ClientEvent::JobProgress {
            runner_id: self.runner_id.clone(),
            current_task: self.current_task,
            task_count: self.task_count,
            message: None,
        }
    }

    /// The checkpoint between files: a requested cancellation takes effect
    /// here — cancelled, distinct from failed — and a run whose work is
    /// done completes. Otherwise nothing changes.
    pub fn checkpoint(&mut self) -> (ev: Option<ClientEvent>)
        requires
            old(self).wf(),
            old(self).status is Running,
        ensures
            final(self).wf(),
            final(self).runner_id == old(self).runner_id,
            final(self).task_count == old(self).task_count,
            final(self).current_task == old(self).current_task,
            final(self).completed_tasks == old(self).completed_tasks,
            final(self).cancel_requested == old(self).cancel_requested,
            final(self).file_statuses == old(self).file_statuses,
            if old(self).cancel_requested {
                &&& final(self).status == JobStatus::Cancelled
                &&& ev == Some(ClientEvent::JobCancelled { runner_id: old(self).runner_id })
            } else if old(self).current_task == old(self).task_count {
                &&& final(self).status == JobStatus::Completed
                &&& ev == Some(ClientEvent::JobCompleted { runner_id: old(self).runner_id })
            } else {
                &&& final(self).status == JobStatus::Running
                &&& ev is None
            },
    {
        if self.cancel_requested {
            self.status = JobStatus::Cancelled;
            Some(ClientEvent::JobCancelled { runner_id: self.runner_id.clone() })
        } else if self.current_task == self.task_count {
            self.status = JobStatus::Completed;
            Some(ClientEvent::JobCompleted { runner_id: self.runner_id.clone() })
        } else {
            None
        }
    }

    /// A structural failure ends the run as failed, with a message for the
    /// failure event and log entry; it never crashes the hosting process.
    pub fn fail(&mut self, message: String) -> (ev: ClientEvent)
        requires
            old(self).wf(),
            old(self).status is Running,
        ensures
            final(self).wf(),
            final(self).status == JobStatus::Failed,
            final(self).runner_id == old(self).runner_id,
            final(self).task_count == old(self).task_count,
            final(self).current_task == old(self).current_task,
            final(self).completed_tasks == old(self).completed_tasks,
            final(self).file_statuses == old(self).file_statuses,
            ev == (ClientEvent::JobFailed { runner_id: old(self).runner_id, message }),
    {
        self.status = JobStatus::Failed;
        ClientEvent::JobFailed { runner_id: self.runner_id.clone(), message }
    }

    /// An ephemeral snapshot of the run's progress: published, never
    /// persisted. The status is carried only once the run is terminal.
    pub fn progress_snapshot(&self) -> (r: crate::job::JobUpdate)
        ensures
            r.runner_id == self.runner_id,
            r.current_task == Some(self.current_task),
            r.task_count == self.task_count,
            r.message is None,
            r.status == (if spec_is_terminal(self.status) {
                Some(self.status)
            } else {
                None::<JobStatus>
            }),
    {
        let status = if self.status.is_terminal() {
            Some(self.status)
        } else {
            None
        };
        crate::job::JobUpdate {
            runner_id: self.runner_id.clone(),
            current_task: Some(self.current_task),
            task_count: self.task_count,
            message: None,
            status,
        }
    }
}

/// The outcomes that count as successfully completed tasks.
pub open spec fn ok_outcome_pred() -> spec_fn(Result<ProcessedMediaFile, ProcessFileError>) -> bool {
    |o: Result<ProcessedMediaFile, ProcessFileError>| o is Ok
}

/// How many files a scan handles before it ends: all of them, or exactly
/// the files before the cancellation point when one is set within range.
pub open spec fn spec_processed_count(n: nat, cancel_after: Option<usize>) -> nat {
    match cancel_after {
        Some(c) => if c < n {
            c as nat
        } else {
            n
        },
        None => n,
    }
}

/// Run a whole scan over per-file outcomes, observing a cancellation that
/// arrives between file `c` and file `c + 1`.
///
/// The postcondition is the scan's story: the files before the stopping
/// point are recorded — each with the status its outcome dictates — and no
/// later file is touched; the run ends cancelled exactly when the
/// cancellation point was in range, completed otherwise (per-file failures
/// never fail the job); and the published events are the started event,
/// one progress event per handled file in order, and exactly one terminal
/// event, in that causal order.
pub fn run_scan(
    runner_id: String,
    outcomes: &Vec<Result<ProcessedMediaFile, ProcessFileError>>,
    cancel_after: Option<usize>,
) -> (r: (ScanRun, Vec<ClientEvent>))
    requires
        outcomes@.len() <= u64::MAX,
    ensures
        ({
            let n = outcomes@.len();
            let processed = spec_processed_count(n, cancel_after);
            let cancelled = processed < n;
            &&& r.0.wf()
            &&& r.0.runner_id == runner_id
            &&& r.0.task_count == n
            &&& r.0.current_task == processed
            &&& r.0.completed_tasks == outcomes@.subrange(0, processed as int).filter(
                ok_outcome_pred(),
            ).len()
            &&& r.0.file_statuses@.len() == processed
            &&& forall|i: int|
                0 <= i < processed ==> r.0.file_statuses@[i] == spec_status_of_outcome(
                    #[trigger] outcomes@[i],
                )
            &&& r.0.status == (if cancelled {
                JobStatus::Cancelled
            } else {
                JobStatus::Completed
            })
            &&& r.1@.len() == processed + 2
            &&& r.1@[0] == (ClientEvent::JobStarted {
                runner_id,
                current_task: 1,
                task_count: n as u64,
                message: None::<String>,
            })
            &&& forall|k: int|
                0 <= k < processed ==> (#[trigger] r.1@[k + 1]) == (ClientEvent::JobProgress {
                    runner_id,
                    current_task: (k + 1) as u64,
                    task_count: n as u64,
                    message: None::<String>,
                })
            &&& r.1@[processed as int + 1] == (if cancelled {
                ClientEvent::JobCancelled { runner_id }
            } else {
                ClientEvent::JobCompleted { runner_id }
            })
        }),
{
    let ghost n = outcomes@.len();
    let ghost processed = spec_processed_count(n, cancel_after);
    let task_count = outcomes.len() as u64;
    let (mut run, started) = ScanRun::start(runner_id, task_count);
    let mut events: Vec<ClientEvent> = Vec::new();
    events.push(started);
    let mut i: usize = 0;
    let mut running = true;
    proof {
        reveal(Seq::filter);
        assert(outcomes@.subrange(0, 0) =~= Seq::<
            Result<ProcessedMediaFile, ProcessFileError>,
        >::empty());
    }
    while i < outcomes.len() && running
        invariant
            n == outcomes@.len(),
            n <= u64::MAX,
            processed == spec_processed_count(n, cancel_after),
            i <= n,
            run.wf(),
            run.runner_id == runner_id,
            run.task_count == n,
            running == (run.status is Running),
            run.current_task == if running {
                i as int
            } else {
                processed as int
            },
            run.completed_tasks == outcomes@.subrange(0, run.current_task as int).filter(
                ok_outcome_pred(),
            ).len(),
            running ==> i <= processed,
            running ==> !run.cancel_requested,
            !running ==> run.status == JobStatus::Cancelled && i == processed && processed < n,
            run.file_statuses@.len() == run.current_task,
            forall|k: int|
                0 <= k < run.file_statuses@.len() ==> run.file_statuses@[k]
                    == spec_status_of_outcome(#[trigger] outcomes@[k]),
            events@.len() == run.current_task + 1 + (if running {
                0int
            } else {
                1int
            }),
            events@[0] == (ClientEvent::JobStarted {
                runner_id: run.runner_id,
                current_task: 1,
                task_count: n as u64,
                message: None::<String>,
            }),
            forall|k: int|
                0 <= k < run.current_task ==> (#[trigger] events@[k + 1]) == (ClientEvent::JobProgress {
                    runner_id: run.runner_id,
                    current_task: (k + 1) as u64,
                    task_count: n as u64,
                    message: None::<String>,
                }),
            !running ==> events@[run.current_task + 1] == (ClientEvent::JobCancelled {
                runner_id: run.runner_id,
            }),
        decreases n - i + (if running {
            1int
        } else {
            0int
        }),
    {
        let cancel_now = match cancel_after {
            Some(c) => c == i,
            None => false,
        };
        if cancel_now {
            run.request_cancel();
        }
        match run.checkpoint() {
            Some(ev) => {
                events.push(ev);
                running = false;
            },
            None => {
                let ghost prefix = outcomes@.subrange(0, i as int);
                let ghost next = outcomes@.subrange(0, i + 1 as int);
                let ev = run.process_file(&outcomes[i]);
                events.push(ev);
                proof {
                    assert(next.drop_last() =~= prefix);
                    assert(next.last() == outcomes@[i as int]);
                    reveal(Seq::filter);
                }
                i = i + 1;
            },
        }
    }
    if running {
        match run.checkpoint() {
            Some(ev) => {
                events.push(ev);
            },
            None => {
                proof {
                    assert(false);
                }
            },
        }
    }
    (run, events)
}

/// A job waiting in the queue.
pub struct QueuedJob {
    pub id: u64,
    pub job: JobVariant,
}

/// The scheduler: one FIFO queue of submitted jobs, at most one running.
pub struct JobScheduler {
    pub queue: Vec<QueuedJob>,
    /// Id of the job currently running, if any: single-flight by shape.
    pub running: Option<u64>,
    /// Cooperative cancellation flag for the running job.
    pub cancel_requested: bool,
    pub next_id: u64,
    /// Set when the process is shutting down: submissions are rejected.
    pub shutdown: bool,
}

impl JobScheduler {
    /// Every queued id, and the running id, was issued before `next_id`.
    pub open spec fn wf(&self) -> bool {
        &&& forall|k: int|
            0 <= k < self.queue@.len() ==> (#[trigger] self.queue@[k]).id < self.next_id
        &&& match self.running {
            Some(id) => id < self.next_id,
            None => true,
        }
    }

    /// A fresh scheduler: empty queue, nothing running, accepting work.
    pub fn new() -> (r: JobScheduler)
        ensures
            r.wf(),
            r.queue@ =~= Seq::<QueuedJob>::empty(),
            r.running is None,
            !r.cancel_requested,
            !r.shutdown,
    {
        JobScheduler {
            queue: Vec::new(),
            running: None,
            cancel_requested: false,
            next_id: 0,
            shutdown: false,
        }
    }

    /// Submit a job: appended at the queue's tail with a fresh id — always
    /// accepted, unless the scheduler is shutting down, which fails with a
    /// service-unavailable condition and changes nothing.
    pub fn submit(&mut self, job: JobVariant) -> (r: Result<u64, ApiError>)
        requires
            old(self).wf(),
            old(self).next_id < u64::MAX,
        ensures
            final(self).wf(),
            match r {
                Ok(id) => {
                    &&& !old(self).shutdown
                    &&& id == old(self).next_id
                    &&& final(self).queue@.len() == old(self).queue@.len() + 1
                    &&& final(self).queue@ == old(self).queue@.push(QueuedJob { id, job })
                    &&& final(self).next_id == old(self).next_id + 1
                    &&& final(self).running == old(self).running
                    &&& final(self).cancel_requested == old(self).cancel_requested
                    &&& final(self).shutdown == old(self).shutdown
                },
                Err(e) => {
                    &&& old(self).shutdown
                    &&& e matches ApiError::ServiceUnavailable(m) && m@
                        == "The job scheduler is shutting down"@
                    &&& *final(self) == *old(self)
                },
            },
    {
        if self.shutdown {
            let mut m = String::new();
            m.append("The job scheduler is shutting down");
            return Err(ApiError::ServiceUnavailable(m));
        }
        let id = self.next_id;
        self.next_id = self.next_id + 1;
        self.queue.push(QueuedJob { id, job });
        Ok(id)
    }

    /// Dispatch the next job: when idle and work is queued, the queue's
    /// head starts running — FIFO start order, no reordering, no
    /// preemption. Otherwise nothing changes.
    pub fn dispatch(&mut self) -> (r: Option<QueuedJob>)
        requires
            old(self).wf(),
        ensures
            final(self).wf(),
            final(self).next_id == old(self).next_id,
            final(self).shutdown == old(self).shutdown,
            match r {
                Some(head) => {
                    &&& old(self).running is None
                    &&& old(self).queue@.len() > 0
                    &&& head == old(self).queue@[0]
                    &&& final(self).queue@ == old(self).queue@.subrange(
                        1,
                        old(self).queue@.len() as int,
                    )
                    &&& final(self).running == Some(head.id)
                    &&& !final(self).cancel_requested
                },
                None => {
                    &&& (old(self).running is Some || old(self).queue@.len() == 0)
                    &&& *final(self) == *old(self)
                },
            },
    {
        if self.running.is_some() {
            return None;
        }
        if self.queue.len() == 0 {
            return None;
        }
        let head = self.queue.remove(0);
        self.running = Some(head.id);
        self.cancel_requested = false;
        Some(head)
    }

    /// Mark the running job finished: the runner seat frees up for the
    /// next dispatch.
    pub fn finish_running(&mut self)
        requires
            old(self).wf(),
        ensures
            final(self).wf(),
            final(self).running is None,
            !final(self).cancel_requested,
            final(self).queue == old(self).queue,
            final(self).next_id == old(self).next_id,
            final(self).shutdown == old(self).shutdown,
    {
        self.running = None;
        self.cancel_requested = false;
    }

    /// Request cancellation of a job: sets the cooperative flag when that
    /// job is the running one; a finished or unknown job is unaffected.
    pub fn cancel(&mut self, job_id: u64) -> (r: bool)
        requires
            old(self).wf(),
        ensures
            final(self).wf(),
            r == (old(self).running == Some(job_id)),
            final(self).cancel_requested == (old(self).cancel_requested || r),
            final(self).queue == old(self).queue,
            final(self).running == old(self).running,
            final(self).next_id == old(self).next_id,
            final(self).shutdown == old(self).shutdown,
    {
        let hit = match self.running {
            Some(id) => id == job_id,
            None => false,
        };
        if hit {
            self.cancel_requested = true;
        }
        hit
    }

    /// Begin shutdown: later submissions are rejected.
    pub fn shut_down(&mut self)
        requires
            old(self).wf(),
        ensures
            final(self).wf(),
            final(self).shutdown,
            final(self).queue == old(self).queue,
            final(self).running == old(self).running,
            final(self).cancel_requested == old(self).cancel_requested,
            final(self).next_id == old(self).next_id,
    {
        self.shutdown = true;
    }
}

} // verus!
