use stump_core::enums::FileStatus;
use stump_core::error::{ApiError, ProcessFileError};
use stump_core::job::{
    end_job_update, failure_log, new_job_record, start_job_update, ClientEvent, JobRecord,
    JobReport, JobStatus, JobVariant,
};
use stump_core::media_file::ProcessedMediaFile;
use stump_core::models::update_media;
use stump_core::scheduler::{run_scan, JobScheduler, ScanRun};

#[test]
fn job_status_round_trip() {
    for status in [
        JobStatus::Running,
        JobStatus::Queued,
        JobStatus::Completed,
        JobStatus::Cancelled,
        JobStatus::Failed,
    ] {
        assert_eq!(JobStatus::from_str(status.as_str()), status);
    }
    assert_eq!(JobStatus::Running.as_str(), "RUNNING");
    assert!(JobStatus::Completed.is_terminal());
    assert!(!JobStatus::Running.is_terminal());
}

#[test]
fn new_job_record_is_queued() {
    let job = JobVariant::LibraryScan {
        library_path: "/media/comics".to_string(),
    };
    let record = new_job_record("job-1".to_string(), &job);
    assert_eq!(record.id, "job-1");
    assert_eq!(record.kind, "LibraryScanJob");
    assert_eq!(record.details.as_deref(), Some("/media/comics"));
    assert_eq!(record.status, "QUEUED");
    assert_eq!(record.task_count, 0);
    assert_eq!(record.completed_task_count, 0);
}

#[test]
fn start_job_update_sets_count_once_and_announces() {
    let (update, event) = start_job_update(&"job-9".to_string(), 5).expect("start");
    assert_eq!(update.id, "job-9");
    assert_eq!(update.task_count, Some(5));
    assert_eq!(update.status, Some(JobStatus::Running));
    assert_eq!(update.completed_task_count, None);
    match event {
        ClientEvent::JobStarted {
            runner_id,
            current_task,
            task_count,
            message,
        } => {
            assert_eq!(runner_id, "job-9");
            assert_eq!(current_task, 1);
            assert_eq!(task_count, 5);
            assert_eq!(message.as_deref(), Some("Job job-9 started."));
        }
        other => panic!("expected a started event, got {:?}", other),
    }
}

#[test]
fn start_job_update_rejects_oversized_count() {
    let r = start_job_update(&"job-9".to_string(), u64::MAX);
    assert!(matches!(r, Err(ApiError::InternalServerError(_))));
}

#[test]
fn end_job_update_carries_the_outcome() {
    let done = end_job_update(&"job-2".to_string(), JobStatus::Completed, 4, 120).expect("end");
    assert_eq!(done.completed_task_count, Some(4));
    assert_eq!(done.seconds_elapsed, Some(120));
    assert_eq!(done.status, Some(JobStatus::Completed));
    assert_eq!(done.task_count, None);

    let cancelled =
        end_job_update(&"job-3".to_string(), JobStatus::Cancelled, 2, 30).expect("end");
    assert_eq!(cancelled.status, Some(JobStatus::Cancelled));
    assert_eq!(cancelled.completed_task_count, Some(2));

    let failed = end_job_update(&"job-4".to_string(), JobStatus::Failed, 0, 1).expect("end");
    assert_eq!(failed.status, Some(JobStatus::Failed));
}

#[test]
fn cancelled_scan_persists_cancelled() {
    let outcomes: Vec<_> = (0..5).map(|_| ok_outcome()).collect();
    let (run, _) = run_scan("job-5".to_string(), &outcomes, Some(3));
    assert!(run.status.is_terminal());
    let row = end_job_update(&run.runner_id, run.status, run.completed_tasks, 7).expect("end");
    assert_eq!(row.status, Some(JobStatus::Cancelled));
    assert_eq!(row.completed_task_count, Some(3));
}

#[test]
fn job_report_from_record() {
    let record = JobRecord {
        id: "j".to_string(),
        kind: "LibraryScanJob".to_string(),
        details: Some("/media".to_string()),
        status: "CANCELLED".to_string(),
        task_count: 12,
        completed_task_count: 7,
        seconds_elapsed: 33,
        completed_at: "2022-09-01".to_string(),
    };
    let report = JobReport::from_record(record);
    assert_eq!(report.id.as_deref(), Some("j"));
    assert_eq!(report.status, JobStatus::Cancelled);
    assert_eq!(report.task_count, Some(12));
    assert_eq!(report.completed_task_count, Some(7));
    assert_eq!(report.seconds_elapsed, Some(33));
}

#[test]
fn job_report_from_queued_job() {
    let job = JobVariant::LibraryScan {
        library_path: "/media".to_string(),
    };
    let report = JobReport::from_queued(&job);
    assert_eq!(report.id, None);
    assert_eq!(report.kind, "LibraryScanJob");
    assert_eq!(report.status, JobStatus::Queued);
    assert_eq!(report.task_count, None);
}

#[test]
fn failure_log_records_error_level() {
    let event = ClientEvent::JobFailed {
        runner_id: "r1".to_string(),
        message: "the scan root vanished".to_string(),
    };
    let log = failure_log(&event);
    assert_eq!(log.message, "the scan root vanished");
    assert_eq!(log.job_id.as_deref(), Some("r1"));
    assert_eq!(log.level, "ERROR");
}

fn ok_outcome() -> Result<ProcessedMediaFile, ProcessFileError> {
    Ok(ProcessedMediaFile {
        checksum: None,
        metadata: None,
        pages: 1,
    })
}

#[test]
fn cancelling_between_files_stops_the_scan() {
    let outcomes: Vec<_> = (0..5).map(|_| ok_outcome()).collect();
    let (run, events) = run_scan("r1".to_string(), &outcomes, Some(3));
    assert_eq!(run.status, JobStatus::Cancelled);
    assert_eq!(run.file_statuses.len(), 3);
    assert_eq!(run.current_task, 3);
    assert_eq!(events.len(), 5);
    assert!(matches!(events[0], ClientEvent::JobStarted { .. }));
    match &events[1] {
        ClientEvent::JobProgress { current_task, task_count, .. } => {
            assert_eq!(*current_task, 1);
            assert_eq!(*task_count, 5);
        }
        other => panic!("expected progress, got {:?}", other),
    }
    assert!(matches!(events[4], ClientEvent::JobCancelled { .. }));
}

#[test]
fn one_corrupt_file_does_not_fail_the_batch() {
    let mut outcomes: Vec<_> = (0..10).map(|_| ok_outcome()).collect();
    outcomes[4] = Err(ProcessFileError::ArchiveOpenError);
    let (run, events) = run_scan("r2".to_string(), &outcomes, None);
    assert_eq!(run.status, JobStatus::Completed);
    assert_eq!(run.file_statuses.len(), 10);
    assert_eq!(run.completed_tasks, 9);
    for (i, status) in run.file_statuses.iter().enumerate() {
        if i == 4 {
            assert!(matches!(status, FileStatus::Error));
        } else {
            assert!(matches!(status, FileStatus::Ready));
        }
    }
    assert!(matches!(events[11], ClientEvent::JobCompleted { .. }));
}

#[test]
fn unsupported_files_are_recorded_as_unsupported() {
    let outcomes = vec![Err(ProcessFileError::UnsupportedFileType(
        "a.xyz".to_string(),
    ))];
    let (run, _) = run_scan("r3".to_string(), &outcomes, None);
    assert_eq!(run.status, JobStatus::Completed);
    assert!(matches!(run.file_statuses[0], FileStatus::Unsupported));
}

#[test]
fn scheduler_starts_jobs_in_fifo_order() {
    let mut scheduler = JobScheduler::new();
    let first = scheduler
        .submit(JobVariant::LibraryScan { library_path: "/a".to_string() })
        .expect("submit a");
    let second = scheduler
        .submit(JobVariant::LibraryScan { library_path: "/b".to_string() })
        .expect("submit b");
    assert_ne!(first, second);

    let head = scheduler.dispatch().expect("first dispatch");
    assert_eq!(head.id, first);
    assert!(scheduler.dispatch().is_none(), "single-flight: nothing while one runs");
    assert!(scheduler.cancel(head.id));
    scheduler.finish_running();
    let next = scheduler.dispatch().expect("second dispatch");
    assert_eq!(next.id, second);
}

#[test]
fn shutdown_rejects_submissions() {
    let mut scheduler = JobScheduler::new();
    scheduler.shut_down();
    match scheduler.submit(JobVariant::LibraryScan { library_path: "/a".to_string() }) {
        Err(ApiError::ServiceUnavailable(msg)) => {
            assert_eq!(msg, "The job scheduler is shutting down");
        }
        other => panic!("expected service unavailable, got {:?}", other),
    }
}

#[test]
fn io_failures_are_recorded_as_errors() {
    let outcomes = vec![
        ok_outcome(),
        Err(ProcessFileError::IoError("disk gone".to_string())),
    ];
    let (run, _) = run_scan("r4".to_string(), &outcomes, None);
    assert_eq!(run.status, JobStatus::Completed);
    assert!(matches!(run.file_statuses[1], FileStatus::Error));
}

#[test]
fn structural_failure_fails_the_run() {
    let (mut run, _) = ScanRun::start("r5".to_string(), 3);
    let event = run.fail("scan root unreadable".to_string());
    assert_eq!(run.status, JobStatus::Failed);
    match event {
        ClientEvent::JobFailed { runner_id, message } => {
            assert_eq!(runner_id, "r5");
            assert_eq!(message, "scan root unreadable");
        }
        other => panic!("expected a failed event, got {:?}", other),
    }
}

#[test]
fn progress_snapshots_reflect_the_run() {
    let (mut run, _) = ScanRun::start("r6".to_string(), 2);
    let snapshot = run.progress_snapshot();
    assert_eq!(snapshot.runner_id, "r6");
    assert_eq!(snapshot.current_task, Some(0));
    assert_eq!(snapshot.task_count, 2);
    assert_eq!(snapshot.status, None, "a running job carries no terminal status");
    run.process_file(&ok_outcome());
    run.process_file(&ok_outcome());
    run.checkpoint();
    let done = run.progress_snapshot();
    assert_eq!(done.current_task, Some(2));
    assert_eq!(done.status, Some(JobStatus::Completed));
}

#[test]
fn media_updates_record_success_and_failure() {
    let ok = update_media(
        "m1".to_string(),
        Ok(ProcessedMediaFile {
            checksum: Some("abcd".to_string()),
            metadata: None,
            pages: 12,
        }),
    );
    assert_eq!(ok.id, "m1");
    assert!(matches!(ok.status, FileStatus::Ready));
    assert_eq!(ok.checksum.as_deref(), Some("abcd"));
    assert_eq!(ok.pages, 12);

    let err = update_media("m2".to_string(), Err(ProcessFileError::ArchiveReadError));
    assert!(matches!(err.status, FileStatus::Error));
    assert_eq!(err.checksum, None);
    assert_eq!(err.pages, 0);

    let unsupported = update_media(
        "m3".to_string(),
        Err(ProcessFileError::UnsupportedFileType("m3.xyz".to_string())),
    );
    assert!(matches!(unsupported.status, FileStatus::Unsupported));
}

#[test]
fn cancel_misses_non_running_jobs() {
    let mut scheduler = JobScheduler::new();
    let id = scheduler
        .submit(JobVariant::LibraryScan { library_path: "/a".to_string() })
        .expect("submit");
    assert!(!scheduler.cancel(id), "job not running yet");
}
