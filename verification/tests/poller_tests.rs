use jobflow::errors::CoreError;
use jobflow::poller::{interpret_poll, poll_step, poll_until_terminal, start, Param, PollAction};
use jobflow::status::{parse_remote_state, render_status, JobKind, JobState, JobStatus};

fn param(name: &str, value: &str) -> Param {
    Param { name: name.to_string(), value: value.to_string() }
}

fn pending(state: JobState) -> JobStatus {
    JobStatus { state, reason: None, output: None }
}

#[test]
fn start_returns_handle_for_valid_params() {
    let params = vec![
        param("bucket", "b"),
        param("key", "k"),
        param("format", "mp3"),
        param("job", "job1"),
    ];
    let handle = start(JobKind::TranscriptionTask, &params, 42).unwrap();
    assert_eq!(handle.id(), "job1");
    assert!(!handle.id().is_empty());
    assert_eq!(handle.kind(), JobKind::TranscriptionTask);
    assert_eq!(handle.submitted_at(), 42);
}

#[test]
fn start_uses_kind_label_without_job_name() {
    let params = vec![param("bucket", "b"), param("key", "k")];
    let handle = start(JobKind::FaceDetectionTask, &params, 0).unwrap();
    assert_eq!(handle.id(), "face-detection-task");
}

#[test]
fn start_rejects_empty_value() {
    let params = vec![param("bucket", "b"), param("key", "")];
    let err = start(JobKind::TranscriptionTask, &params, 0).unwrap_err();
    assert_eq!(err, CoreError::Validation { field: "key".to_string() });
}

#[test]
fn start_rejects_missing_params() {
    let err = start(JobKind::SpeechSynthesisTask, &Vec::new(), 0).unwrap_err();
    assert_eq!(err, CoreError::Validation { field: "parameters".to_string() });
}

#[test]
fn poll_pending_is_not_an_error() {
    let status = interpret_poll(JobKind::TranscriptionTask, "IN_PROGRESS", None, None).unwrap();
    assert_eq!(status.state, JobState::InProgress);
    assert!(!status.is_terminal());
    let queued = interpret_poll(JobKind::TranscriptionTask, "QUEUED", None, None).unwrap();
    assert_eq!(queued.state, JobState::Queued);
    assert!(!queued.is_terminal());
}

#[test]
fn poll_unknown_state_fails_loudly() {
    let err = interpret_poll(JobKind::TranscriptionTask, "SPINNING", None, None).unwrap_err();
    assert_eq!(err, CoreError::UnknownState { raw: "SPINNING".to_string() });
}

#[test]
fn remote_vocabularies_map_to_canonical_states() {
    assert_eq!(
        parse_remote_state(JobKind::SpeechSynthesisTask, "scheduled").unwrap(),
        JobState::Queued
    );
    assert_eq!(
        parse_remote_state(JobKind::SpeechSynthesisTask, "completed").unwrap(),
        JobState::Completed
    );
    assert_eq!(
        parse_remote_state(JobKind::FaceDetectionTask, "SUCCEEDED").unwrap(),
        JobState::Succeeded
    );
    assert_eq!(
        parse_remote_state(JobKind::TextDetectionTask, "FAILED").unwrap(),
        JobState::Failed
    );
    assert_eq!(
        parse_remote_state(JobKind::TranslationBatchJob, "SUBMITTED").unwrap(),
        JobState::Queued
    );
    assert!(parse_remote_state(JobKind::FaceDetectionTask, "scheduled").is_err());
}

#[test]
fn poll_with_zero_budget_returns_first_report() {
    let reports = vec![pending(JobState::InProgress)];
    let (status, polls) = poll_until_terminal(&reports, 0);
    assert_eq!(polls, 1);
    assert_eq!(status.state, JobState::InProgress);
}

#[test]
fn poll_stops_at_first_terminal_state() {
    let reports = vec![
        pending(JobState::Queued),
        pending(JobState::InProgress),
        pending(JobState::Succeeded),
        pending(JobState::Failed),
    ];
    let (status, polls) = poll_until_terminal(&reports, 3);
    assert_eq!(polls, 3);
    assert_eq!(status.state, JobState::Succeeded);
}

#[test]
fn poll_budget_exhausted_returns_last_observed() {
    let reports = vec![
        pending(JobState::Queued),
        pending(JobState::InProgress),
        pending(JobState::InProgress),
    ];
    let (status, polls) = poll_until_terminal(&reports, 2);
    assert_eq!(polls, 3);
    assert_eq!(status.state, JobState::InProgress);
    assert!(!status.is_terminal());
}

#[test]
fn poll_step_decides_stop_and_retry() {
    let in_progress = pending(JobState::InProgress);
    let done = pending(JobState::Completed);
    assert_eq!(poll_step(1, 3, &in_progress), PollAction::SleepAndRetry);
    assert_eq!(poll_step(4, 3, &in_progress), PollAction::Finish);
    assert_eq!(poll_step(1, 3, &done), PollAction::Finish);
    assert_eq!(poll_step(1, 0, &in_progress), PollAction::Finish);
}

#[test]
fn start_then_pending_poll_advises_retry() {
    let params = vec![
        param("bucket", "b"),
        param("key", "k"),
        param("format", "mp3"),
        param("job", "job1"),
    ];
    let handle = start(JobKind::TranscriptionTask, &params, 7).unwrap();
    assert_eq!(handle.id(), "job1");
    let status = interpret_poll(handle.kind(), "IN_PROGRESS", None, None).unwrap();
    assert!(!status.is_terminal());
    let shown = render_status(&status);
    assert!(shown.contains("try again later"));
}

#[test]
fn failed_without_reason_shows_sentinel() {
    let status = JobStatus { state: JobState::Failed, reason: None, output: None };
    let shown = render_status(&status);
    assert!(!shown.is_empty());
    assert!(shown.contains("No reason is available"));
    assert_eq!(shown, "The job has failed. Reason: No reason is available");
}

#[test]
fn failed_with_reason_shows_it_verbatim() {
    let status = JobStatus {
        state: JobState::Failed,
        reason: Some("access denied".to_string()),
        output: None,
    };
    assert_eq!(render_status(&status), "The job has failed. Reason: access denied");
}

#[test]
fn succeeded_status_shows_output_reference() {
    let status = JobStatus {
        state: JobState::Completed,
        reason: None,
        output: Some("s3://b/out.json".to_string()),
    };
    assert_eq!(render_status(&status), "The job succeeded. Result: s3://b/out.json");
}
