use leontine::api::{ApiError, JobState, JobStatus, TranscriptionJob};
use leontine::lifecycle::{TranscriptionLifecycle, TranscriptionUiStatus};
use leontine::scheduler::TimerCommand;

fn job(id: &str, status: &str) -> TranscriptionJob {
    TranscriptionJob {
        job_id: id.to_string(),
        job_status: status.to_string(),
        queued_at: "2025-01-01T00:00:00Z".to_string(),
        message: "Job queued".to_string(),
        url: format!("/transcriptions/{}", id),
    }
}

fn state(status: JobStatus, queue_position: Option<u32>, data: Option<&str>) -> JobState {
    JobState { status, queue_position, data: data.map(|d| d.to_string()) }
}

/// A machine that has just started monitoring job `id`.
fn monitoring(id: &str) -> TranscriptionLifecycle<String> {
    let (mut m, _) = TranscriptionLifecycle::start(None);
    assert!(m.select_file("audio.wav".to_string(), 1));
    assert!(m.request_transcription());
    m.on_submit_result(Ok(job(id, "queued")));
    assert_eq!(m.ui(), &TranscriptionUiStatus::Monitoring);
    m
}

#[test]
fn submit_then_processing_then_completed() {
    let (mut m, eff) = TranscriptionLifecycle::start(None);
    assert!(eff.timer.is_empty());
    assert_eq!(m.ui(), &TranscriptionUiStatus::Idle);
    assert!(m.select_file("audio.wav".to_string(), 1));
    assert_eq!(m.ui(), &TranscriptionUiStatus::FileSelected);
    assert!(m.request_transcription());
    assert_eq!(m.ui(), &TranscriptionUiStatus::Submitting);
    assert_eq!(m.selected_file(), Some(&"audio.wav".to_string()));

    let eff = m.on_submit_result(Ok(job("J1", "queued")));
    assert_eq!(m.ui(), &TranscriptionUiStatus::Monitoring);
    assert_eq!(m.active_job().as_ref().map(|j| j.job_id.as_str()), Some("J1"));
    assert!(eff.persist_slot);
    assert_eq!(eff.timer, vec![TimerCommand::Start { interval_ms: 5000 }]);
    assert_eq!(m.selected_file(), None);

    let eff = m.on_poll_result(&"J1".to_string(), Ok(state(JobStatus::Processing, None, None)));
    assert_eq!(m.ui(), &TranscriptionUiStatus::Monitoring);
    assert_eq!(m.active_job(), &Some(job("J1", "queued")));
    assert!(!eff.persist_slot);
    assert!(eff.timer.is_empty());

    let eff = m.on_poll_result(
        &"J1".to_string(),
        Ok(state(JobStatus::Completed, None, Some("hello world"))),
    );
    assert_eq!(m.ui(), &TranscriptionUiStatus::Completed("hello world".to_string()));
    assert_eq!(m.active_job(), &None);
    assert!(eff.persist_slot);
    assert_eq!(eff.timer, vec![TimerCommand::Cancel]);
}

#[test]
fn poll_not_found_ends_in_error() {
    let mut m = monitoring("J1");
    let eff = m.on_poll_result(&"J1".to_string(), Err(ApiError::NotFound));
    match m.ui() {
        TranscriptionUiStatus::Error(msg) => assert!(msg.contains("not found")),
        other => panic!("unexpected state {:?}", other),
    }
    assert_eq!(m.active_job(), &None);
    assert!(eff.persist_slot);
    assert_eq!(eff.timer, vec![TimerCommand::Cancel]);
    assert_eq!(m.poll_target(), None);
}

#[test]
fn reset_from_error_returns_to_idle() {
    let (mut m, _) = TranscriptionLifecycle::start(None);
    assert!(m.select_file("audio.wav".to_string(), 1));
    assert!(m.request_transcription());
    m.on_submit_result(Err(ApiError::RequestFailed("offline".to_string())));
    assert!(matches!(m.ui(), TranscriptionUiStatus::Error(_)));
    let eff = m.reset();
    assert_eq!(m.ui(), &TranscriptionUiStatus::Idle);
    assert_eq!(m.active_job(), &None);
    assert_eq!(m.selected_file(), None);
    assert!(eff.persist_slot);
    assert!(eff.clear_file_input);
    assert!(eff.timer.is_empty());
}

#[test]
fn persisted_job_resumes_monitoring() {
    let (m, eff) = TranscriptionLifecycle::<String>::start(Some(job("J7", "queued")));
    assert_eq!(m.ui(), &TranscriptionUiStatus::Monitoring);
    assert_eq!(m.active_job(), &Some(job("J7", "queued")));
    assert_eq!(m.poll_target(), Some(&"J7".to_string()));
    assert_eq!(eff.timer, vec![TimerCommand::Start { interval_ms: 5000 }]);
    assert!(!eff.persist_slot);
}

#[test]
fn no_double_submit_while_slot_holds_job() {
    let mut m = monitoring("J1");
    assert!(!m.select_file("other.wav".to_string(), 1));
    assert!(!m.request_transcription());
    let eff = m.on_submit_result(Ok(job("J2", "queued")));
    assert!(eff.timer.is_empty());
    assert!(!eff.persist_slot);
    assert_eq!(m.active_job(), &Some(job("J1", "queued")));
    assert_eq!(m.ui(), &TranscriptionUiStatus::Monitoring);
}

#[test]
fn second_transcribe_request_is_refused() {
    let (mut m, _) = TranscriptionLifecycle::start(None);
    assert!(m.select_file("audio.wav".to_string(), 1));
    assert!(m.request_transcription());
    assert!(!m.request_transcription());
    assert_eq!(m.ui(), &TranscriptionUiStatus::Submitting);
}

#[test]
fn transcribe_without_file_is_refused() {
    let (mut m, _) = TranscriptionLifecycle::<String>::start(None);
    assert!(!m.request_transcription());
    assert_eq!(m.ui(), &TranscriptionUiStatus::Idle);
}

#[test]
fn not_found_is_not_undone_by_later_polls() {
    let mut m = monitoring("J1");
    m.on_poll_result(&"J1".to_string(), Err(ApiError::NotFound));
    let before = m.ui().clone();
    for _ in 0..3 {
        let eff = m.on_poll_result(&"J1".to_string(), Err(ApiError::RequestFailed("timeout".to_string())));
        assert!(eff.timer.is_empty());
        let eff = m.on_poll_result(&"J1".to_string(), Ok(state(JobStatus::Processing, None, None)));
        assert!(eff.timer.is_empty());
    }
    assert_eq!(m.ui(), &before);
    assert_eq!(m.active_job(), &None);
}

#[test]
fn slot_filled_exactly_while_monitoring() {
    let mut m = monitoring("J1");
    let answers = vec![
        Ok(state(JobStatus::Queued, Some(3), None)),
        Err(ApiError::HttpError(502, "bad gateway".to_string())),
        Ok(state(JobStatus::Processing, None, None)),
        Err(ApiError::RequestFailed("offline".to_string())),
        Ok(state(JobStatus::Failed, None, Some("decoder crashed"))),
        Ok(state(JobStatus::Completed, None, Some("late"))),
    ];
    for a in answers {
        m.on_poll_result(&"J1".to_string(), a);
        let monitoring = m.ui() == &TranscriptionUiStatus::Monitoring;
        assert_eq!(m.active_job().is_some(), monitoring);
    }
    assert_eq!(m.ui(), &TranscriptionUiStatus::Error("Job failed: decoder crashed".to_string()));
}

#[test]
fn transient_poll_error_keeps_monitoring() {
    let mut m = monitoring("J1");
    let eff = m.on_poll_result(&"J1".to_string(), Err(ApiError::HttpError(500, "oops".to_string())));
    assert_eq!(m.ui(), &TranscriptionUiStatus::Monitoring);
    assert!(m.active_job().is_some());
    assert!(eff.timer.is_empty());
    assert!(!eff.persist_slot);
    assert_eq!(m.progress_message(), "Error polling job status... Retrying.");
}

#[test]
fn failed_job_without_detail() {
    let mut m = monitoring("J1");
    m.on_poll_result(&"J1".to_string(), Ok(state(JobStatus::Failed, None, None)));
    assert_eq!(m.ui(), &TranscriptionUiStatus::Error("Job failed: No details provided.".to_string()));
}

#[test]
fn completed_job_without_data() {
    let mut m = monitoring("J1");
    m.on_poll_result(&"J1".to_string(), Ok(state(JobStatus::Completed, None, None)));
    assert_eq!(
        m.ui(),
        &TranscriptionUiStatus::Completed("Transcription completed, but no data was returned.".to_string())
    );
}

#[test]
fn poll_for_another_job_is_ignored() {
    let mut m = monitoring("J1");
    let eff = m.on_poll_result(&"J0".to_string(), Ok(state(JobStatus::Completed, None, Some("stale"))));
    assert_eq!(m.ui(), &TranscriptionUiStatus::Monitoring);
    assert_eq!(m.active_job(), &Some(job("J1", "queued")));
    assert!(eff.timer.is_empty());
}

#[test]
fn poll_after_reset_is_ignored() {
    let mut m = monitoring("J1");
    m.on_poll_result(&"J1".to_string(), Ok(state(JobStatus::Completed, None, Some("done"))));
    m.reset();
    let eff = m.on_poll_result(&"J1".to_string(), Ok(state(JobStatus::Processing, None, None)));
    assert_eq!(m.ui(), &TranscriptionUiStatus::Idle);
    assert_eq!(m.active_job(), &None);
    assert!(eff.timer.is_empty());
}

#[test]
fn submit_failure_shows_error_text() {
    let (mut m, _) = TranscriptionLifecycle::start(None);
    m.select_file("audio.wav".to_string(), 1);
    m.request_transcription();
    let eff = m.on_submit_result(Err(ApiError::HttpError(500, "boom".to_string())));
    assert_eq!(m.ui(), &TranscriptionUiStatus::Error("HTTP error 500: boom".to_string()));
    assert_eq!(m.active_job(), &None);
    assert!(eff.timer.is_empty());
    assert!(!eff.persist_slot);
}

#[test]
fn empty_selection_is_ignored() {
    let (mut m, _) = TranscriptionLifecycle::start(None);
    assert!(!m.select_file("nothing".to_string(), 0));
    assert_eq!(m.ui(), &TranscriptionUiStatus::Idle);
    assert_eq!(m.selected_file(), None);
}

#[test]
fn new_selection_replaces_the_previous_one() {
    let (mut m, _) = TranscriptionLifecycle::start(None);
    assert!(m.select_file("a.wav".to_string(), 1));
    assert!(m.select_file("b.wav".to_string(), 1));
    assert_eq!(m.selected_file(), Some(&"b.wav".to_string()));
}

#[test]
fn clear_selection_returns_to_idle() {
    let (mut m, _) = TranscriptionLifecycle::start(None);
    m.select_file("a.wav".to_string(), 1);
    let eff = m.reset();
    assert_eq!(m.ui(), &TranscriptionUiStatus::Idle);
    assert_eq!(m.selected_file(), None);
    assert!(eff.clear_file_input);
}

#[test]
fn reset_refused_while_monitoring_or_submitting() {
    let mut m = monitoring("J1");
    let eff = m.reset();
    assert!(!eff.persist_slot && !eff.clear_file_input);
    assert_eq!(m.ui(), &TranscriptionUiStatus::Monitoring);
    assert!(m.active_job().is_some());

    let (mut s, _) = TranscriptionLifecycle::start(None);
    s.select_file("a.wav".to_string(), 1);
    s.request_transcription();
    s.reset();
    assert_eq!(s.ui(), &TranscriptionUiStatus::Submitting);
    assert!(s.is_locked());
}

#[test]
fn progress_messages() {
    let mut m = monitoring("J1");
    assert_eq!(m.progress_message(), "Checking job status...");
    m.on_poll_result(&"J1".to_string(), Ok(state(JobStatus::Queued, Some(4), None)));
    assert_eq!(m.progress_message(), "Job is queued at position 4.");
    m.on_poll_result(&"J1".to_string(), Ok(state(JobStatus::Queued, None, None)));
    assert_eq!(m.progress_message(), "Job is queued at position 0.");
    m.on_poll_result(&"J1".to_string(), Ok(state(JobStatus::Processing, None, None)));
    assert_eq!(m.progress_message(), "Job is being processed...");
}

#[test]
fn shutdown_cancels_running_timer() {
    let m = monitoring("J1");
    assert_eq!(m.shutdown(), vec![TimerCommand::Cancel]);
    let (idle, _) = TranscriptionLifecycle::<String>::start(None);
    assert!(idle.shutdown().is_empty());
}

/// Carries out timer commands on a count of live timers; fails on an overlap.
fn replay(live: &mut u32, cmds: &[TimerCommand]) {
    for c in cmds {
        match c {
            TimerCommand::Start { .. } => {
                assert_eq!(*live, 0, "a second timer started while one was live");
                *live = 1;
            }
            TimerCommand::Cancel => *live = 0,
        }
    }
}

#[test]
fn machine_timers_never_overlap() {
    let (mut m, eff) = TranscriptionLifecycle::<String>::start(Some(job("J0", "queued")));
    let mut live: u32 = 0;
    replay(&mut live, &eff.timer);
    for round in 0..4 {
        let id = format!("J{}", round);
        if round > 0 {
            m.select_file("a.wav".to_string(), 1);
            m.request_transcription();
            replay(&mut live, &m.on_submit_result(Ok(job(&id, "queued"))).timer);
        }
        assert_eq!(live, 1);
        replay(&mut live, &m.on_poll_result(&id, Err(ApiError::RequestFailed("x".to_string()))).timer);
        replay(&mut live, &m.on_submit_result(Ok(job("dup", "queued"))).timer);
        assert_eq!(live, 1);
        let end = if round % 2 == 0 { Err(ApiError::NotFound) } else { Ok(state(JobStatus::Completed, None, Some("t"))) };
        replay(&mut live, &m.on_poll_result(&id, end).timer);
        assert_eq!(live, 0);
        replay(&mut live, &m.reset().timer);
        assert_eq!(live, 0);
    }
}
