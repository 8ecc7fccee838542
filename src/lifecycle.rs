//! The job lifecycle state machine. It owns the UI state, the persisted slot
//! holding the one active job, the selected file and the polling scheduler.
//! Its host performs what each transition asks for (timer commands, a write
//! of the slot to durable storage) and feeds back submission and poll results.
use vstd::prelude::*;
use vstd::string::*;
use crate::api::{opt_view, ApiError, ApiFailure, JobProgress, JobRecord, JobState, JobStatus, TranscriptionJob, failure_message};
use crate::config::JOB_POLL_INTERVAL_MS;
use crate::scheduler::{PollScheduler, TimerCommand, lemma_live_after_concat, live_after, live_count};
use crate::text::{decimal, decimal_text};

verus! {

/// The state of the transcription UI.
#[derive(Debug, Clone, PartialEq)]
pub enum TranscriptionUiStatus {
    Idle,
    FileSelected,
    Submitting,
    Monitoring,
    Completed(String),
    Error(String),
}

/// What a `TranscriptionUiStatus` holds, with its texts as character sequences.
pub enum UiPhase {
    Idle,
    FileSelected,
    Submitting,
    Monitoring,
    Completed(Seq<char>),
    Error(Seq<char>),
}

impl View for TranscriptionUiStatus {
    type V = UiPhase;

    open spec fn view(&self) -> UiPhase {
        match self {
            TranscriptionUiStatus::Idle => UiPhase::Idle,
            TranscriptionUiStatus::FileSelected => UiPhase::FileSelected,
            TranscriptionUiStatus::Submitting => UiPhase::Submitting,
            TranscriptionUiStatus::Monitoring => UiPhase::Monitoring,
            TranscriptionUiStatus::Completed(r) => UiPhase::Completed(r@),
            TranscriptionUiStatus::Error(m) => UiPhase::Error(m@),
        }
    }
}

/// The whole state of the machine.
pub struct LifecycleModel {
    pub ui: UiPhase,
    /// The persisted slot: the one active job.
    pub slot: Option<JobRecord>,
    /// Whether a file reference is held.
    pub has_file: bool,
    /// The last non-terminal poll result, shown while monitoring.
    pub progress: Option<Result<JobProgress, ApiFailure>>,
    /// The job id the polling timer is armed for.
    pub timer: Option<Seq<char>>,
}

/// The state's invariant: the slot holds a job exactly while monitoring, the
/// polling timer is armed for that job and for nothing else, and a file is
/// held whenever one is about to be submitted.
pub open spec fn consistent(m: LifecycleModel) -> bool {
    &&& (m.slot is Some <==> m.ui is Monitoring)
    &&& m.timer == match m.slot {
        Some(j) => Some(j.job_id),
        None => None::<Seq<char>>,
    }
    &&& (m.ui is FileSelected || m.ui is Submitting) ==> m.has_file
}

/// While submitting or monitoring, the user cannot select files or reset.
pub open spec fn locked(ui: UiPhase) -> bool {
    !(ui is Idle || ui is FileSelected)
}

/// The text shown when a completed job returned no data.
pub open spec fn no_data_text() -> Seq<char> {
    "Transcription completed, but no data was returned."@
}

/// The text shown when a job vanished from the server.
pub open spec fn not_found_text() -> Seq<char> {
    "The previous job was not found on the server. It may have expired."@
}

/// The text shown when a job failed on the server.
pub open spec fn failed_text(detail: Option<Seq<char>>) -> Seq<char> {
    "Job failed: "@ + match detail {
        Some(d) => d,
        None => "No details provided."@,
    }
}

/// The state at start-up, given what the durable slot holds: a persisted
/// job resumes monitoring, with no new submission.
pub open spec fn start_model(persisted: Option<JobRecord>) -> LifecycleModel {
    match persisted {
        Some(j) => LifecycleModel {
            ui: UiPhase::Monitoring,
            slot: Some(j),
            has_file: false,
            progress: None,
            timer: Some(j.job_id),
        },
        None => LifecycleModel {
            ui: UiPhase::Idle,
            slot: None,
            has_file: false,
            progress: None,
            timer: None,
        },
    }
}

/// A file is chosen (`file_count` files in the selection).
pub open spec fn select_next(m: LifecycleModel, file_count: nat) -> LifecycleModel {
    if locked(m.ui) || file_count == 0 {
        m
    } else {
        LifecycleModel { ui: UiPhase::FileSelected, has_file: true, ..m }
    }
}

/// The user asks for the selected file to be transcribed. Only a selected
/// file with an empty slot moves on to submission.
pub open spec fn request_next(m: LifecycleModel) -> LifecycleModel {
    if m.ui is FileSelected && m.slot is None && m.has_file {
        LifecycleModel { ui: UiPhase::Submitting, ..m }
    } else {
        m
    }
}

/// The submission answered. Only a pending submission takes the answer.
pub open spec fn submit_next(m: LifecycleModel, r: Result<JobRecord, ApiFailure>) -> LifecycleModel {
    if !(m.ui is Submitting) {
        m
    } else {
        match r {
            Ok(j) => LifecycleModel {
                ui: UiPhase::Monitoring,
                slot: Some(j),
                has_file: false,
                progress: None,
                timer: Some(j.job_id),
            },
            Err(e) => LifecycleModel { ui: UiPhase::Error(failure_message(e)), ..m },
        }
    }
}

/// Leaves monitoring for the terminal `ui`: the slot is cleared and the timer disarmed.
pub open spec fn finish(m: LifecycleModel, ui: UiPhase) -> LifecycleModel {
    LifecycleModel { ui, slot: None, has_file: m.has_file, progress: None, timer: None }
}

/// Whether a poll answer for `job_id` concerns the job being monitored.
pub open spec fn poll_relevant(m: LifecycleModel, job_id: Seq<char>) -> bool {
    m.ui is Monitoring && m.slot is Some && m.slot->0.job_id == job_id
}

/// A poll of `job_id` answered. Answers that no longer concern the monitored
/// job are ignored; only a terminal status or `NotFound` ends monitoring.
pub open spec fn poll_next(m: LifecycleModel, job_id: Seq<char>, r: Result<JobProgress, ApiFailure>) -> LifecycleModel {
    if !poll_relevant(m, job_id) {
        m
    } else {
        match r {
            Ok(p) => match p.status {
                JobStatus::Completed => finish(
                    m,
                    UiPhase::Completed(
                        match p.data {
                            Some(d) => d,
                            None => no_data_text(),
                        },
                    ),
                ),
                JobStatus::Failed => finish(m, UiPhase::Error(failed_text(p.data))),
                _ => LifecycleModel { progress: Some(Ok(p)), ..m },
            },
            Err(ApiFailure::NotFound) => finish(m, UiPhase::Error(not_found_text())),
            Err(e) => LifecycleModel { progress: Some(Err(e)), ..m },
        }
    }
}

/// Whether a reset is accepted: not while a submission or monitoring runs.
pub open spec fn reset_allowed(m: LifecycleModel) -> bool {
    !(m.ui is Submitting || m.ui is Monitoring)
}

/// The user resets: back to `Idle` with nothing held.
pub open spec fn reset_next(m: LifecycleModel) -> LifecycleModel {
    if reset_allowed(m) {
        LifecycleModel { ui: UiPhase::Idle, slot: None, has_file: false, progress: None, timer: None }
    } else {
        m
    }
}

/// An input to the machine.
pub enum LifecycleEvent {
    SelectFile { file_count: nat },
    RequestTranscription,
    SubmitResult(Result<JobRecord, ApiFailure>),
    PollResult(Seq<char>, Result<JobProgress, ApiFailure>),
    Reset,
}

/// The state after one event.
pub open spec fn step(m: LifecycleModel, e: LifecycleEvent) -> LifecycleModel {
    match e {
        LifecycleEvent::SelectFile { file_count } => select_next(m, file_count),
        LifecycleEvent::RequestTranscription => request_next(m),
        LifecycleEvent::SubmitResult(r) => submit_next(m, r),
        LifecycleEvent::PollResult(id, r) => poll_next(m, id, r),
        LifecycleEvent::Reset => reset_next(m),
    }
}

/// The state after a sequence of events.
pub open spec fn run(m: LifecycleModel, es: Seq<LifecycleEvent>) -> LifecycleModel
    decreases es.len(),
{
    if es.len() == 0 {
        m
    } else {
        run(step(m, es[0]), es.drop_first())
    }
}

/// The state after a sequence of poll answers, each for a job id.
pub open spec fn run_polls(m: LifecycleModel, polls: Seq<(Seq<char>, Result<JobProgress, ApiFailure>)>) -> LifecycleModel
    decreases polls.len(),
{
    if polls.len() == 0 {
        m
    } else {
        run_polls(poll_next(m, polls[0].0, polls[0].1), polls.drop_first())
    }
}

/// The timer commands that move the timer from `before` to `after`.
pub open spec fn timer_commands(before: Option<Seq<char>>, after: Option<Seq<char>>) -> Seq<TimerCommand> {
    if before == after {
        seq![]
    } else {
        match (before, after) {
            (None, Some(_)) => seq![TimerCommand::Start { interval_ms: JOB_POLL_INTERVAL_MS }],
            (Some(_), None) => seq![TimerCommand::Cancel],
            _ => seq![TimerCommand::Cancel, TimerCommand::Start { interval_ms: JOB_POLL_INTERVAL_MS }],
        }
    }
}

/// Every transition keeps the invariant.
pub proof fn lemma_step_consistent(m: LifecycleModel, e: LifecycleEvent)
    requires
        consistent(m),
    ensures
        consistent(step(m, e)),
{
}

/// Whatever events arrive, in whatever order, the slot holds a job exactly
/// while the UI is monitoring, and the timer runs for that job alone.
pub proof fn lemma_slot_tracks_monitoring(m: LifecycleModel, es: Seq<LifecycleEvent>)
    requires
        consistent(m),
    ensures
        consistent(run(m, es)),
        run(m, es).slot is Some <==> run(m, es).ui is Monitoring,
    decreases es.len(),
{
    if es.len() > 0 {
        lemma_step_consistent(m, es[0]);
        lemma_slot_tracks_monitoring(step(m, es[0]), es.drop_first());
    }
}

/// For every sequence of poll answers, the slot holds a job exactly while the
/// UI is monitoring.
pub proof fn lemma_polls_keep_slot_iff_monitoring(
    m: LifecycleModel,
    polls: Seq<(Seq<char>, Result<JobProgress, ApiFailure>)>,
)
    requires
        consistent(m),
    ensures
        consistent(run_polls(m, polls)),
        run_polls(m, polls).slot is Some <==> run_polls(m, polls).ui is Monitoring,
    decreases polls.len(),
{
    if polls.len() > 0 {
        lemma_step_consistent(m, LifecycleEvent::PollResult(polls[0].0, polls[0].1));
        lemma_polls_keep_slot_iff_monitoring(poll_next(m, polls[0].0, polls[0].1), polls.drop_first());
    }
}

/// No double submission: while the slot holds a job, a request to transcribe
/// changes nothing, and neither does a submission answer.
pub proof fn lemma_no_double_submit(m: LifecycleModel, r: Result<JobRecord, ApiFailure>)
    requires
        consistent(m),
        m.slot is Some,
    ensures
        request_next(m) == m,
        submit_next(m, r) == m,
{
}

/// Poll answers change nothing once monitoring has ended.
pub proof fn lemma_polls_ignored_after_monitoring(
    m: LifecycleModel,
    polls: Seq<(Seq<char>, Result<JobProgress, ApiFailure>)>,
)
    requires
        !(m.ui is Monitoring),
    ensures
        run_polls(m, polls) == m,
    decreases polls.len(),
{
    if polls.len() > 0 {
        lemma_polls_ignored_after_monitoring(m, polls.drop_first());
    }
}

/// `NotFound` while monitoring always ends in `Error` with the slot cleared
/// and the timer disarmed, and no later poll answers, transient errors
/// included, bring the job back.
pub proof fn lemma_not_found_is_final(
    m: LifecycleModel,
    polls: Seq<(Seq<char>, Result<JobProgress, ApiFailure>)>,
)
    requires
        consistent(m),
        m.ui is Monitoring,
    ensures
        poll_next(m, m.slot->0.job_id, Err(ApiFailure::NotFound)).ui == UiPhase::Error(not_found_text()),
        poll_next(m, m.slot->0.job_id, Err(ApiFailure::NotFound)).slot is None,
        poll_next(m, m.slot->0.job_id, Err(ApiFailure::NotFound)).timer is None,
        run_polls(poll_next(m, m.slot->0.job_id, Err(ApiFailure::NotFound)), polls) == poll_next(
            m,
            m.slot->0.job_id,
            Err(ApiFailure::NotFound),
        ),
{
    lemma_polls_ignored_after_monitoring(poll_next(m, m.slot->0.job_id, Err(ApiFailure::NotFound)), polls);
}

/// Reload recovery: with a persisted job at start-up the machine is
/// monitoring that very job, with its timer armed, and submits nothing.
pub proof fn lemma_resume_on_reload(j: JobRecord)
    ensures
        start_model(Some(j)).ui == UiPhase::Monitoring,
        start_model(Some(j)).slot == Some(j),
        start_model(Some(j)).timer == Some(j.job_id),
        consistent(start_model(Some(j))),
{
}

/// The text shown while monitoring, from the last poll answer kept.
pub open spec fn progress_text(p: Option<Result<JobProgress, ApiFailure>>) -> Seq<char> {
    match p {
        Some(Ok(s)) => match s.status {
            JobStatus::Queued => "Job is queued at position "@ + decimal(
                match s.queue_position {
                    Some(q) => q as nat,
                    None => 0,
                },
            ) + "."@,
            JobStatus::Processing => "Job is being processed..."@,
            _ => "Waiting for status update..."@,
        },
        Some(Err(_)) => "Error polling job status... Retrying."@,
        None => "Checking job status..."@,
    }
}

/// Every timer command issued along a sequence of events, in order.
pub open spec fn run_timer_commands(m: LifecycleModel, es: Seq<LifecycleEvent>) -> Seq<TimerCommand>
    decreases es.len(),
{
    if es.len() == 0 {
        seq![]
    } else {
        timer_commands(m.timer, step(m, es[0]).timer) + run_timer_commands(step(m, es[0]), es.drop_first())
    }
}

/// Whatever events arrive, the host that carries out the machine's timer
/// commands never has two polling timers live at once, and ends with one
/// exactly when the machine is monitoring.
pub proof fn lemma_lifecycle_timers_never_overlap(m: LifecycleModel, es: Seq<LifecycleEvent>)
    requires
        consistent(m),
    ensures
        live_after(live_count(m.timer), run_timer_commands(m, es)) == Some(live_count(run(m, es).timer)),
        live_count(run(m, es).timer) == (if run(m, es).ui is Monitoring { 1nat } else { 0nat }),
    decreases es.len(),
{
    lemma_slot_tracks_monitoring(m, es);
    if es.len() > 0 {
        let next = step(m, es[0]);
        let first = timer_commands(m.timer, next.timer);
        lemma_step_consistent(m, es[0]);
        lemma_lifecycle_timers_never_overlap(next, es.drop_first());
        lemma_live_after_concat(live_count(m.timer), first, run_timer_commands(next, es.drop_first()));
        assert(live_after(live_count(m.timer), first) == Some(live_count(next.timer))) by {
            reveal_with_fuel(live_after, 3);
        }
    }
}

/// What the host must do after a transition.
pub struct Effects {
    /// Commands for the polling timer, in order.
    pub timer: Vec<TimerCommand>,
    /// Whether the slot changed and must be written to durable storage.
    pub persist_slot: bool,
    /// Whether the file picker's remembered selection must be cleared.
    pub clear_file_input: bool,
}

/// The view of an optional job.
pub open spec fn job_opt_view(o: Option<TranscriptionJob>) -> Option<JobRecord> {
    match o {
        Some(j) => Some(j@),
        None => None,
    }
}

/// The view of a submission answer.
pub open spec fn submit_view(r: Result<TranscriptionJob, ApiError>) -> Result<JobRecord, ApiFailure> {
    match r {
        Ok(j) => Ok(j@),
        Err(e) => Err(e@),
    }
}

/// The view of a poll answer.
pub open spec fn poll_view(r: Result<JobState, ApiError>) -> Result<JobProgress, ApiFailure> {
    match r {
        Ok(s) => Ok(s@),
        Err(e) => Err(e@),
    }
}

/// The view of the last poll answer kept for display.
pub open spec fn progress_view(o: Option<Result<JobState, ApiError>>) -> Option<Result<JobProgress, ApiFailure>> {
    match o {
        Some(r) => Some(poll_view(r)),
        None => None,
    }
}

fn no_effects() -> (eff: Effects)
    ensures
        eff.timer@ == Seq::<TimerCommand>::empty(),
        !eff.persist_slot,
        !eff.clear_file_input,
{
    Effects { timer: Vec::new(), persist_slot: false, clear_file_input: false }
}

/// The job lifecycle state machine, generic over the host's file reference.
pub struct TranscriptionLifecycle<F> {
    ui: TranscriptionUiStatus,
    active_job: Option<TranscriptionJob>,
    selected_file: Option<F>,
    job_state: Option<Result<JobState, ApiError>>,
    scheduler: PollScheduler,
}

impl<F> View for TranscriptionLifecycle<F> {
    type V = LifecycleModel;

    closed spec fn view(&self) -> LifecycleModel {
        LifecycleModel {
            ui: self.ui@,
            slot: job_opt_view(self.active_job),
            has_file: self.selected_file is Some,
            progress: progress_view(self.job_state),
            timer: self.scheduler@,
        }
    }
}

impl<F> TranscriptionLifecycle<F> {
    /// The file reference held, if any.
    pub closed spec fn file(&self) -> Option<F> {
        self.selected_file
    }

    /// Starts the machine from what the durable slot holds. A persisted job
    /// is monitored again at once, and its timer armed.
    pub fn start(persisted: Option<TranscriptionJob>) -> (r: (Self, Effects))
        ensures
            r.0@ == start_model(job_opt_view(persisted)),
            consistent(r.0@),
            r.0.file() is None,
            r.1.timer@ == timer_commands(None, r.0@.timer),
            !r.1.persist_slot,
            !r.1.clear_file_input,
    {
        let mut scheduler = PollScheduler::new();
        match persisted {
            Some(job) => {
                let cmds = scheduler.arm(&job.job_id, JOB_POLL_INTERVAL_MS);
                let m = TranscriptionLifecycle {
                    ui: TranscriptionUiStatus::Monitoring,
                    active_job: Some(job),
                    selected_file: None,
                    job_state: None,
                    scheduler,
                };
                (m, Effects { timer: cmds, persist_slot: false, clear_file_input: false })
            },
            None => {
                let m = TranscriptionLifecycle {
                    ui: TranscriptionUiStatus::Idle,
                    active_job: None,
                    selected_file: None,
                    job_state: None,
                    scheduler,
                };
                (m, no_effects())
            },
        }
    }

    /// The UI state.
    pub fn ui(&self) -> (r: &TranscriptionUiStatus)
        ensures
            r@ == self@.ui,
    {
        &self.ui
    }

    /// The persisted slot.
    pub fn active_job(&self) -> (r: &Option<TranscriptionJob>)
        ensures
            job_opt_view(*r) == self@.slot,
    {
        &self.active_job
    }

    /// The last non-terminal poll answer.
    pub fn job_state(&self) -> (r: &Option<Result<JobState, ApiError>>)
        ensures
            progress_view(*r) == self@.progress,
    {
        &self.job_state
    }

    /// The file reference held, if any.
    pub fn selected_file(&self) -> (r: Option<&F>)
        ensures
            r is Some <==> self@.has_file,
            self@.has_file <==> self.file() is Some,
            r is Some ==> self.file() == Some(*r->0),
    {
        match &self.selected_file {
            Some(f) => Some(f),
            None => None,
        }
    }

    /// Whether file selection and reset are refused (submitting or monitoring).
    pub fn is_locked(&self) -> (r: bool)
        ensures
            r == locked(self@.ui),
    {
        !matches!(self.ui, TranscriptionUiStatus::Idle | TranscriptionUiStatus::FileSelected)
    }

    /// The job to poll: the slot's job id while monitoring.
    pub fn poll_target(&self) -> (r: Option<&String>)
        requires
            consistent(self@),
        ensures
            r is Some <==> self@.ui is Monitoring,
            r is Some ==> self@.slot->0.job_id == r->0@,
    {
        match &self.active_job {
            Some(j) => Some(&j.job_id),
            None => None,
        }
    }

    /// The text shown while monitoring.
    pub fn progress_message(&self) -> (r: String)
        ensures
            r@ == progress_text(self@.progress),
    {
        match &self.job_state {
            Some(Ok(s)) => match s.status {
                JobStatus::Queued => {
                    let q: u32 = match s.queue_position {
                        Some(q) => q,
                        None => 0,
                    };
                    String::from_str("Job is queued at position ").concat(decimal_text(q as u64).as_str()).concat(".")
                },
                JobStatus::Processing => String::from_str("Job is being processed..."),
                _ => String::from_str("Waiting for status update..."),
            },
            Some(Err(_)) => String::from_str("Error polling job status... Retrying."),
            None => String::from_str("Checking job status..."),
        }
    }

    /// A selection of `file_count` files arrived from the file picker.
    pub fn select_file(&mut self, file: F, file_count: usize) -> (accepted: bool)
        requires
            consistent(old(self)@),
        ensures
            final(self)@ == select_next(old(self)@, file_count as nat),
            consistent(final(self)@),
            accepted == !(locked(old(self)@.ui) || file_count == 0),
            accepted ==> final(self).file() == Some(file),
            !accepted ==> final(self).file() == old(self).file(),
    {
        if self.is_locked() || file_count == 0 {
            return false;
        }
        self.selected_file = Some(file);
        self.ui = TranscriptionUiStatus::FileSelected;
        true
    }

    /// The user asks for the selected file to be transcribed. Refused unless a
    /// file is selected and the slot is empty.
    pub fn request_transcription(&mut self) -> (accepted: bool)
        requires
            consistent(old(self)@),
        ensures
            final(self)@ == request_next(old(self)@),
            consistent(final(self)@),
            final(self).file() == old(self).file(),
            accepted == (final(self)@.ui is Submitting && !(old(self)@.ui is Submitting)),
    {
        if matches!(self.ui, TranscriptionUiStatus::FileSelected) && self.active_job.is_none()
            && self.selected_file.is_some() {
            self.ui = TranscriptionUiStatus::Submitting;
            true
        } else {
            false
        }
    }

    /// The submission answered. Ignored unless a submission is pending; on
    /// success the job fills the slot and monitoring starts.
    pub fn on_submit_result(&mut self, result: Result<TranscriptionJob, ApiError>) -> (eff: Effects)
        requires
            consistent(old(self)@),
        ensures
            final(self)@ == submit_next(old(self)@, submit_view(result)),
            consistent(final(self)@),
            eff.timer@ == timer_commands(old(self)@.timer, final(self)@.timer),
            eff.persist_slot == (old(self)@.ui is Submitting && result is Ok),
            !eff.clear_file_input,
    {
        if !matches!(self.ui, TranscriptionUiStatus::Submitting) {
            return no_effects();
        }
        match result {
            Ok(job) => {
                let cmds = self.scheduler.arm(&job.job_id, JOB_POLL_INTERVAL_MS);
                self.active_job = Some(job);
                self.selected_file = None;
                self.job_state = None;
                self.ui = TranscriptionUiStatus::Monitoring;
                Effects { timer: cmds, persist_slot: true, clear_file_input: false }
            },
            Err(e) => {
                self.ui = TranscriptionUiStatus::Error(e.message());
                no_effects()
            },
        }
    }

    fn finish(&mut self, ui: TranscriptionUiStatus) -> (eff: Effects)
        requires
            consistent(old(self)@),
            old(self)@.ui is Monitoring,
        ensures
            final(self)@ == finish(old(self)@, ui@),
            final(self).file() == old(self).file(),
            eff.timer@ == timer_commands(old(self)@.timer, None),
            eff.persist_slot,
            !eff.clear_file_input,
    {
        let cmds = self.scheduler.disarm();
        self.ui = ui;
        self.active_job = None;
        self.job_state = None;
        Effects { timer: cmds, persist_slot: true, clear_file_input: false }
    }

    /// A poll of `job_id` answered. Ignored unless that job is being
    /// monitored. `Completed`, `Failed` and `NotFound` end monitoring: the
    /// slot is cleared and the timer disarmed. Other answers are kept for
    /// display and monitoring goes on.
    pub fn on_poll_result(&mut self, job_id: &String, result: Result<JobState, ApiError>) -> (eff: Effects)
        requires
            consistent(old(self)@),
        ensures
            final(self)@ == poll_next(old(self)@, job_id@, poll_view(result)),
            consistent(final(self)@),
            final(self).file() == old(self).file(),
            eff.timer@ == timer_commands(old(self)@.timer, final(self)@.timer),
            eff.persist_slot == (old(self)@.slot is Some && final(self)@.slot is None),
            !eff.clear_file_input,
    {
        let relevant = match &self.active_job {
            Some(j) => matches!(self.ui, TranscriptionUiStatus::Monitoring) && j.job_id == *job_id,
            None => false,
        };
        if !relevant {
            return no_effects();
        }
        match result {
            Ok(state) => match state.status {
                JobStatus::Completed => {
                    let text = match state.data {
                        Some(d) => d,
                        None => String::from_str("Transcription completed, but no data was returned."),
                    };
                    self.finish(TranscriptionUiStatus::Completed(text))
                },
                JobStatus::Failed => {
                    let ghost detail = opt_view(state.data);
                    let text = match state.data {
                        Some(d) => String::from_str("Job failed: ").concat(d.as_str()),
                        None => String::from_str("Job failed: ").concat("No details provided."),
                    };
                    assert(text@ == failed_text(detail));
                    self.finish(TranscriptionUiStatus::Error(text))
                },
                _ => {
                    self.job_state = Some(Ok(state));
                    no_effects()
                },
            },
            Err(ApiError::NotFound) => self.finish(
                TranscriptionUiStatus::Error(
                    String::from_str("The previous job was not found on the server. It may have expired."),
                ),
            ),
            Err(e) => {
                self.job_state = Some(Err(e));
                no_effects()
            },
        }
    }

    /// The user resets. Refused while submitting or monitoring; otherwise the
    /// machine returns to `Idle`, the slot is cleared and the file dropped.
    pub fn reset(&mut self) -> (eff: Effects)
        requires
            consistent(old(self)@),
        ensures
            final(self)@ == reset_next(old(self)@),
            consistent(final(self)@),
            reset_allowed(old(self)@) ==> final(self).file() is None,
            !reset_allowed(old(self)@) ==> final(self).file() == old(self).file(),
            eff.timer@ == timer_commands(old(self)@.timer, final(self)@.timer),
            eff.persist_slot == reset_allowed(old(self)@),
            eff.clear_file_input == reset_allowed(old(self)@),
    {
        if matches!(self.ui, TranscriptionUiStatus::Submitting | TranscriptionUiStatus::Monitoring) {
            return no_effects();
        }
        self.ui = TranscriptionUiStatus::Idle;
        self.active_job = None;
        self.selected_file = None;
        self.job_state = None;
        Effects { timer: Vec::new(), persist_slot: true, clear_file_input: true }
    }

    /// Ends the machine; the host cancels the timer if one runs.
    pub fn shutdown(self) -> (cmds: Vec<TimerCommand>)
        ensures
            cmds@ == timer_commands(self@.timer, None),
    {
        let mut scheduler = self.scheduler;
        scheduler.disarm()
    }
}

} // verus!
