//! Running mriqc over many participants, a bounded number of them at a time.
//!
//! The [`Orchestrator`] admits participants in the order in which they are
//! given, never more than the configured number at once. It passes over
//! those whose output is there already when resuming, stops admitting once
//! the run is interrupted or has failed for good, counts a failed
//! participant as a warning or as an error as configured, and says how the
//! run as a whole has ended.
//!
//! The caller runs the jobs. It asks [`Orchestrator::next_action`] what to
//! do, does it, and reports what has happened.

use crate::cancellable_process::{signal_for, CancelSignal, ChildState, Polled, ProcessOutput};
use crate::mriqc::{
    job_release,
    Mriqc1Options,
    Mriqc1OptionsView,
    Mriqc1ProcessView,
    Mriqc1WaitView,
    MriqcError,
};
use crate::path::{join, join_spec, participant_dir, participant_dir_spec};
use crate::views::{clone_text, clone_texts, option_view, texts};
use vstd::prelude::*;

verus! {

/// Whether a job has run for longer than its timeout allows. Without a
/// timeout no job ever has. Times are in nanoseconds.
pub open spec fn timed_out(timeout: Option<u128>, elapsed: u128) -> bool {
    match timeout {
        Some(timeout) => elapsed > timeout,
        None => false,
    }
}

/// The cancellation check of one job: it fires when the run is interrupted
/// or when the job has run for longer than its timeout.
#[derive(Debug, Clone, Copy, PartialEq, Eq, Structural)]
pub struct CancelCheck {
    /// How long the job may run, in nanoseconds, if there is a limit.
    pub timeout: Option<u128>,
    /// Whether nothing is to be said about a timeout.
    pub quiet: bool,
    /// Whether the timeout of this job has been noted already.
    pub noted: bool,
}

/// What a [`CancelCheck`] answers.
#[derive(Debug, Clone, Copy, PartialEq, Eq, Structural)]
pub struct CancelAnswer {
    /// The signal to cancel the job with, if it is to be cancelled.
    pub signal: Option<CancelSignal>,
    /// Whether to tell the operator now that the job has timed out.
    pub note: bool,
}

impl CancelCheck {
    /// The check after it is asked, and its answer. A job that has timed out
    /// or whose run is interrupted is to be interrupted. A timeout is noted
    /// once, and not at all when the run is quiet.
    pub open spec fn spec_check(self, interrupted: bool, elapsed: u128) -> (CancelCheck, CancelAnswer) {
        let late = timed_out(self.timeout, elapsed);
        let note = late && !self.quiet && !self.noted;
        (
            CancelCheck { noted: self.noted || note, ..self },
            CancelAnswer {
                signal: if late || interrupted {
                    Some(CancelSignal::Interrupt)
                } else {
                    None
                },
                note,
            },
        )
    }

    /// Asks the check. `interrupted` is whether the run has been
    /// interrupted and `elapsed` for how long the job has run, in
    /// nanoseconds.
    pub fn check(&mut self, interrupted: bool, elapsed: u128) -> (answer: CancelAnswer)
        ensures
            (*final(self), answer) == old(self).spec_check(interrupted, elapsed),
    {
        let late = match self.timeout {
            Some(timeout) => elapsed > timeout,
            None => false,
        };
        let note = late && !self.quiet && !self.noted;
        if note {
            self.noted = true;
        }
        CancelAnswer {
            signal: if late || interrupted {
                Some(CancelSignal::Interrupt)
            } else {
                None
            },
            note,
        }
    }
}

/// The cancellation check of a job that starts now, with `timeout` in
/// nanoseconds, if there is one.
pub fn cancel_on_interrupt_or_timeout(timeout: Option<u128>, quiet: bool) -> (check: CancelCheck)
    ensures
        check == (CancelCheck { timeout, quiet, noted: false }),
{
    CancelCheck { timeout, quiet, noted: false }
}

/// Where the output of `participant` lies once mriqc has processed it. That
/// something is there is the one sign that a resumed run goes by.
pub open spec fn resume_sentinel_spec(out_dir: Seq<char>, participant: Seq<char>) -> Seq<char> {
    join_spec(out_dir, participant_dir_spec(participant))
}

/// Where the output of `participant` lies once mriqc has processed it.
pub fn resume_sentinel(out_dir: &str, participant: &str) -> (path: String)
    ensures
        path@ == resume_sentinel_spec(out_dir@, participant@),
{
    let name = participant_dir(participant);
    join(out_dir, name.as_str())
}

/// How one participant stands in a run.
#[derive(Debug, Clone, Copy, PartialEq, Eq, Structural)]
pub enum ParticipantState {
    /// Not admitted yet.
    Pending,
    /// Admitted; it is being found out whether its output is there already.
    Checking,
    /// Admitted; its job runs.
    Running,
    /// Passed over, because its output was there already.
    Skipped,
    /// Its job ended well.
    Succeeded,
    /// Its job was cancelled on request, which is no failure.
    CancelledOk,
    /// Its job failed.
    Failed,
}

impl ParticipantState {
    /// Whether the participant holds one of the places for jobs that run at
    /// the same time.
    pub open spec fn in_flight(self) -> bool {
        self is Checking || self is Running
    }

    /// Whether nothing more happens to the participant.
    pub open spec fn settled(self) -> bool {
        self is Skipped || self is Succeeded || self is CancelledOk || self is Failed
    }
}

/// How a job has ended.
#[derive(Debug, Clone, Copy, PartialEq, Eq, Structural)]
pub enum JobOutcome {
    /// The process ran to its end and reported success.
    Succeeded,
    /// The job was cancelled on request.
    CancelledOk,
    /// The job could not be set up, or the process failed.
    Failed,
}

impl JobOutcome {
    /// The state of a participant whose job has ended like this.
    pub open spec fn state(self) -> ParticipantState {
        match self {
            JobOutcome::Succeeded => ParticipantState::Succeeded,
            JobOutcome::CancelledOk => ParticipantState::CancelledOk,
            JobOutcome::Failed => ParticipantState::Failed,
        }
    }
}

/// How a job has ended, from its verdict and from how it was cancelled. An
/// error is a failure. A cancellation is none, whatever it was for.
pub open spec fn classify_spec(ok: bool, how_cancelled: Option<CancelSignal>) -> JobOutcome {
    if !ok {
        JobOutcome::Failed
    } else if how_cancelled is Some {
        JobOutcome::CancelledOk
    } else {
        JobOutcome::Succeeded
    }
}

/// How a job has ended, from its verdict and from how it was cancelled.
pub fn classify(result: &Result<(), MriqcError>, how_cancelled: Option<CancelSignal>) -> (outcome:
    JobOutcome)
    ensures
        outcome == classify_spec(result is Ok, how_cancelled),
{
    match result {
        Err(_) => JobOutcome::Failed,
        Ok(_) => match how_cancelled {
            Some(_) => JobOutcome::CancelledOk,
            None => JobOutcome::Succeeded,
        },
    }
}

/// How a run as a whole has ended.
#[derive(Debug, Clone, Copy, PartialEq, Eq, Structural)]
pub enum RunOutcome {
    /// Every participant that was admitted is settled, and no failure counts
    /// as an error.
    CompletedOk,
    /// A participant has failed, and failures count as errors.
    CompletedWithFailure,
    /// The run was interrupted.
    Interrupted,
}

/// How a job that has ended counts for the run.
#[derive(Debug, Clone, Copy, PartialEq, Eq, Structural)]
pub enum Settlement {
    /// The participant is done: processed, passed over or cancelled.
    Success,
    /// The participant has failed, which the run takes as a warning and goes
    /// on. `print` says whether the operator is to be told.
    Warning { print: bool },
    /// The participant has failed, which ends the run as a failure.
    Error,
}

/// How many of `states` hold a place for jobs that run at the same time.
pub open spec fn count_in_flight(states: Seq<ParticipantState>) -> nat
    decreases states.len(),
{
    if states.len() == 0 {
        0
    } else {
        count_in_flight(states.drop_last()) + if states.last().in_flight() {
            1nat
        } else {
            0nat
        }
    }
}

/// Whether one of `states` is a failure.
pub open spec fn has_failed(states: Seq<ParticipantState>) -> bool {
    exists|i: int| 0 <= i < states.len() && states[i] == ParticipantState::Failed
}

/// A change of one participant's state changes the count by what that
/// participant gives up and what it takes.
pub proof fn lemma_count_update(states: Seq<ParticipantState>, index: int, state: ParticipantState)
    requires
        0 <= index < states.len(),
    ensures
        count_in_flight(states.update(index, state)) + (if states[index].in_flight() {
            1nat
        } else {
            0nat
        }) == count_in_flight(states) + (if state.in_flight() {
            1nat
        } else {
            0nat
        }),
    decreases states.len(),
{
    let changed = states.update(index, state);
    if index == states.len() - 1 {
        assert(changed.drop_last() =~= states.drop_last());
    } else {
        assert(changed.drop_last() =~= states.drop_last().update(index, state));
        lemma_count_update(states.drop_last(), index, state);
    }
}

/// Where none is in flight, the count is zero.
pub proof fn lemma_count_none(states: Seq<ParticipantState>)
    requires
        forall|i: int| 0 <= i < states.len() ==> !(#[trigger] states[i]).in_flight(),
    ensures
        count_in_flight(states) == 0,
    decreases states.len(),
{
    if states.len() > 0 {
        lemma_count_none(states.drop_last());
    }
}

/// What a run is to do, and how.
#[derive(Debug)]
pub struct RunOptions {
    /// Root directory of BIDS tree containing participants' data.
    pub bids_dir: String,
    /// Output directory.
    pub out_dir: String,
    /// Path to mriqc binary, if it is not the default.
    pub mriqc: Option<String>,
    /// Where to create temporary files, if not in the system's directory
    /// for them.
    pub work_dir: Option<String>,
    /// Additional arguments to pass through to mriqc.
    pub extra_args: Vec<String>,
    /// The participants, in the order in which they are to be admitted.
    pub participants: Vec<String>,
    /// How many participants may be processed at the same time; at least
    /// one.
    pub n_par: usize,
    /// Whether to pass over participants whose output is there already.
    pub resume: bool,
    /// How long one job may run, in nanoseconds, if there is a limit.
    pub timeout: Option<u128>,
    /// Whether a participant that fails ends the run as a failure.
    pub werror: bool,
    /// Whether the operator is to be told nothing.
    pub quiet: bool,
}

/// [`RunOptions`] with its texts as sequences of characters.
pub struct RunOptionsView {
    pub bids_dir: Seq<char>,
    pub out_dir: Seq<char>,
    pub mriqc: Option<Seq<char>>,
    pub work_dir: Option<Seq<char>>,
    pub extra_args: Seq<Seq<char>>,
    pub participants: Seq<Seq<char>>,
    pub n_par: usize,
    pub resume: bool,
    pub timeout: Option<u128>,
    pub werror: bool,
    pub quiet: bool,
}

impl View for RunOptions {
    type V = RunOptionsView;

    open spec fn view(&self) -> RunOptionsView {
        RunOptionsView {
            bids_dir: self.bids_dir@,
            out_dir: self.out_dir@,
            mriqc: option_view(self.mriqc),
            work_dir: option_view(self.work_dir),
            extra_args: texts(self.extra_args@),
            participants: texts(self.participants@),
            n_par: self.n_par,
            resume: self.resume,
            timeout: self.timeout,
            werror: self.werror,
            quiet: self.quiet,
        }
    }
}

/// All that it takes to start the job of one participant.
#[derive(Debug)]
pub struct JobStart {
    /// The place of the participant among the participants of the run.
    pub index: usize,
    /// The options of the job.
    pub options: Mriqc1Options,
    /// The cancellation check of the job. Its time runs from now.
    pub cancel: CancelCheck,
}

/// A [`JobStart`] with its texts as sequences of characters.
pub struct JobStartView {
    pub index: usize,
    pub options: Mriqc1OptionsView,
    pub cancel: CancelCheck,
}

impl View for JobStart {
    type V = JobStartView;

    open spec fn view(&self) -> JobStartView {
        JobStartView { index: self.index, options: self.options@, cancel: self.cancel }
    }
}

/// What the caller of a run is to do next.
#[derive(Debug)]
pub enum RunAction {
    /// Find out whether anything exists at `path`, where the output of the
    /// participant at `index` would lie, and report it with
    /// [`Orchestrator::output_checked`]. The participant is admitted.
    CheckOutput { index: usize, path: String },
    /// Start this job, and report with [`Orchestrator::settle`] how it has
    /// ended. The participant is admitted.
    Start(JobStart),
    /// Wait until one of the jobs that run has ended, and report it.
    Wait,
    /// The run is over, with this outcome. Jobs that still run are to be
    /// abandoned.
    Finish(RunOutcome),
}

/// A [`RunAction`] with its texts as sequences of characters.
pub enum RunActionView {
    CheckOutput { index: usize, path: Seq<char> },
    Start(JobStartView),
    Wait,
    Finish(RunOutcome),
}

impl View for RunAction {
    type V = RunActionView;

    open spec fn view(&self) -> RunActionView {
        match *self {
            RunAction::CheckOutput { index, path } => RunActionView::CheckOutput {
                index,
                path: path@,
            },
            RunAction::Start(start) => RunActionView::Start(start@),
            RunAction::Wait => RunActionView::Wait,
            RunAction::Finish(outcome) => RunActionView::Finish(outcome),
        }
    }
}

/// The state of a run over many participants.
#[derive(Debug)]
pub struct Orchestrator {
    options: RunOptions,
    // How each participant stands.
    states: Vec<ParticipantState>,
    // The place of the participant that is admitted next.
    next: usize,
    // How many participants hold a place.
    in_flight: usize,
    // Whether the run has been interrupted.
    interrupted: bool,
    // Whether a failure has ended the run.
    fatal: bool,
}

/// What an [`Orchestrator`] holds.
pub struct OrchestratorView {
    /// What the run is to do, and how.
    pub options: RunOptionsView,
    /// How each participant stands.
    pub states: Seq<ParticipantState>,
    /// The place of the participant that is admitted next.
    pub next: usize,
    /// Whether the run has been interrupted.
    pub interrupted: bool,
    /// Whether a failure has ended the run.
    pub fatal: bool,
}

impl View for Orchestrator {
    type V = OrchestratorView;

    closed spec fn view(&self) -> OrchestratorView {
        OrchestratorView {
            options: self.options@,
            states: self.states@,
            next: self.next,
            interrupted: self.interrupted,
            fatal: self.fatal,
        }
    }
}

impl OrchestratorView {
    /// How many participants hold a place.
    pub open spec fn in_flight(self) -> nat {
        count_in_flight(self.states)
    }

    /// Whether the run is what a run can come to: there is a state for each
    /// participant; the participants before `next` are admitted and no
    /// others; no more of them hold a place than the run allows; and the run
    /// has failed for good exactly if failures count as errors and a
    /// participant has failed.
    pub open spec fn wf(self) -> bool {
        &&& self.options.n_par >= 1
        &&& self.states.len() == self.options.participants.len()
        &&& self.states.len() <= usize::MAX
        &&& self.next <= self.states.len()
        &&& forall|i: int|
            self.next <= i < self.states.len() ==> self.states[i] == ParticipantState::Pending
        &&& forall|i: int| 0 <= i < self.next ==> self.states[i] != ParticipantState::Pending
        &&& self.in_flight() <= self.options.n_par
        &&& self.fatal == (self.options.werror && has_failed(self.states))
    }

    /// Whether the next participant may be admitted now: there is one, a
    /// place is free, and the run is neither interrupted nor failed.
    pub open spec fn may_admit(self) -> bool {
        &&& !self.fatal
        &&& !self.interrupted
        &&& self.next < self.states.len()
        &&& self.in_flight() < self.options.n_par
    }

    /// All that it takes to start the job of the participant at `index`.
    pub open spec fn job(self, index: usize) -> JobStartView {
        JobStartView {
            index,
            options: Mriqc1OptionsView {
                bids_dir: self.options.bids_dir,
                out_dir: self.options.out_dir,
                participant: self.options.participants[index as int],
                mriqc: self.options.mriqc,
                work_dir: self.options.work_dir,
                extra_args: self.options.extra_args,
            },
            cancel: CancelCheck {
                timeout: self.options.timeout,
                quiet: self.options.quiet,
                noted: false,
            },
        }
    }

    /// The run with the participant at `index` in `state`.
    pub open spec fn with_state(self, index: usize, state: ParticipantState) -> OrchestratorView {
        OrchestratorView { states: self.states.update(index as int, state), ..self }
    }

    /// The run after the next participant is admitted, in `state`.
    pub open spec fn admitted(self, state: ParticipantState) -> OrchestratorView {
        OrchestratorView {
            states: self.states.update(self.next as int, state),
            next: (self.next + 1) as usize,
            ..self
        }
    }

    /// The run after it is asked what to do next, and the answer.
    ///
    /// A run that has failed for good is over at once. Else the next
    /// participant is admitted if it may be: to a check of its output when
    /// resuming, and straight to its job otherwise. Else the run waits while
    /// participants hold places. Else it is over: interrupted if it was, and
    /// completed if not.
    pub open spec fn next_action(self) -> (OrchestratorView, RunActionView) {
        if self.fatal {
            (self, RunActionView::Finish(RunOutcome::CompletedWithFailure))
        } else if self.may_admit() {
            if self.options.resume {
                (
                    self.admitted(ParticipantState::Checking),
                    RunActionView::CheckOutput {
                        index: self.next,
                        path: resume_sentinel_spec(
                            self.options.out_dir,
                            self.options.participants[self.next as int],
                        ),
                    },
                )
            } else {
                (self.admitted(ParticipantState::Running), RunActionView::Start(self.job(self.next)))
            }
        } else if self.in_flight() > 0 {
            (self, RunActionView::Wait)
        } else {
            (
                self,
                RunActionView::Finish(
                    if self.interrupted {
                        RunOutcome::Interrupted
                    } else {
                        RunOutcome::CompletedOk
                    },
                ),
            )
        }
    }

    /// The run after it is told whether the output of the participant at
    /// `index` is there, and the job to start, if any.
    ///
    /// A participant whose output is there is passed over: no job is
    /// started for it. The report counts only for a participant whose check
    /// is awaited.
    pub open spec fn output_checked(self, index: usize, present: bool) -> (
        OrchestratorView,
        Option<JobStartView>,
    ) {
        if index < self.states.len() && self.states[index as int] == ParticipantState::Checking {
            if present {
                (self.with_state(index, ParticipantState::Skipped), None)
            } else {
                (self.with_state(index, ParticipantState::Running), Some(self.job(index)))
            }
        } else {
            (self, None)
        }
    }

    /// The run after it is told how the job of the participant at `index`
    /// has ended, and how that counts.
    ///
    /// A failure is a warning, after which the run goes on, unless failures
    /// count as errors: then it ends the run. The report counts only for a
    /// participant whose job runs.
    pub open spec fn settle(self, index: usize, outcome: JobOutcome) -> (
        OrchestratorView,
        Option<Settlement>,
    ) {
        if index < self.states.len() && self.states[index as int] == ParticipantState::Running {
            let settled = self.with_state(index, outcome.state());
            if outcome == JobOutcome::Failed {
                if self.options.werror {
                    (OrchestratorView { fatal: true, ..settled }, Some(Settlement::Error))
                } else {
                    (settled, Some(Settlement::Warning { print: !self.options.quiet }))
                }
            } else {
                (settled, Some(Settlement::Success))
            }
        } else {
            (self, None)
        }
    }

    /// The run after it is interrupted.
    pub open spec fn interrupt(self) -> OrchestratorView {
        OrchestratorView { interrupted: true, ..self }
    }
}

/// The run over `options` before anything has happened.
pub open spec fn new_run(options: RunOptionsView) -> OrchestratorView {
    OrchestratorView {
        options,
        states: Seq::new(options.participants.len(), |i: int| ParticipantState::Pending),
        next: 0,
        interrupted: false,
        fatal: false,
    }
}

/// A change of the state of one participant from and to anything but a
/// failure leaves it as it was whether any participant has failed.
pub proof fn lemma_failures_kept(states: Seq<ParticipantState>, index: int, state: ParticipantState)
    requires
        0 <= index < states.len(),
        states[index] != ParticipantState::Failed,
        state != ParticipantState::Failed,
    ensures
        has_failed(states.update(index, state)) == has_failed(states),
{
    let changed = states.update(index, state);
    if has_failed(states) {
        let i = choose|i: int| 0 <= i < states.len() && states[i] == ParticipantState::Failed;
        assert(changed[i] == ParticipantState::Failed);
    }
    if has_failed(changed) {
        let i = choose|i: int| 0 <= i < changed.len() && changed[i] == ParticipantState::Failed;
        assert(states[i] == ParticipantState::Failed);
    }
}

/// A run that has not begun is well formed.
pub proof fn lemma_new_run_well_formed(options: RunOptionsView)
    requires
        options.n_par >= 1,
        options.participants.len() <= usize::MAX,
    ensures
        new_run(options).wf(),
        new_run(options).in_flight() == 0,
{
    lemma_count_none(new_run(options).states);
}

/// Asking what to do next leaves a well-formed run well formed.
pub proof fn lemma_next_action_keeps_well_formed(run: OrchestratorView)
    requires
        run.wf(),
    ensures
        run.next_action().0.wf(),
{
    if !run.fatal && run.may_admit() {
        let state = if run.options.resume {
            ParticipantState::Checking
        } else {
            ParticipantState::Running
        };
        lemma_count_update(run.states, run.next as int, state);
        lemma_failures_kept(run.states, run.next as int, state);
    }
}

/// A report on a participant's output leaves a well-formed run well formed.
pub proof fn lemma_output_checked_keeps_well_formed(run: OrchestratorView, index: usize, present: bool)
    requires
        run.wf(),
    ensures
        run.output_checked(index, present).0.wf(),
{
    if index < run.states.len() && run.states[index as int] == ParticipantState::Checking {
        let state = if present {
            ParticipantState::Skipped
        } else {
            ParticipantState::Running
        };
        lemma_count_update(run.states, index as int, state);
        lemma_failures_kept(run.states, index as int, state);
    }
}

/// A report on how a job has ended leaves a well-formed run well formed.
pub proof fn lemma_settle_keeps_well_formed(run: OrchestratorView, index: usize, outcome: JobOutcome)
    requires
        run.wf(),
    ensures
        run.settle(index, outcome).0.wf(),
{
    if index < run.states.len() && run.states[index as int] == ParticipantState::Running {
        let state = outcome.state();
        let settled = run.with_state(index, state);
        lemma_count_update(run.states, index as int, state);
        if outcome == JobOutcome::Failed {
            assert(settled.states[index as int] == ParticipantState::Failed);
        } else {
            lemma_failures_kept(run.states, index as int, state);
        }
    }
}

impl Orchestrator {
    /// Whether the run is what a run can come to: see
    /// [`OrchestratorView::wf`]. Every run that this library hands out is.
    pub closed spec fn wf(&self) -> bool {
        &&& self@.wf()
        &&& self.in_flight == self@.in_flight()
    }

    /// Sets out on a run over `options`. Nobody is admitted yet.
    pub fn new(options: RunOptions) -> (run: Orchestrator)
        requires
            options.n_par >= 1,
        ensures
            run.wf(),
            run@ == new_run(options@),
            run@.in_flight() == 0,
    {
        let mut states: Vec<ParticipantState> = Vec::new();
        let len = options.participants.len();
        let mut i: usize = 0;
        while i < len
            invariant
                i <= len,
                states.len() == i,
                forall|j: int| 0 <= j < i ==> states@[j] == ParticipantState::Pending,
            decreases len - i,
        {
            states.push(ParticipantState::Pending);
            i += 1;
        }
        proof {
            assert(states@ =~= new_run(options@).states);
            lemma_new_run_well_formed(options@);
        }
        Orchestrator { options, states, next: 0, in_flight: 0, interrupted: false, fatal: false }
    }

    /// What the run is to do, and how.
    pub fn options(&self) -> (options: &RunOptions)
        ensures
            options@ == self@.options,
    {
        &self.options
    }

    /// How many participants the run is over.
    pub fn len(&self) -> (len: usize)
        ensures
            len == self@.states.len(),
    {
        self.states.len()
    }

    /// How the participant at `index` stands, if there is one.
    pub fn state(&self, index: usize) -> (state: Option<ParticipantState>)
        ensures
            state == if index < self@.states.len() {
                Some(self@.states[index as int])
            } else {
                None
            },
    {
        if index < self.states.len() {
            Some(self.states[index])
        } else {
            None
        }
    }

    /// How many participants hold a place. It is never more than the run
    /// allows.
    pub fn in_flight(&self) -> (in_flight: usize)
        requires
            self.wf(),
        ensures
            in_flight == self@.in_flight(),
            in_flight <= self@.options.n_par,
    {
        self.in_flight
    }

    /// Whether the run has been interrupted.
    pub fn is_interrupted(&self) -> (interrupted: bool)
        ensures
            interrupted == self@.interrupted,
    {
        self.interrupted
    }

    /// Whether a failure has ended the run.
    pub fn is_fatal(&self) -> (fatal: bool)
        ensures
            fatal == self@.fatal,
    {
        self.fatal
    }

    /// Records that the run is interrupted. From now on nobody is admitted;
    /// jobs that run are left to stop by their own cancellation checks.
    /// Nothing takes the interruption back.
    pub fn interrupt(&mut self)
        requires
            old(self).wf(),
        ensures
            final(self).wf(),
            final(self)@ == old(self)@.interrupt(),
    {
        self.interrupted = true;
    }

    // All that it takes to start the job of the participant at `index`.
    fn job(&self, index: usize) -> (start: JobStart)
        requires
            self.wf(),
            index < self@.states.len(),
        ensures
            start@ == self@.job(index),
    {
        JobStart {
            index,
            options: Mriqc1Options {
                bids_dir: self.options.bids_dir.clone(),
                out_dir: self.options.out_dir.clone(),
                participant: self.options.participants[index].clone(),
                mriqc: clone_text(&self.options.mriqc),
                work_dir: clone_text(&self.options.work_dir),
                extra_args: clone_texts(&self.options.extra_args),
            },
            cancel: cancel_on_interrupt_or_timeout(self.options.timeout, self.options.quiet),
        }
    }

    /// Says what the caller is to do next: see
    /// [`OrchestratorView::next_action`]. A participant is admitted only
    /// while fewer participants hold a place than the run allows.
    pub fn next_action(&mut self) -> (action: RunAction)
        requires
            old(self).wf(),
        ensures
            final(self).wf(),
            (final(self)@, action@) == old(self)@.next_action(),
            final(self)@.in_flight() == old(self)@.in_flight() + if action is CheckOutput
                || action is Start {
                1nat
            } else {
                0nat
            },
    {
        if self.fatal {
            return RunAction::Finish(RunOutcome::CompletedWithFailure);
        }
        if !self.interrupted && self.next < self.states.len() && self.in_flight
            < self.options.n_par {
            let index = self.next;
            let action = if self.options.resume {
                RunAction::CheckOutput {
                    index,
                    path: resume_sentinel(
                        self.options.out_dir.as_str(),
                        self.options.participants[index].as_str(),
                    ),
                }
            } else {
                RunAction::Start(self.job(index))
            };
            let state = if self.options.resume {
                ParticipantState::Checking
            } else {
                ParticipantState::Running
            };
            proof {
                lemma_next_action_keeps_well_formed(self@);
                lemma_count_update(self@.states, index as int, state);
            }
            self.states.set(index, state);
            self.next = index + 1;
            self.in_flight = self.in_flight + 1;
            action
        } else if self.in_flight > 0 {
            RunAction::Wait
        } else if self.interrupted {
            RunAction::Finish(RunOutcome::Interrupted)
        } else {
            RunAction::Finish(RunOutcome::CompletedOk)
        }
    }

    /// Takes the report on whether the output of the participant at `index`
    /// is there already: see [`OrchestratorView::output_checked`]. Where it
    /// is, the participant is passed over and no job is returned.
    pub fn output_checked(&mut self, index: usize, present: bool) -> (start: Option<JobStart>)
        requires
            old(self).wf(),
        ensures
            final(self).wf(),
            (final(self)@, option_view(start)) == old(self)@.output_checked(index, present),
            final(self)@.in_flight() + (if final(self)@ != old(self)@ && present {
                1nat
            } else {
                0nat
            }) == old(self)@.in_flight(),
    {
        if index < self.states.len() && self.states[index] == ParticipantState::Checking {
            let state = if present {
                ParticipantState::Skipped
            } else {
                ParticipantState::Running
            };
            proof {
                lemma_output_checked_keeps_well_formed(self@, index, present);
                lemma_count_update(self@.states, index as int, state);
            }
            let start = if present {
                None
            } else {
                Some(self.job(index))
            };
            self.states.set(index, state);
            if present {
                self.in_flight = self.in_flight - 1;
            }
            start
        } else {
            None
        }
    }

    /// Takes the report on how the job of the participant at `index` has
    /// ended, and says how that counts: see [`OrchestratorView::settle`].
    pub fn settle(&mut self, index: usize, outcome: JobOutcome) -> (settlement: Option<Settlement>)
        requires
            old(self).wf(),
        ensures
            final(self).wf(),
            (final(self)@, settlement) == old(self)@.settle(index, outcome),
            final(self)@.in_flight() + (if settlement is Some {
                1nat
            } else {
                0nat
            }) == old(self)@.in_flight(),
    {
        if index < self.states.len() && self.states[index] == ParticipantState::Running {
            let state = match outcome {
                JobOutcome::Succeeded => ParticipantState::Succeeded,
                JobOutcome::CancelledOk => ParticipantState::CancelledOk,
                JobOutcome::Failed => ParticipantState::Failed,
            };
            proof {
                lemma_settle_keeps_well_formed(self@, index, outcome);
                lemma_count_update(self@.states, index as int, state);
            }
            self.states.set(index, state);
            self.in_flight = self.in_flight - 1;
            match outcome {
                JobOutcome::Failed => {
                    if self.options.werror {
                        self.fatal = true;
                        Some(Settlement::Error)
                    } else {
                        Some(Settlement::Warning { print: !self.options.quiet })
                    }
                },
                _ => Some(Settlement::Success),
            }
        } else {
            None
        }
    }
}

/// One thing that happens to a run.
pub enum RunEvent {
    /// The run is asked what to do next.
    Asked,
    /// It is reported whether the output of a participant is there.
    OutputChecked { index: usize, present: bool },
    /// It is reported how the job of a participant has ended.
    Settled { index: usize, outcome: JobOutcome },
    /// The run is interrupted.
    Interrupted,
}

impl OrchestratorView {
    /// The run after `event`.
    pub open spec fn step(self, event: RunEvent) -> OrchestratorView {
        match event {
            RunEvent::Asked => self.next_action().0,
            RunEvent::OutputChecked { index, present } => self.output_checked(index, present).0,
            RunEvent::Settled { index, outcome } => self.settle(index, outcome).0,
            RunEvent::Interrupted => self.interrupt(),
        }
    }

    /// The job that `event` has the caller start, if any.
    pub open spec fn started(self, event: RunEvent) -> Option<JobStartView> {
        match event {
            RunEvent::Asked => match self.next_action().1 {
                RunActionView::Start(start) => Some(start),
                _ => None,
            },
            RunEvent::OutputChecked { index, present } => self.output_checked(index, present).1,
            _ => None,
        }
    }
}

/// The run after all of `events`, one after the other.
pub open spec fn run_events(run: OrchestratorView, events: Seq<RunEvent>) -> OrchestratorView
    decreases events.len(),
{
    if events.len() == 0 {
        run
    } else {
        run_events(run.step(events[0]), events.skip(1))
    }
}

/// Whatever happens to a well-formed run leaves it well formed, with the
/// options that it had.
pub proof fn lemma_step_keeps_well_formed(run: OrchestratorView, event: RunEvent)
    requires
        run.wf(),
    ensures
        run.step(event).wf(),
        run.step(event).options == run.options,
{
    match event {
        RunEvent::Asked => lemma_next_action_keeps_well_formed(run),
        RunEvent::OutputChecked { index, present } => lemma_output_checked_keeps_well_formed(
            run,
            index,
            present,
        ),
        RunEvent::Settled { index, outcome } => lemma_settle_keeps_well_formed(run, index, outcome),
        RunEvent::Interrupted => {},
    }
}

/// Whatever happens to a run, in whatever order, and however its jobs end:
/// never more participants hold a place than the run allows.
pub proof fn lemma_never_more_in_flight_than_allowed(run: OrchestratorView, events: Seq<RunEvent>)
    requires
        run.wf(),
    ensures
        run_events(run, events).wf(),
        run_events(run, events).options == run.options,
        run_events(run, events).in_flight() <= run.options.n_par,
    decreases events.len(),
{
    if events.len() > 0 {
        lemma_step_keeps_well_formed(run, events[0]);
        lemma_never_more_in_flight_than_allowed(run.step(events[0]), events.skip(1));
    }
}

/// A run holds its bound from the start: for every number of places of at
/// least one, after whatever events, no more participants hold a place than
/// that.
pub proof fn lemma_bound_holds_from_start(options: RunOptionsView, events: Seq<RunEvent>)
    requires
        options.n_par >= 1,
        options.participants.len() <= usize::MAX,
    ensures
        run_events(new_run(options), events).in_flight() <= options.n_par,
{
    lemma_new_run_well_formed(options);
    lemma_never_more_in_flight_than_allowed(new_run(options), events);
}

/// A participant is admitted only into a free place: an event that admits
/// one finds fewer participants holding a place than the run allows.
pub proof fn lemma_admission_needs_free_place(run: OrchestratorView)
    requires
        run.wf(),
        run.next_action().0.next != run.next,
    ensures
        run.in_flight() < run.options.n_par,
        run.next_action().0.in_flight() == run.in_flight() + 1,
        !run.interrupted,
        !run.fatal,
{
    let state = if run.options.resume {
        ParticipantState::Checking
    } else {
        ParticipantState::Running
    };
    lemma_count_update(run.states, run.next as int, state);
}

/// Nothing more happens to a participant that is settled: whatever the
/// event, its state stays, and no job is started for it.
pub proof fn lemma_settled_is_final(run: OrchestratorView, index: usize, event: RunEvent)
    requires
        run.wf(),
        index < run.states.len(),
        run.states[index as int].settled(),
    ensures
        run.step(event).states[index as int] == run.states[index as int],
        run.started(event) matches Some(start) ==> start.index != index,
{
}

/// When resuming, a participant whose output is there already is passed
/// over: it is settled as skipped, no job is started for it then, and none
/// is started for it by anything that happens later. The only way to a job
/// is through the check of the output.
pub proof fn lemma_resume_skips_existing_output(run: OrchestratorView, index: usize, later: RunEvent)
    requires
        run.wf(),
        run.options.resume,
        index < run.states.len(),
        run.states[index as int] == ParticipantState::Checking,
    ensures
        !(run.next_action().1 is Start),
        run.output_checked(index, true) == (
            run.with_state(index, ParticipantState::Skipped),
            None::<JobStartView>,
        ),
        run.with_state(index, ParticipantState::Skipped).step(later).states[index as int]
            == ParticipantState::Skipped,
        run.with_state(index, ParticipantState::Skipped).started(later) matches Some(start)
            ==> start.index != index,
{
    lemma_output_checked_keeps_well_formed(run, index, true);
    lemma_settled_is_final(run.with_state(index, ParticipantState::Skipped), index, later);
}

/// A job that is still running when its timeout has passed is cancelled, and
/// that is no failure: its check fires, its wait resolves as cancelled with
/// a good verdict, the participant is settled as cancelled, which counts as
/// a success, and the run goes on as before. No other participant is
/// touched.
pub proof fn lemma_timeout_cancels_without_failure(
    check: CancelCheck,
    interrupted: bool,
    elapsed: u128,
    job: Mriqc1ProcessView,
    run: OrchestratorView,
    index: usize,
)
    requires
        timed_out(check.timeout, elapsed),
        job.cancellable,
        job.state == ChildState::Running,
        run.wf(),
        index < run.states.len(),
        run.states[index as int] == ParticipantState::Running,
    ensures
        check.spec_check(interrupted, elapsed).1.signal == Some(CancelSignal::Interrupt),
        job.wait(Some(CancelSignal::Interrupt), Polled::<ProcessOutput>::Pending) == (
        Mriqc1WaitView::Done {
            result: Ok(()),
            how_cancelled: Some(CancelSignal::Interrupt),
            signal: signal_for(job.id, CancelSignal::Interrupt),
            release: job_release(job.bids_participant, job.temp_dir),
        }),
        classify_spec(true, Some(CancelSignal::Interrupt)) == JobOutcome::CancelledOk,
        run.settle(index, JobOutcome::CancelledOk) == (
            run.with_state(index, ParticipantState::CancelledOk),
            Some(Settlement::Success),
        ),
        run.settle(index, JobOutcome::CancelledOk).0.fatal == run.fatal,
        forall|other: int|
            0 <= other < run.states.len() && other != index ==> run.settle(
                index,
                JobOutcome::CancelledOk,
            ).0.states[other] == run.states[other],
{
}

/// A participant that fails is a warning where failures do not count as
/// errors: the run goes on and admits as before. Where they do, it is an
/// error: the run is over at once as a failure, and nobody is admitted any
/// more, whatever happens.
pub proof fn lemma_failure_warns_or_ends_run(run: OrchestratorView, index: usize, events: Seq<RunEvent>)
    requires
        run.wf(),
        index < run.states.len(),
        run.states[index as int] == ParticipantState::Running,
    ensures
        !run.options.werror ==> run.settle(index, JobOutcome::Failed) == (
            run.with_state(index, ParticipantState::Failed),
            Some(Settlement::Warning { print: !run.options.quiet }),
        ),
        run.options.werror ==> run.settle(index, JobOutcome::Failed).1 == Some(Settlement::Error),
        run.options.werror ==> run_events(run.settle(index, JobOutcome::Failed).0, events).next
            == run.next,
        run.options.werror ==> run_events(
            run.settle(index, JobOutcome::Failed).0,
            events,
        ).next_action().1 == RunActionView::Finish(RunOutcome::CompletedWithFailure),
{
    if run.options.werror {
        lemma_settle_keeps_well_formed(run, index, JobOutcome::Failed);
        lemma_fatal_run_admits_nobody(run.settle(index, JobOutcome::Failed).0, events);
    }
}

/// A run that has failed for good stays so and admits nobody, whatever
/// happens.
pub proof fn lemma_fatal_run_admits_nobody(run: OrchestratorView, events: Seq<RunEvent>)
    requires
        run.wf(),
        run.fatal,
    ensures
        run_events(run, events).fatal,
        run_events(run, events).next == run.next,
        run_events(run, events).next_action().1 == RunActionView::Finish(
            RunOutcome::CompletedWithFailure,
        ),
    decreases events.len(),
{
    if events.len() > 0 {
        lemma_step_keeps_well_formed(run, events[0]);
        lemma_fatal_run_admits_nobody(run.step(events[0]), events.skip(1));
    }
}

/// An interruption stays, and from then on nobody is admitted, whatever
/// happens.
pub proof fn lemma_interrupted_run_admits_nobody(run: OrchestratorView, events: Seq<RunEvent>)
    requires
        run.wf(),
        run.interrupted,
    ensures
        run_events(run, events).interrupted,
        run_events(run, events).next == run.next,
    decreases events.len(),
{
    if events.len() > 0 {
        lemma_step_keeps_well_formed(run, events[0]);
        lemma_interrupted_run_admits_nobody(run.step(events[0]), events.skip(1));
    }
}

} // verus!
