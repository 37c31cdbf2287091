//! Supervision of one child process that can be cancelled while it is being
//! waited for.
//!
//! A wait is a race between the completion of the process and a cancellation
//! check. The caller polls the process and asks the check; [`ChildWaitFuture`]
//! and [`ChildWaitOutputFuture`] decide from the two answers what the wait
//! resolves to, what is recorded, and whether a signal has to be sent.

use vstd::prelude::*;

verus! {

/// How to signal cancellation to a child process.
#[derive(Debug, Clone, Copy, PartialEq, Eq, Structural)]
pub enum CancelSignal {
    /// Send the child process SIGINT.
    Interrupt,
    /// Send the child process SIGKILL.
    Kill,
}

/// What the operating system reports of a process that has ended.
#[derive(Debug, Clone, Copy, PartialEq, Eq, Structural)]
pub struct ProcessStatus {
    /// The exit code, or `None` if the process was ended by a signal.
    pub code: Option<i32>,
}

impl ProcessStatus {
    /// Whether the process ended by exiting with code zero.
    pub open spec fn spec_success(&self) -> bool {
        self.code == Some(0i32)
    }

    /// Whether the process ended by exiting with code zero.
    #[verifier::when_used_as_spec(spec_success)]
    pub fn success(&self) -> (ok: bool)
        ensures
            ok == self.spec_success(),
    {
        match self.code {
            Some(code) => code == 0,
            None => false,
        }
    }

    /// The exit code, or `None` if the process was ended by a signal.
    pub fn code(&self) -> (code: Option<i32>)
        ensures
            code == self.code,
    {
        self.code
    }
}

/// Exit status of a child process, as one wait reports it.
#[derive(Debug, Clone, Copy)]
pub struct ExitStatus {
    /// How the process was cancelled, or `None` if it was not cancelled.
    pub how_cancelled: Option<CancelSignal>,
    /// Exit status of the process. `None` if the process was cancelled and
    /// had not been seen to exit. Always `Some` if `how_cancelled` is `None`.
    pub status: Option<ProcessStatus>,
}

/// What a process that ran to its end leaves behind.
#[derive(Debug)]
pub struct ProcessOutput {
    /// How the process ended.
    pub status: ProcessStatus,
    /// Everything the process wrote to its standard output.
    pub stdout: Vec<u8>,
    /// Everything the process wrote to its standard error.
    pub stderr: Vec<u8>,
}

/// Output of a child process, as one wait reports it.
#[derive(Debug)]
pub struct Output {
    /// How the process was cancelled, or `None` if it was not cancelled.
    pub how_cancelled: Option<CancelSignal>,
    /// Output of the process. `None` if the process was cancelled: it may
    /// still be running, so nothing has been collected. Always `Some` if
    /// `how_cancelled` is `None`.
    pub output: Option<ProcessOutput>,
}

impl ExitStatus {
    /// Whether the report says how the wait ended: by a cancellation, or
    /// else with the exit status of the process.
    pub open spec fn wf(self) -> bool {
        self.how_cancelled is None ==> self.status is Some
    }
}

impl Output {
    /// Whether the output says how the wait ended: by a cancellation, or
    /// else with what the process left behind.
    pub open spec fn wf(self) -> bool {
        self.how_cancelled is None ==> self.output is Some
    }
}

/// What is on record about a supervised process. `Running` is left at most
/// once, and what is recorded then never changes.
#[derive(Debug, Clone, Copy, PartialEq, Eq, Structural)]
pub enum ChildState {
    /// Neither an exit nor a cancellation has been recorded.
    Running,
    /// Cancellation came before the process was seen to exit.
    Cancelled(CancelSignal),
    /// The process was seen to exit before any cancellation.
    Exited(ProcessStatus),
}

/// A signal that the caller has to deliver to a process.
#[derive(Debug, Clone, Copy, PartialEq, Eq, Structural)]
pub struct SignalRequest {
    /// Identifier of the process to signal. It may be stale by the time the
    /// signal is sent; a failed delivery is not an error.
    pub pid: u32,
    /// Which signal to send.
    pub signal: CancelSignal,
}

/// One look at something that completes later: not yet, or the value it
/// completed with.
#[derive(Debug)]
pub enum Polled<T> {
    /// Not complete yet.
    Pending,
    /// Complete, with a value or with the error that ended the attempt.
    Ready(Result<T, std::io::Error>),
}

/// What one cycle of a wait comes to.
#[derive(Debug)]
pub struct WaitStep<T> {
    /// What the wait itself reports for this cycle.
    pub poll: Polled<T>,
    /// The signal to deliver to the process now, if any.
    pub signal: Option<SignalRequest>,
}

/// The report of a process that exited without being cancelled.
pub open spec fn exited_report(status: ProcessStatus) -> ExitStatus {
    ExitStatus { how_cancelled: None, status: Some(status) }
}

/// The report of a process that was cancelled before it was seen to exit.
pub open spec fn cancelled_report(signal: CancelSignal) -> ExitStatus {
    ExitStatus { how_cancelled: Some(signal), status: None }
}

/// The request that delivers `signal` to the process `id`; none where the
/// process has no identifier any more.
pub open spec fn signal_for(id: Option<u32>, signal: CancelSignal) -> Option<SignalRequest> {
    match id {
        Some(pid) => Some(SignalRequest { pid, signal }),
        None => None,
    }
}

/// One cycle of waiting for a process to exit: the state on record after it,
/// and what the cycle comes to.
///
/// A recorded state answers at once, whatever `cancel` and `polled` say.
/// Otherwise completion wins over cancellation, and cancellation over
/// waiting on.
pub open spec fn wait_step(
    id: Option<u32>,
    state: ChildState,
    cancel: Option<CancelSignal>,
    polled: Polled<ProcessStatus>,
) -> (ChildState, WaitStep<ExitStatus>) {
    match state {
        ChildState::Exited(status) => (
            state,
            WaitStep { poll: Polled::Ready(Ok(exited_report(status))), signal: None },
        ),
        ChildState::Cancelled(signal) => (
            state,
            WaitStep { poll: Polled::Ready(Ok(cancelled_report(signal))), signal: None },
        ),
        ChildState::Running => match polled {
            Polled::Ready(Ok(status)) => (
                ChildState::Exited(status),
                WaitStep { poll: Polled::Ready(Ok(exited_report(status))), signal: None },
            ),
            Polled::Ready(Err(error)) => (
                ChildState::Running,
                WaitStep { poll: Polled::Ready(Err(error)), signal: None },
            ),
            Polled::Pending => match cancel {
                Some(signal) => (
                    ChildState::Cancelled(signal),
                    WaitStep {
                        poll: Polled::Ready(Ok(cancelled_report(signal))),
                        signal: signal_for(id, signal),
                    },
                ),
                None => (ChildState::Running, WaitStep { poll: Polled::Pending, signal: None }),
            },
        },
    }
}

/// One check, without waiting, of whether a process has exited: the state on
/// record after it, and what the check reports.
///
/// A recorded exit is reported again, whatever was `observed`. A process
/// recorded as cancelled stays so; an exit observed after that is reported
/// beside the cancellation.
pub open spec fn try_wait_step(
    state: ChildState,
    observed: Result<Option<ProcessStatus>, std::io::Error>,
) -> (ChildState, Result<Option<ExitStatus>, std::io::Error>) {
    match state {
        ChildState::Exited(status) => (state, Ok(Some(exited_report(status)))),
        _ => match observed {
            Err(error) => (state, Err(error)),
            Ok(None) => (state, Ok(None)),
            Ok(Some(status)) => match state {
                ChildState::Cancelled(signal) => (
                    state,
                    Ok(Some(ExitStatus { how_cancelled: Some(signal), status: Some(status) })),
                ),
                _ => (ChildState::Exited(status), Ok(Some(exited_report(status)))),
            },
        },
    }
}

/// A child process under supervision: its identifier and what is on record
/// about how it ended.
#[derive(Debug)]
pub struct CancellableChild {
    id: Option<u32>,
    state: ChildState,
}

impl CancellableChild {
    /// The identifier of the process, if it has one.
    pub closed spec fn spec_id(&self) -> Option<u32> {
        self.id
    }

    /// What is on record about the process.
    pub closed spec fn spec_state(&self) -> ChildState {
        self.state
    }

    /// Takes a process that was just started under supervision. `id` is what
    /// the operating system calls it.
    pub fn new(id: Option<u32>) -> (child: Self)
        ensures
            child.spec_id() == id,
            child.spec_state() == ChildState::Running,
    {
        CancellableChild { id, state: ChildState::Running }
    }

    /// The identifier of the process, if it has one.
    #[verifier::when_used_as_spec(spec_id)]
    pub fn id(&self) -> (id: Option<u32>)
        ensures
            id == self.spec_id(),
    {
        self.id
    }

    /// What is on record about the process.
    #[verifier::when_used_as_spec(spec_state)]
    pub fn state(&self) -> (state: ChildState)
        ensures
            state == self.spec_state(),
    {
        self.state
    }

    /// What a wait resolves to without asking anyone, if the state on record
    /// settles it. While this is `Some`, [`CancellableChild::wait`] reads
    /// neither the cancellation check nor the process.
    pub fn resolved(&self) -> (report: Option<ExitStatus>)
        ensures
            report == match self.spec_state() {
                ChildState::Running => None,
                ChildState::Cancelled(signal) => Some(cancelled_report(signal)),
                ChildState::Exited(status) => Some(exited_report(status)),
            },
    {
        match self.state {
            ChildState::Running => None,
            ChildState::Cancelled(signal) => Some(
                ExitStatus { how_cancelled: Some(signal), status: None },
            ),
            ChildState::Exited(status) => Some(
                ExitStatus { how_cancelled: None, status: Some(status) },
            ),
        }
    }

    /// One cycle of waiting for the process to exit. `cancel_signal` is what
    /// the cancellation check answered in this cycle and `polled` what a poll
    /// of the process brought.
    ///
    /// The cycle resolves with the real exit status if the process has
    /// completed, with a cancellation if the check fired while the process
    /// was still pending, and stays pending otherwise. Whatever is recorded
    /// is recorded once: later cycles report it again and request no signal.
    pub fn wait(&mut self, cancel_signal: Option<CancelSignal>, polled: Polled<ProcessStatus>) -> (step:
        WaitStep<ExitStatus>)
        ensures
            final(self).spec_id() == old(self).spec_id(),
            (final(self).spec_state(), step) == wait_step(
                old(self).spec_id(),
                old(self).spec_state(),
                cancel_signal,
                polled,
            ),
            step.poll matches Polled::Ready(Ok(report)) ==> report.wf(),
    {
        match self.state {
            ChildState::Exited(status) => WaitStep {
                poll: Polled::Ready(Ok(ExitStatus { how_cancelled: None, status: Some(status) })),
                signal: None,
            },
            ChildState::Cancelled(signal) => WaitStep {
                poll: Polled::Ready(Ok(ExitStatus { how_cancelled: Some(signal), status: None })),
                signal: None,
            },
            ChildState::Running => match polled {
                Polled::Ready(Ok(status)) => {
                    self.state = ChildState::Exited(status);
                    WaitStep {
                        poll: Polled::Ready(
                            Ok(ExitStatus { how_cancelled: None, status: Some(status) }),
                        ),
                        signal: None,
                    }
                },
                Polled::Ready(Err(error)) => WaitStep {
                    poll: Polled::Ready(Err(error)),
                    signal: None,
                },
                Polled::Pending => match cancel_signal {
                    Some(signal) => {
                        self.state = ChildState::Cancelled(signal);
                        WaitStep {
                            poll: Polled::Ready(
                                Ok(ExitStatus { how_cancelled: Some(signal), status: None }),
                            ),
                            signal: signal_request(self.id, signal),
                        }
                    },
                    None => WaitStep { poll: Polled::Pending, signal: None },
                },
            },
        }
    }

    /// One check, without waiting, of whether the process has exited.
    /// `observed` is what the operating system answered.
    pub fn try_wait(&mut self, observed: Result<Option<ProcessStatus>, std::io::Error>) -> (report:
        Result<Option<ExitStatus>, std::io::Error>)
        ensures
            final(self).spec_id() == old(self).spec_id(),
            (final(self).spec_state(), report) == try_wait_step(old(self).spec_state(), observed),
            report matches Ok(Some(report)) ==> report.wf(),
    {
        match self.state {
            ChildState::Exited(status) => Ok(
                Some(ExitStatus { how_cancelled: None, status: Some(status) }),
            ),
            ChildState::Cancelled(signal) => match observed {
                Err(error) => Err(error),
                Ok(None) => Ok(None),
                Ok(Some(status)) => Ok(
                    Some(ExitStatus { how_cancelled: Some(signal), status: Some(status) }),
                ),
            },
            ChildState::Running => match observed {
                Err(error) => Err(error),
                Ok(None) => Ok(None),
                Ok(Some(status)) => {
                    self.state = ChildState::Exited(status);
                    Ok(Some(ExitStatus { how_cancelled: None, status: Some(status) }))
                },
            },
        }
    }

    /// Turns the supervision into a wait for the exit of the process and for
    /// everything it wrote. What is on record goes over to the wait.
    pub fn wait_with_output(self) -> (future: ChildWaitOutputFuture)
        ensures
            future.spec_id() == self.spec_id(),
            future.spec_state() == self.spec_state(),
    {
        ChildWaitOutputFuture { id: self.id, state: self.state }
    }
}

/// One cycle of waiting for a process to exit and for its output: the state
/// on record after it, and what the cycle comes to.
///
/// A recorded cancellation answers at once. After a recorded exit the
/// cancellation check counts no more, and the wait is only for the output.
/// Otherwise completion wins over cancellation, and cancellation over
/// waiting on.
pub open spec fn output_step(
    id: Option<u32>,
    state: ChildState,
    cancel: Option<CancelSignal>,
    polled: Polled<ProcessOutput>,
) -> (ChildState, WaitStep<Output>) {
    match state {
        ChildState::Cancelled(signal) => (
            state,
            WaitStep {
                poll: Polled::Ready(Ok(Output { how_cancelled: Some(signal), output: None })),
                signal: None,
            },
        ),
        _ => match polled {
            Polled::Ready(Ok(output)) => (
                ChildState::Exited(output.status),
                WaitStep {
                    poll: Polled::Ready(Ok(Output { how_cancelled: None, output: Some(output) })),
                    signal: None,
                },
            ),
            Polled::Ready(Err(error)) => (
                state,
                WaitStep { poll: Polled::Ready(Err(error)), signal: None },
            ),
            Polled::Pending => match (state, cancel) {
                (ChildState::Running, Some(signal)) => (
                    ChildState::Cancelled(signal),
                    WaitStep {
                        poll: Polled::Ready(
                            Ok(Output { how_cancelled: Some(signal), output: None }),
                        ),
                        signal: signal_for(id, signal),
                    },
                ),
                _ => (state, WaitStep { poll: Polled::Pending, signal: None }),
            },
        },
    }
}

/// A wait for a child process to exit and for everything it wrote. It owns
/// what [`CancellableChild`] had on record.
#[derive(Debug)]
pub struct ChildWaitOutputFuture {
    id: Option<u32>,
    state: ChildState,
}

impl ChildWaitOutputFuture {
    /// The identifier of the process, if it has one.
    pub closed spec fn spec_id(&self) -> Option<u32> {
        self.id
    }

    /// What is on record about the process.
    pub closed spec fn spec_state(&self) -> ChildState {
        self.state
    }

    /// The identifier of the process, if it has one.
    #[verifier::when_used_as_spec(spec_id)]
    pub fn id(&self) -> (id: Option<u32>)
        ensures
            id == self.spec_id(),
    {
        self.id
    }

    /// What is on record about the process.
    #[verifier::when_used_as_spec(spec_state)]
    pub fn state(&self) -> (state: ChildState)
        ensures
            state == self.spec_state(),
    {
        self.state
    }

    /// Whether a cycle still reads the cancellation check: only while neither
    /// an exit nor a cancellation is on record.
    pub fn consults_cancel(&self) -> (consults: bool)
        ensures
            consults == (self.spec_state() == ChildState::Running),
    {
        match self.state {
            ChildState::Running => true,
            _ => false,
        }
    }

    /// One cycle of the wait. `cancel_signal` is what the cancellation check
    /// answered in this cycle and `polled` what a poll of the process and its
    /// output brought.
    ///
    /// The cycle resolves with the output if the process has completed, with
    /// a cancellation and no output if the check fired while the process was
    /// still pending, and stays pending otherwise.
    pub fn poll(&mut self, cancel_signal: Option<CancelSignal>, polled: Polled<ProcessOutput>) -> (step:
        WaitStep<Output>)
        ensures
            final(self).spec_id() == old(self).spec_id(),
            (final(self).spec_state(), step) == output_step(
                old(self).spec_id(),
                old(self).spec_state(),
                cancel_signal,
                polled,
            ),
            step.poll matches Polled::Ready(Ok(output)) ==> output.wf(),
    {
        match self.state {
            ChildState::Cancelled(signal) => WaitStep {
                poll: Polled::Ready(Ok(Output { how_cancelled: Some(signal), output: None })),
                signal: None,
            },
            _ => match polled {
                Polled::Ready(Ok(output)) => {
                    self.state = ChildState::Exited(output.status);
                    WaitStep {
                        poll: Polled::Ready(
                            Ok(Output { how_cancelled: None, output: Some(output) }),
                        ),
                        signal: None,
                    }
                },
                Polled::Ready(Err(error)) => WaitStep {
                    poll: Polled::Ready(Err(error)),
                    signal: None,
                },
                Polled::Pending => match (self.state, cancel_signal) {
                    (ChildState::Running, Some(signal)) => {
                        self.state = ChildState::Cancelled(signal);
                        WaitStep {
                            poll: Polled::Ready(
                                Ok(Output { how_cancelled: Some(signal), output: None }),
                            ),
                            signal: signal_request(self.id, signal),
                        }
                    },
                    _ => WaitStep { poll: Polled::Pending, signal: None },
                },
            },
        }
    }
}

/// The request that delivers `signal` to the process `id`.
fn signal_request(id: Option<u32>, signal: CancelSignal) -> (request: Option<SignalRequest>)
    ensures
        request == signal_for(id, signal),
{
    match id {
        Some(pid) => Some(SignalRequest { pid, signal }),
        None => None,
    }
}

/// Whether a cycle reports a cancellation.
pub open spec fn reports_cancellation(poll: Polled<ExitStatus>) -> bool {
    match poll {
        Polled::Ready(Ok(report)) => report.how_cancelled is Some,
        _ => false,
    }
}

/// A running process is reported and recorded as cancelled exactly if the
/// cancellation check fires while its completion is still pending.
pub proof fn lemma_cancelled_iff_preempted(
    id: Option<u32>,
    cancel: Option<CancelSignal>,
    polled: Polled<ProcessStatus>,
)
    ensures
        reports_cancellation(wait_step(id, ChildState::Running, cancel, polled).1.poll) <==> (
        polled is Pending && cancel is Some),
        wait_step(id, ChildState::Running, cancel, polled).0 is Cancelled <==> (polled is Pending
            && cancel is Some),
{
}

/// What one cycle of a wait is given: the answer of the cancellation check
/// and the outcome of the poll of the process.
pub struct WaitCycle {
    /// What the cancellation check answered.
    pub cancel: Option<CancelSignal>,
    /// What the poll of the process brought.
    pub polled: Polled<ProcessStatus>,
}

/// The state and the step of the first of `cycles`.
pub open spec fn first_cycle(id: Option<u32>, state: ChildState, cycles: Seq<WaitCycle>) -> (
    ChildState,
    WaitStep<ExitStatus>,
) {
    wait_step(id, state, cycles[0].cancel, cycles[0].polled)
}

/// The state on record after all of `cycles`, one after the other.
pub open spec fn wait_run_state(id: Option<u32>, state: ChildState, cycles: Seq<WaitCycle>) -> ChildState
    decreases cycles.len(),
{
    if cycles.len() == 0 {
        state
    } else {
        wait_run_state(id, first_cycle(id, state, cycles).0, cycles.skip(1))
    }
}

/// Every signal requested over all of `cycles`, in order.
pub open spec fn wait_run_signals(id: Option<u32>, state: ChildState, cycles: Seq<WaitCycle>) -> Seq<
    SignalRequest,
>
    decreases cycles.len(),
{
    if cycles.len() == 0 {
        Seq::empty()
    } else {
        let (next, step) = first_cycle(id, state, cycles);
        let rest = wait_run_signals(id, next, cycles.skip(1));
        match step.signal {
            Some(request) => seq![request] + rest,
            None => rest,
        }
    }
}

/// What a wait that runs through `cycles` resolves to: the report of the
/// first cycle that is not pending, or pending if every cycle is.
pub open spec fn wait_run_result(id: Option<u32>, state: ChildState, cycles: Seq<WaitCycle>) -> Polled<
    ExitStatus,
>
    decreases cycles.len(),
{
    if cycles.len() == 0 {
        Polled::Pending
    } else {
        let (next, step) = first_cycle(id, state, cycles);
        match step.poll {
            Polled::Pending => wait_run_result(id, next, cycles.skip(1)),
            ready => ready,
        }
    }
}

/// Whether the cancellation check stays silent and the process pending in
/// each of `cycles`.
pub open spec fn quiet(cycles: Seq<WaitCycle>) -> bool {
    forall|i: int|
        0 <= i < cycles.len() ==> (#[trigger] cycles[i]).cancel is None && cycles[i].polled is Pending
}

/// Cycles in which nothing happens leave a running process running, resolve
/// nothing and request no signal.
pub proof fn lemma_quiet_cycles_keep_waiting(id: Option<u32>, cycles: Seq<WaitCycle>)
    requires
        quiet(cycles),
    ensures
        wait_run_state(id, ChildState::Running, cycles) == ChildState::Running,
        wait_run_signals(id, ChildState::Running, cycles) == Seq::<SignalRequest>::empty(),
        wait_run_result(id, ChildState::Running, cycles) is Pending,
    decreases cycles.len(),
{
    if cycles.len() > 0 {
        let rest = cycles.skip(1);
        assert forall|i: int| 0 <= i < rest.len() implies (#[trigger] rest[i]).cancel is None
            && rest[i].polled is Pending by {
            assert(rest[i] == cycles[i + 1]);
        }
        lemma_quiet_cycles_keep_waiting(id, rest);
    }
}

/// Running through `first + second` is running through `first` and then,
/// from the state that leaves, through `second`.
pub proof fn lemma_wait_run_concat(
    id: Option<u32>,
    state: ChildState,
    first: Seq<WaitCycle>,
    second: Seq<WaitCycle>,
)
    ensures
        wait_run_state(id, state, first + second) == wait_run_state(
            id,
            wait_run_state(id, state, first),
            second,
        ),
        wait_run_signals(id, state, first + second) == wait_run_signals(id, state, first)
            + wait_run_signals(id, wait_run_state(id, state, first), second),
        wait_run_result(id, state, first) is Pending ==> wait_run_result(id, state, first + second)
            == wait_run_result(id, wait_run_state(id, state, first), second),
        !(wait_run_result(id, state, first) is Pending) ==> wait_run_result(
            id,
            state,
            first + second,
        ) == wait_run_result(id, state, first),
    decreases first.len(),
{
    if first.len() > 0 {
        assert((first + second).skip(1) =~= first.skip(1) + second);
        lemma_wait_run_concat(id, first_cycle(id, state, first).0, first.skip(1), second);
    }
}

/// Once an exit or a cancellation is on record, no cycle changes it and none
/// requests a signal, whatever the cancellation check and the process say.
pub proof fn lemma_recorded_state_is_final(id: Option<u32>, state: ChildState, cycles: Seq<WaitCycle>)
    requires
        state != ChildState::Running,
    ensures
        wait_run_state(id, state, cycles) == state,
        wait_run_signals(id, state, cycles) == Seq::<SignalRequest>::empty(),
        cycles.len() > 0 ==> wait_run_result(id, state, cycles) == first_cycle(id, state, cycles).1.poll,
    decreases cycles.len(),
{
    if cycles.len() > 0 {
        lemma_recorded_state_is_final(id, state, cycles.skip(1));
    }
}

/// A wait whose cancellation check never fires before the process completes
/// resolves with the real exit status and no cancellation, whatever the
/// status is, and requests no signal. Completion wins even over a check that
/// fires in the same cycle.
pub proof fn lemma_uncancelled_wait_reports_exit(
    id: Option<u32>,
    cycles: Seq<WaitCycle>,
    last: WaitCycle,
    status: ProcessStatus,
)
    requires
        quiet(cycles),
        last.polled == Polled::Ready(Ok::<ProcessStatus, std::io::Error>(status)),
    ensures
        wait_run_result(id, ChildState::Running, cycles.push(last)) == Polled::Ready(
            Ok::<ExitStatus, std::io::Error>(exited_report(status)),
        ),
        wait_run_state(id, ChildState::Running, cycles.push(last)) == ChildState::Exited(status),
        wait_run_signals(id, ChildState::Running, cycles.push(last)) == Seq::<
            SignalRequest,
        >::empty(),
{
    let end = seq![last];
    assert(cycles.push(last) =~= cycles + end);
    lemma_quiet_cycles_keep_waiting(id, cycles);
    lemma_wait_run_concat(id, ChildState::Running, cycles, end);
    assert(wait_run_state(id, ChildState::Exited(status), end.skip(1)) == ChildState::Exited(
        status,
    ));
    assert(wait_run_signals(id, ChildState::Exited(status), end.skip(1)) == Seq::<
        SignalRequest,
    >::empty());
}

/// A wait whose cancellation check fires while the process is still pending
/// resolves in that very cycle, with the reason and without an exit status.
/// The process is sent the matching signal once: none before, and none in any
/// cycle that may follow, whatever `later` holds.
pub proof fn lemma_cancelled_wait_signals_once(
    id: Option<u32>,
    cycles: Seq<WaitCycle>,
    last: WaitCycle,
    signal: CancelSignal,
    later: Seq<WaitCycle>,
)
    requires
        quiet(cycles),
        last.cancel == Some(signal),
        last.polled is Pending,
    ensures
        wait_run_result(id, ChildState::Running, cycles) is Pending,
        wait_run_result(id, ChildState::Running, cycles.push(last)) == Polled::Ready(
            Ok::<ExitStatus, std::io::Error>(cancelled_report(signal)),
        ),
        wait_run_result(id, ChildState::Running, cycles.push(last) + later) == Polled::Ready(
            Ok::<ExitStatus, std::io::Error>(cancelled_report(signal)),
        ),
        wait_run_state(id, ChildState::Running, cycles.push(last) + later) == ChildState::Cancelled(
            signal,
        ),
        wait_run_signals(id, ChildState::Running, cycles.push(last) + later) == match id {
            Some(pid) => seq![SignalRequest { pid, signal }],
            None => Seq::empty(),
        },
{
    let end = seq![last];
    let cancelled = ChildState::Cancelled(signal);
    assert(cycles.push(last) =~= cycles + end);
    lemma_quiet_cycles_keep_waiting(id, cycles);
    lemma_wait_run_concat(id, ChildState::Running, cycles, end);
    assert(wait_run_state(id, cancelled, end.skip(1)) == cancelled);
    assert(wait_run_signals(id, cancelled, end.skip(1)) == Seq::<SignalRequest>::empty());
    lemma_wait_run_concat(id, ChildState::Running, cycles.push(last), later);
    lemma_recorded_state_is_final(id, cancelled, later);
}

/// Once a real exit status is on record it stays: every later cycle of a wait
/// and every later check reports the same status, uncancelled, whatever the
/// cancellation check answers, and no signal is requested.
pub proof fn lemma_recorded_exit_is_permanent(
    id: Option<u32>,
    status: ProcessStatus,
    cancel: Option<CancelSignal>,
    polled: Polled<ProcessStatus>,
    observed: Result<Option<ProcessStatus>, std::io::Error>,
    cycles: Seq<WaitCycle>,
)
    ensures
        wait_step(id, ChildState::Exited(status), cancel, polled) == (
            ChildState::Exited(status),
            WaitStep {
                poll: Polled::Ready(Ok::<ExitStatus, std::io::Error>(exited_report(status))),
                signal: None,
            },
        ),
        try_wait_step(ChildState::Exited(status), observed) == (
            ChildState::Exited(status),
            Ok::<Option<ExitStatus>, std::io::Error>(Some(exited_report(status))),
        ),
        wait_run_state(id, ChildState::Exited(status), cycles) == ChildState::Exited(status),
        wait_run_signals(id, ChildState::Exited(status), cycles) == Seq::<SignalRequest>::empty(),
        cycles.len() > 0 ==> wait_run_result(id, ChildState::Exited(status), cycles)
            == Polled::Ready(Ok::<ExitStatus, std::io::Error>(exited_report(status))),
{
    lemma_recorded_state_is_final(id, ChildState::Exited(status), cycles);
}

} // verus!
