//! Running mriqc on one participant: the setup of its private working area,
//! the command line, and the verdict on how the run ended.
//!
//! A job is set up step by step. [`Mriqc1Setup`] names the next operation,
//! the caller carries it out and answers, and the setup goes on from the
//! answer until the process runs or the setup has failed. While the process
//! runs, [`Mriqc1Process::wait`] takes one cycle of the wait at a time.

use crate::action::{action_views, push_action, Action, ActionView, Reply, ReplyView};
use crate::bids::participant::{
    new_participant,
    BidsParticipantProgressView,
    BidsParticipantSetupView,
    BidsParticipantView,
};
use crate::bids::{
    link_release,
    new_setup_with_parent,
    BidsError,
    BidsErrorView,
    BidsParticipant,
    BidsParticipantProgress,
    BidsParticipantSetup,
    ShadowBids,
    ShadowBidsProgress,
    ShadowBidsProgressView,
    ShadowBidsSetup,
    ShadowBidsSetupView,
};
use crate::cancellable_process::{
    output_step,
    CancelSignal,
    CancellableChild,
    ChildState,
    ChildWaitOutputFuture,
    Output,
    Polled,
    ProcessOutput,
    SignalRequest,
};
use crate::views::{option_view, result_view, texts};
use std::sync::Arc;
use vstd::prelude::*;

verus! {

/// What can go wrong with a run of mriqc on one participant.
#[derive(Debug)]
pub enum MriqcError {
    /// Couldn't create a temporary directory within the working directory.
    TempDir {
        /// Working directory in which the temporary directory was to be
        /// created.
        work_dir: String,
        source: std::io::Error,
    },
    /// There was an error running the mriqc command.
    Process {
        /// The command, e.g. `/usr/local/bin/mriqc`.
        cmd: String,
        /// Command line arguments.
        args: Vec<String>,
        source: std::io::Error,
    },
    /// The mriqc command ran and exited with a failure. Some output was
    /// captured from the command's standard output and error.
    ProcessWithOutput {
        /// The command, e.g. `/usr/local/bin/mriqc`.
        cmd: String,
        /// Command line arguments.
        args: Vec<String>,
        /// Captured output of mriqc command on stdout, if any.
        stdout: Vec<u8>,
        /// Captured output of mriqc command on stderr, if any.
        stderr: Vec<u8>,
        /// Exit code of the process.
        status: Option<i32>,
    },
    /// There was an error setting up the shadow bids tree for this process.
    BidsError(BidsError),
}

/// A [`MriqcError`] with its texts as sequences.
pub enum MriqcErrorView {
    TempDir { work_dir: Seq<char>, source: std::io::Error },
    Process { cmd: Seq<char>, args: Seq<Seq<char>>, source: std::io::Error },
    ProcessWithOutput {
        cmd: Seq<char>,
        args: Seq<Seq<char>>,
        stdout: Seq<u8>,
        stderr: Seq<u8>,
        status: Option<i32>,
    },
    BidsError(BidsErrorView),
}

impl View for MriqcError {
    type V = MriqcErrorView;

    open spec fn view(&self) -> MriqcErrorView {
        match *self {
            MriqcError::TempDir { work_dir, source } => MriqcErrorView::TempDir {
                work_dir: work_dir@,
                source,
            },
            MriqcError::Process { cmd, args, source } => MriqcErrorView::Process {
                cmd: cmd@,
                args: texts(args@),
                source,
            },
            MriqcError::ProcessWithOutput {
                cmd,
                args,
                stdout,
                stderr,
                status,
            } => MriqcErrorView::ProcessWithOutput {
                cmd: cmd@,
                args: texts(args@),
                stdout: stdout@,
                stderr: stderr@,
                status,
            },
            MriqcError::BidsError(error) => MriqcErrorView::BidsError(error@),
        }
    }
}

/// Options for [`Mriqc1Process::new()`]
#[derive(Debug)]
pub struct Mriqc1Options {
    /// Root directory of BIDS tree containing participants' data.
    pub bids_dir: String,
    /// Output directory.
    pub out_dir: String,
    /// Participant id.
    pub participant: String,
    /// Path to mriqc binary.  Defaults to `mriqc`.
    pub mriqc: Option<String>,
    /// Where to create temporary files.  Defaults to system temporary
    /// directory.
    pub work_dir: Option<String>,
    /// Vector of additional arguments to pass through to mriqc.
    pub extra_args: Vec<String>,
}

/// [`Mriqc1Options`] with its texts as sequences of characters.
pub struct Mriqc1OptionsView {
    pub bids_dir: Seq<char>,
    pub out_dir: Seq<char>,
    pub participant: Seq<char>,
    pub mriqc: Option<Seq<char>>,
    pub work_dir: Option<Seq<char>>,
    pub extra_args: Seq<Seq<char>>,
}

impl View for Mriqc1Options {
    type V = Mriqc1OptionsView;

    open spec fn view(&self) -> Mriqc1OptionsView {
        Mriqc1OptionsView {
            bids_dir: self.bids_dir@,
            out_dir: self.out_dir@,
            participant: self.participant@,
            mriqc: option_view(self.mriqc),
            work_dir: option_view(self.work_dir),
            extra_args: texts(self.extra_args@),
        }
    }
}

/// The command that stands for mriqc: the one that is given, or else the
/// bare name `mriqc`, which the system looks up.
pub open spec fn command_or_default(mriqc: Option<Seq<char>>) -> Seq<char> {
    match mriqc {
        Some(mriqc) => mriqc,
        None => "mriqc"@,
    }
}

/// The arguments of one run of mriqc: the shadow tree, the output directory,
/// the mark of an analysis at the level of participants, the working
/// directory, the one participant, and then what the caller adds.
pub open spec fn command_line(
    shadow_root: Seq<char>,
    out_dir: Seq<char>,
    temp_dir: Seq<char>,
    participant: Seq<char>,
    extra_args: Seq<Seq<char>>,
) -> Seq<Seq<char>> {
    seq![
        shadow_root,
        out_dir,
        "participant"@,
        "--work-dir"@,
        temp_dir,
        "--participant-label"@,
        participant,
    ] + extra_args
}

/// The arguments of one run of mriqc.
pub fn command_args(
    shadow_root: &str,
    out_dir: &str,
    temp_dir: &str,
    participant: &str,
    extra_args: &Vec<String>,
) -> (args: Vec<String>)
    ensures
        texts(args@) == command_line(
            shadow_root@,
            out_dir@,
            temp_dir@,
            participant@,
            texts(extra_args@),
        ),
{
    let mut args: Vec<String> = Vec::new();
    args.push(String::from_str(shadow_root));
    args.push(String::from_str(out_dir));
    args.push(String::from_str("participant"));
    args.push(String::from_str("--work-dir"));
    args.push(String::from_str(temp_dir));
    args.push(String::from_str("--participant-label"));
    args.push(String::from_str(participant));
    let ghost fixed = seq![
        shadow_root@,
        out_dir@,
        "participant"@,
        "--work-dir"@,
        temp_dir@,
        "--participant-label"@,
        participant@,
    ];
    let mut i: usize = 0;
    while i < extra_args.len()
        invariant
            i <= extra_args.len(),
            texts(args@) == fixed + texts(extra_args@).take(i as int),
        decreases extra_args.len() - i,
    {
        let ghost before = args@;
        args.push(extra_args[i].clone());
        assert(texts(args@) =~= texts(before).push(extra_args@[i as int]@));
        i += 1;
    }
    args
}

/// What is to be done to remove the private working directory of a job,
/// once it is created.
pub open spec fn temp_release(temp_dir: Option<Seq<char>>) -> Seq<ActionView> {
    match temp_dir {
        Some(path) => seq![ActionView::RemoveDirAll { path }],
        None => Seq::empty(),
    }
}

/// What is to be done to remove all that a job owns, in the reverse of the
/// order in which it was made: the participant's link, the shadow tree, and
/// the private working directory.
pub open spec fn job_release(link: BidsParticipantView, temp_dir: Seq<char>) -> Seq<ActionView> {
    link_release(Some(link.path)) + link.parent.release() + temp_release(Some(temp_dir))
}

/// What the setup of a job waits for.
#[derive(Debug)]
pub enum JobStage {
    /// The private working directory is to be created.
    TempDir,
    /// The path of the BIDS tree is to be resolved.
    Canonicalize,
    /// The shadow tree is being set up.
    Shadow(ShadowBidsSetup),
    /// The participant's link is being set up.
    Participant(BidsParticipantSetup),
    /// The process is to be started.
    Spawn(BidsParticipant),
}

/// What a [`JobStage`] holds.
pub enum JobStageView {
    TempDir,
    Canonicalize,
    Shadow(ShadowBidsSetupView),
    Participant(BidsParticipantSetupView),
    Spawn(BidsParticipantView),
}

impl View for JobStage {
    type V = JobStageView;

    open spec fn view(&self) -> JobStageView {
        match *self {
            JobStage::TempDir => JobStageView::TempDir,
            JobStage::Canonicalize => JobStageView::Canonicalize,
            JobStage::Shadow(setup) => JobStageView::Shadow(setup@),
            JobStage::Participant(setup) => JobStageView::Participant(setup@),
            JobStage::Spawn(link) => JobStageView::Spawn(link@),
        }
    }
}

/// A [`Mriqc1Process`] in the making.
#[derive(Debug)]
pub struct Mriqc1Setup {
    bids_dir: String,
    out_dir: String,
    participant: String,
    cmd: String,
    work_dir: String,
    extra_args: Vec<String>,
    cancellable: bool,
    temp_dir: Option<String>,
    stage: JobStage,
}

/// What a [`Mriqc1Setup`] holds.
pub struct Mriqc1SetupView {
    /// Root directory of the BIDS tree.
    pub bids_dir: Seq<char>,
    /// Output directory.
    pub out_dir: Seq<char>,
    /// Participant id.
    pub participant: Seq<char>,
    /// The command that stands for mriqc.
    pub cmd: Seq<char>,
    /// The directory in which the private working directory is created.
    pub work_dir: Seq<char>,
    /// Additional arguments to pass through to mriqc.
    pub extra_args: Seq<Seq<char>>,
    /// Whether the run reads its cancellation check.
    pub cancellable: bool,
    /// The private working directory, once it is created.
    pub temp_dir: Option<Seq<char>>,
    /// What the setup waits for.
    pub stage: JobStageView,
}

impl View for Mriqc1Setup {
    type V = Mriqc1SetupView;

    closed spec fn view(&self) -> Mriqc1SetupView {
        Mriqc1SetupView {
            bids_dir: self.bids_dir@,
            out_dir: self.out_dir@,
            participant: self.participant@,
            cmd: self.cmd@,
            work_dir: self.work_dir@,
            extra_args: texts(self.extra_args@),
            cancellable: self.cancellable,
            temp_dir: option_view(self.temp_dir),
            stage: self.stage@,
        }
    }
}

/// Resources for an instance of mriqc processing a single participant.
#[derive(Debug)]
pub struct Mriqc1Process {
    // The wait for the mriqc process.
    process: ChildWaitOutputFuture,
    // Whether the run reads its cancellation check.
    cancellable: bool,
    // BIDS filesystem resources for the participant being processed.
    bids_participant: BidsParticipant,
    // The private working directory of the run.
    temp_dir: String,
    // The command, e.g. `/usr/local/bin/mriqc`.
    cmd: String,
    // Command line arguments.
    args: Vec<String>,
}

/// What a [`Mriqc1Process`] holds.
pub struct Mriqc1ProcessView {
    /// The identifier of the process, if it has one.
    pub id: Option<u32>,
    /// What is on record about the process.
    pub state: ChildState,
    /// Whether the run reads its cancellation check.
    pub cancellable: bool,
    /// The participant's link, with the shadow tree that holds it.
    pub bids_participant: BidsParticipantView,
    /// The private working directory of the run.
    pub temp_dir: Seq<char>,
    /// The command.
    pub cmd: Seq<char>,
    /// Command line arguments.
    pub args: Seq<Seq<char>>,
}

impl View for Mriqc1Process {
    type V = Mriqc1ProcessView;

    closed spec fn view(&self) -> Mriqc1ProcessView {
        Mriqc1ProcessView {
            id: self.process.spec_id(),
            state: self.process.spec_state(),
            cancellable: self.cancellable,
            bids_participant: self.bids_participant@,
            temp_dir: self.temp_dir@,
            cmd: self.cmd@,
            args: texts(self.args@),
        }
    }
}

/// How far the setup of a job has come after an answer.
#[derive(Debug)]
pub enum Mriqc1Progress {
    /// There is more to do: the setup names it.
    Pending(Mriqc1Setup),
    /// The process runs.
    Ready(Mriqc1Process),
    /// The setup has failed with `error`. What it had made so far is to be
    /// removed again by carrying out `release`, in that order.
    Failed { error: MriqcError, release: Vec<Action> },
}

/// What a [`Mriqc1Progress`] holds.
pub enum Mriqc1ProgressView {
    Pending(Mriqc1SetupView),
    Ready(Mriqc1ProcessView),
    Failed { error: MriqcErrorView, release: Seq<ActionView> },
}

impl View for Mriqc1Progress {
    type V = Mriqc1ProgressView;

    open spec fn view(&self) -> Mriqc1ProgressView {
        match *self {
            Mriqc1Progress::Pending(setup) => Mriqc1ProgressView::Pending(setup@),
            Mriqc1Progress::Ready(process) => Mriqc1ProgressView::Ready(process@),
            Mriqc1Progress::Failed { error, release } => Mriqc1ProgressView::Failed {
                error: error@,
                release: action_views(release@),
            },
        }
    }
}

impl Mriqc1SetupView {
    /// Whether the setup holds what its stage says: a private working
    /// directory from the moment it is created on.
    pub open spec fn wf(self) -> bool {
        self.stage is TempDir <==> self.temp_dir is None
    }

    /// The arguments that the process is started with, once the
    /// participant's link `link` stands.
    pub open spec fn args(self, link: BidsParticipantView) -> Seq<Seq<char>> {
        command_line(
            link.parent.path.path,
            self.out_dir,
            self.temp_dir->0,
            self.participant,
            self.extra_args,
        )
    }

    /// The operation that the setup waits for.
    pub open spec fn action(self) -> ActionView {
        match self.stage {
            JobStageView::TempDir => ActionView::CreateTempDir { root: self.work_dir },
            JobStageView::Canonicalize => ActionView::Canonicalize { path: self.bids_dir },
            JobStageView::Shadow(setup) => setup.action(),
            JobStageView::Participant(setup) => setup.action(),
            JobStageView::Spawn(link) => ActionView::Spawn {
                cmd: self.cmd,
                args: self.args(link),
                current_dir: self.temp_dir->0,
            },
        }
    }

    /// The setup at another stage.
    pub open spec fn at(self, stage: JobStageView) -> Mriqc1ProgressView {
        Mriqc1ProgressView::Pending(Mriqc1SetupView { stage, ..self })
    }

    /// The failure of the setup over the shadow tree or the participant's
    /// link, after `release` has named what these had made.
    pub open spec fn failed(self, error: BidsErrorView, release: Seq<ActionView>) -> Mriqc1ProgressView {
        Mriqc1ProgressView::Failed {
            error: MriqcErrorView::BidsError(error),
            release: release + temp_release(self.temp_dir),
        }
    }

    /// How the setup goes on after `reply`.
    ///
    /// The reply counts only if it is of the kind that the awaited operation
    /// brings; any other leaves the setup where it is. The first failure ends
    /// the setup, and names what is to be removed.
    pub open spec fn answer(self, reply: ReplyView) -> Mriqc1ProgressView {
        match (self.stage, reply) {
            (JobStageView::TempDir, ReplyView::Path(Ok(temp_dir))) => Mriqc1ProgressView::Pending(
                Mriqc1SetupView {
                    temp_dir: Some(temp_dir),
                    stage: JobStageView::Canonicalize,
                    ..self
                },
            ),
            (JobStageView::TempDir, ReplyView::Path(Err(source))) => Mriqc1ProgressView::Failed {
                error: MriqcErrorView::TempDir { work_dir: self.work_dir, source },
                release: Seq::empty(),
            },
            (JobStageView::Canonicalize, ReplyView::Path(canonical)) => match new_setup_with_parent(
                self.bids_dir,
                self.temp_dir->0,
                canonical,
            ) {
                Ok(setup) => self.at(JobStageView::Shadow(setup)),
                Err(error) => self.failed(error, Seq::empty()),
            },
            (JobStageView::Shadow(setup), _) => match setup.answer(reply) {
                ShadowBidsProgressView::Pending(setup) => self.at(JobStageView::Shadow(setup)),
                ShadowBidsProgressView::Ready(shadow) => self.at(
                    JobStageView::Participant(new_participant(self.participant, shadow)),
                ),
                ShadowBidsProgressView::Failed { error, release } => self.failed(error, release),
            },
            (JobStageView::Participant(setup), _) => match setup.answer(reply) {
                BidsParticipantProgressView::Pending(setup) => self.at(
                    JobStageView::Participant(setup),
                ),
                BidsParticipantProgressView::Ready(link) => self.at(JobStageView::Spawn(link)),
                BidsParticipantProgressView::Failed { error, parent } => self.failed(
                    error,
                    parent.release(),
                ),
            },
            (JobStageView::Spawn(link), ReplyView::Spawned(Ok(id))) => Mriqc1ProgressView::Ready(
                Mriqc1ProcessView {
                    id,
                    state: ChildState::Running,
                    cancellable: self.cancellable,
                    bids_participant: link,
                    temp_dir: self.temp_dir->0,
                    cmd: self.cmd,
                    args: self.args(link),
                },
            ),
            (JobStageView::Spawn(link), ReplyView::Spawned(Err(source))) => Mriqc1ProgressView::Failed {
                error: MriqcErrorView::Process { cmd: self.cmd, args: self.args(link), source },
                release: job_release(link, self.temp_dir->0),
            },
            _ => Mriqc1ProgressView::Pending(self),
        }
    }
}

/// The setup of a job with `options`, before anything is made. Where the
/// options name no working directory, `default_work_dir` is taken.
pub open spec fn new_job(options: Mriqc1OptionsView, default_work_dir: Seq<char>, cancellable: bool) -> Mriqc1SetupView {
    Mriqc1SetupView {
        bids_dir: options.bids_dir,
        out_dir: options.out_dir,
        participant: options.participant,
        cmd: command_or_default(options.mriqc),
        work_dir: match options.work_dir {
            Some(work_dir) => work_dir,
            None => default_work_dir,
        },
        extra_args: options.extra_args,
        cancellable,
        temp_dir: None,
        stage: JobStageView::TempDir,
    }
}

// What is to be done to remove the private working directory.
fn release_temp(release: &mut Vec<Action>, temp_dir: &Option<String>)
    ensures
        action_views(final(release)@) == action_views(old(release)@) + temp_release(
            option_view(*temp_dir),
        ),
{
    match temp_dir {
        Some(path) => push_action(release, Some(Action::RemoveDirAll { path: path.clone() })),
        None => push_action(release, None),
    }
}

// Appends `more` to `release`.
fn release_more(release: &mut Vec<Action>, more: Vec<Action>)
    ensures
        action_views(final(release)@) == action_views(old(release)@) + action_views(more@),
{
    let mut rest = more;
    release.append(&mut rest);
}

// What is to be done to remove all that a job owns.
fn release_job(link: &BidsParticipant, temp_dir: &str) -> (release: Vec<Action>)
    ensures
        action_views(release@) == job_release(link@, temp_dir@),
{
    let mut release: Vec<Action> = Vec::new();
    push_action(&mut release, link.release());
    release_more(&mut release, link.parent().release());
    push_action(&mut release, Some(Action::RemoveDirAll { path: String::from_str(temp_dir) }));
    release
}

impl Mriqc1Setup {
    #[verifier::type_invariant]
    spec fn well_formed(self) -> bool {
        self@.wf()
    }

    /// The operation that the setup waits for. The caller carries it out and
    /// gives what came of it to [`Mriqc1Setup::answer`].
    pub fn action(&self) -> (action: Action)
        ensures
            action@ == self@.action(),
            self@.wf(),
    {
        proof {
            use_type_invariant(self);
        }
        match &self.stage {
            JobStage::TempDir => Action::CreateTempDir { root: self.work_dir.clone() },
            JobStage::Canonicalize => Action::Canonicalize { path: self.bids_dir.clone() },
            JobStage::Shadow(setup) => setup.action(),
            JobStage::Participant(setup) => setup.action(),
            JobStage::Spawn(link) => {
                let temp_dir = match &self.temp_dir {
                    Some(temp_dir) => temp_dir.clone(),
                    None => String::new(),
                };
                Action::Spawn {
                    cmd: self.cmd.clone(),
                    args: command_args(
                        link.parent().path(),
                        self.out_dir.as_str(),
                        temp_dir.as_str(),
                        self.participant.as_str(),
                        &self.extra_args,
                    ),
                    current_dir: temp_dir,
                }
            },
        }
    }

    // The failure of the setup over the shadow tree or the participant's
    // link.
    fn failed(self, error: BidsError, release: Vec<Action>) -> (progress: Mriqc1Progress)
        ensures
            progress@ == self@.failed(error@, action_views(release@)),
    {
        let mut release = release;
        release_temp(&mut release, &self.temp_dir);
        Mriqc1Progress::Failed { error: MriqcError::BidsError(error), release }
    }

    /// Takes what came of the operation that the setup waited for, and goes
    /// on: to the next operation, to the process that runs, or to a failure.
    pub fn answer(self, reply: Reply) -> (progress: Mriqc1Progress)
        ensures
            progress@ == self@.answer(reply@),
            self@.wf(),
            progress matches Mriqc1Progress::Pending(setup) ==> setup@.wf(),
    {
        proof {
            use_type_invariant(&self);
        }
        let Mriqc1Setup {
            bids_dir,
            out_dir,
            participant,
            cmd,
            work_dir,
            extra_args,
            cancellable,
            temp_dir,
            stage,
        } = self;
        match (stage, reply) {
            (JobStage::TempDir, Reply::Path(Ok(made))) => Mriqc1Progress::Pending(
                Mriqc1Setup {
                    bids_dir,
                    out_dir,
                    participant,
                    cmd,
                    work_dir,
                    extra_args,
                    cancellable,
                    temp_dir: Some(made),
                    stage: JobStage::Canonicalize,
                },
            ),
            (JobStage::TempDir, Reply::Path(Err(source))) => {
                let release: Vec<Action> = Vec::new();
                assert(action_views(release@) =~= Seq::empty());
                Mriqc1Progress::Failed { error: MriqcError::TempDir { work_dir, source }, release }
            },
            (JobStage::Canonicalize, Reply::Path(canonical)) => {
                let parent = match &temp_dir {
                    Some(temp_dir) => temp_dir.clone(),
                    None => String::new(),
                };
                match ShadowBids::new_with_parent(bids_dir.clone(), parent, canonical) {
                    Ok(setup) => Mriqc1Progress::Pending(
                        Mriqc1Setup {
                            bids_dir,
                            out_dir,
                            participant,
                            cmd,
                            work_dir,
                            extra_args,
                            cancellable,
                            temp_dir,
                            stage: JobStage::Shadow(setup),
                        },
                    ),
                    Err(error) => {
                        let made: Vec<Action> = Vec::new();
                        let setup = Mriqc1Setup {
                            bids_dir,
                            out_dir,
                            participant,
                            cmd,
                            work_dir,
                            extra_args,
                            cancellable,
                            temp_dir,
                            stage: JobStage::Canonicalize,
                        };
                        setup.failed(error, made)
                    },
                }
            },
            (JobStage::Shadow(shadow_setup), reply) => {
                match shadow_setup.answer(reply) {
                    ShadowBidsProgress::Pending(shadow_setup) => Mriqc1Progress::Pending(
                        Mriqc1Setup {
                            bids_dir,
                            out_dir,
                            participant,
                            cmd,
                            work_dir,
                            extra_args,
                            cancellable,
                            temp_dir,
                            stage: JobStage::Shadow(shadow_setup),
                        },
                    ),
                    ShadowBidsProgress::Ready(shadow) => {
                        let link_setup = BidsParticipant::new(participant.as_str(), Arc::new(shadow));
                        Mriqc1Progress::Pending(
                            Mriqc1Setup {
                                bids_dir,
                                out_dir,
                                participant,
                                cmd,
                                work_dir,
                                extra_args,
                                cancellable,
                                temp_dir,
                                stage: JobStage::Participant(link_setup),
                            },
                        )
                    },
                    ShadowBidsProgress::Failed { error, release } => {
                        let setup = Mriqc1Setup {
                            bids_dir,
                            out_dir,
                            participant,
                            cmd,
                            work_dir,
                            extra_args,
                            cancellable,
                            temp_dir,
                            stage: JobStage::Canonicalize,
                        };
                        setup.failed(error, release)
                    },
                }
            },
            (JobStage::Participant(link_setup), reply) => {
                match link_setup.answer(reply) {
                    BidsParticipantProgress::Pending(link_setup) => Mriqc1Progress::Pending(
                        Mriqc1Setup {
                            bids_dir,
                            out_dir,
                            participant,
                            cmd,
                            work_dir,
                            extra_args,
                            cancellable,
                            temp_dir,
                            stage: JobStage::Participant(link_setup),
                        },
                    ),
                    BidsParticipantProgress::Ready(link) => Mriqc1Progress::Pending(
                        Mriqc1Setup {
                            bids_dir,
                            out_dir,
                            participant,
                            cmd,
                            work_dir,
                            extra_args,
                            cancellable,
                            temp_dir,
                            stage: JobStage::Spawn(link),
                        },
                    ),
                    BidsParticipantProgress::Failed { error, parent } => {
                        let release = parent.release();
                        let setup = Mriqc1Setup {
                            bids_dir,
                            out_dir,
                            participant,
                            cmd,
                            work_dir,
                            extra_args,
                            cancellable,
                            temp_dir,
                            stage: JobStage::Canonicalize,
                        };
                        setup.failed(error, release)
                    },
                }
            },
            (JobStage::Spawn(link), Reply::Spawned(spawned)) => {
                let args = command_args(
                    link.parent().path(),
                    out_dir.as_str(),
                    match &temp_dir {
                        Some(temp_dir) => temp_dir.as_str(),
                        None => "",
                    },
                    participant.as_str(),
                    &extra_args,
                );
                match spawned {
                    Ok(id) => Mriqc1Progress::Ready(
                        Mriqc1Process {
                            process: CancellableChild::new(id).wait_with_output(),
                            cancellable,
                            bids_participant: link,
                            temp_dir: match temp_dir {
                                Some(temp_dir) => temp_dir,
                                None => String::new(),
                            },
                            cmd,
                            args,
                        },
                    ),
                    Err(source) => Mriqc1Progress::Failed {
                        error: MriqcError::Process { cmd, args, source },
                        release: release_job(
                            &link,
                            match &temp_dir {
                                Some(temp_dir) => temp_dir.as_str(),
                                None => "",
                            },
                        ),
                    },
                }
            },
            (stage, _) => Mriqc1Progress::Pending(
                Mriqc1Setup {
                    bids_dir,
                    out_dir,
                    participant,
                    cmd,
                    work_dir,
                    extra_args,
                    cancellable,
                    temp_dir,
                    stage,
                },
            ),
        }
    }
}

/// How a wait says the run was cancelled, if it was.
pub open spec fn cancellation_of(waited: Result<Output, std::io::Error>) -> Option<CancelSignal> {
    match waited {
        Ok(output) => output.how_cancelled,
        Err(_) => None,
    }
}

/// The verdict on a run of `cmd` with `args`, given what the wait for it has
/// come to.
///
/// A run that was cancelled counts as a success, for it was stopped on
/// request. A run that ended by itself is a success if it exited with code
/// zero, and else a failure that carries what the process wrote. A wait that
/// broke down is a failure without any output.
pub open spec fn verdict_of(
    cmd: Seq<char>,
    args: Seq<Seq<char>>,
    waited: Result<Output, std::io::Error>,
) -> Result<(), MriqcErrorView> {
    match waited {
        Err(source) => Err(MriqcErrorView::Process { cmd, args, source }),
        Ok(output) => match (output.how_cancelled, output.output) {
            (Some(_), _) => Ok(()),
            (None, Some(ended)) => if ended.status.spec_success() {
                Ok(())
            } else {
                Err(
                    MriqcErrorView::ProcessWithOutput {
                        cmd,
                        args,
                        stdout: ended.stdout@,
                        stderr: ended.stderr@,
                        status: ended.status.code,
                    },
                )
            },
            (None, None) => Ok(()),
        },
    }
}

/// The verdict on a run of `cmd` with `args`, given what the wait for it has
/// come to: see [`verdict_of`]. It is meant for what a wait has resolved
/// with, which says either how the run was cancelled or what it left behind.
pub fn verdict(cmd: String, args: Vec<String>, waited: Result<Output, std::io::Error>) -> (result:
    Result<(), MriqcError>)
    requires
        waited matches Ok(output) ==> output.wf(),
    ensures
        result_view(result) == verdict_of(cmd@, texts(args@), waited),
{
    match waited {
        Err(source) => Err(MriqcError::Process { cmd, args, source }),
        Ok(output) => match output.how_cancelled {
            Some(_) => Ok(()),
            None => match output.output {
                Some(ended) => {
                    if ended.status.success() {
                        Ok(())
                    } else {
                        Err(
                            MriqcError::ProcessWithOutput {
                                cmd,
                                args,
                                stdout: ended.stdout,
                                stderr: ended.stderr,
                                status: ended.status.code(),
                            },
                        )
                    }
                },
                None => Ok(()),
            },
        },
    }
}

/// What one cycle of the wait for a job comes to.
#[derive(Debug)]
pub enum Mriqc1Wait {
    /// The process runs on, and nobody has asked for it to stop.
    Pending(Mriqc1Process),
    /// The wait is over.
    Done {
        /// The verdict on the run.
        result: Result<(), MriqcError>,
        /// How the run was cancelled, or `None` if it was not cancelled.
        how_cancelled: Option<CancelSignal>,
        /// The signal to deliver to the process now, if the run is being
        /// cancelled.
        signal: Option<SignalRequest>,
        /// What is to be removed, in this order: all that the job owned.
        release: Vec<Action>,
    },
}

/// What a [`Mriqc1Wait`] holds.
pub enum Mriqc1WaitView {
    Pending(Mriqc1ProcessView),
    Done {
        result: Result<(), MriqcErrorView>,
        how_cancelled: Option<CancelSignal>,
        signal: Option<SignalRequest>,
        release: Seq<ActionView>,
    },
}

impl View for Mriqc1Wait {
    type V = Mriqc1WaitView;

    open spec fn view(&self) -> Mriqc1WaitView {
        match *self {
            Mriqc1Wait::Pending(process) => Mriqc1WaitView::Pending(process@),
            Mriqc1Wait::Done { result, how_cancelled, signal, release } => Mriqc1WaitView::Done {
                result: result_view(result),
                how_cancelled,
                signal,
                release: action_views(release@),
            },
        }
    }
}

impl Mriqc1ProcessView {
    /// What the run makes of the answer of its cancellation check: a run
    /// that cannot be cancelled hears none.
    pub open spec fn heeded(self, cancel: Option<CancelSignal>) -> Option<CancelSignal> {
        if self.cancellable {
            cancel
        } else {
            None
        }
    }

    /// One cycle of the wait for the run: the race of [`output_step`], and,
    /// where that resolves, the verdict and the release of all that the job
    /// owns, whatever the verdict is.
    pub open spec fn wait(self, cancel: Option<CancelSignal>, polled: Polled<ProcessOutput>) -> Mriqc1WaitView {
        let (state, step) = output_step(self.id, self.state, self.heeded(cancel), polled);
        match step.poll {
            Polled::Pending => Mriqc1WaitView::Pending(Mriqc1ProcessView { state, ..self }),
            Polled::Ready(waited) => Mriqc1WaitView::Done {
                result: verdict_of(self.cmd, self.args, waited),
                how_cancelled: cancellation_of(waited),
                signal: step.signal,
                release: job_release(self.bids_participant, self.temp_dir),
            },
        }
    }
}

impl Mriqc1Process {
    /// Sets out to run an instance of mriqc on one participant with the
    /// provided `options`. The run can be cancelled: each cycle of
    /// [`Mriqc1Process::wait`] reads the answer of a cancellation check.
    /// `default_work_dir` is the system's directory for temporary files,
    /// taken where the options name no working directory.
    pub fn new_with_cancel(options: Mriqc1Options, default_work_dir: String) -> (setup: Mriqc1Setup)
        ensures
            setup@ == new_job(options@, default_work_dir@, true),
    {
        begin(options, default_work_dir, true)
    }

    /// Sets out to run an instance of mriqc that cannot be cancelled: its
    /// wait hears no cancellation check, as if the check were
    /// [`never_cancel`]. See [`Mriqc1Process::new_with_cancel`].
    pub fn new(options: Mriqc1Options, default_work_dir: String) -> (setup: Mriqc1Setup)
        ensures
            setup@ == new_job(options@, default_work_dir@, false),
    {
        begin(options, default_work_dir, false)
    }

    /// The identifier of the mriqc process, if it has one.
    pub fn id(&self) -> (id: Option<u32>)
        ensures
            id == self@.id,
    {
        self.process.id()
    }

    /// The command that was started.
    pub fn cmd(&self) -> (cmd: &str)
        ensures
            cmd@ == self@.cmd,
    {
        self.cmd.as_str()
    }

    /// The arguments that the command was started with.
    pub fn args(&self) -> (args: &Vec<String>)
        ensures
            texts(args@) == self@.args,
    {
        &self.args
    }

    /// The private working directory of the run.
    pub fn temp_dir(&self) -> (temp_dir: &str)
        ensures
            temp_dir@ == self@.temp_dir,
    {
        self.temp_dir.as_str()
    }

    /// The participant's link, with the shadow tree that holds it.
    pub fn bids_participant(&self) -> (link: &BidsParticipant)
        ensures
            link@ == self@.bids_participant,
    {
        &self.bids_participant
    }

    /// What abandoning the job asks of the filesystem: to remove all that
    /// the job owns, in the reverse of the order in which it was made.
    /// Whether that succeeds is of no account.
    pub fn release(&self) -> (release: Vec<Action>)
        ensures
            action_views(release@) == job_release(self@.bids_participant, self@.temp_dir),
    {
        release_job(&self.bids_participant, self.temp_dir.as_str())
    }

    /// Whether the next cycle of the wait reads the cancellation check: a
    /// run that cannot be cancelled never does, and no run does once an exit
    /// or a cancellation is on record.
    pub fn consults_cancel(&self) -> (consults: bool)
        ensures
            consults == (self@.cancellable && self@.state == ChildState::Running),
    {
        self.cancellable && self.process.consults_cancel()
    }

    /// One cycle of waiting for this mriqc process to finish, or for it to
    /// be cancelled, whichever comes first. `cancel_signal` is what the
    /// cancellation check answered in this cycle and `polled` what a poll of
    /// the process and its output brought.
    ///
    /// If the process finished successfully or if it was cancelled the
    /// verdict is `Ok(())`. Otherwise it is an error. Either way all that the
    /// job owns is to be released.
    pub fn wait(self, cancel_signal: Option<CancelSignal>, polled: Polled<ProcessOutput>) -> (waited:
        Mriqc1Wait)
        ensures
            waited@ == self@.wait(cancel_signal, polled),
    {
        let Mriqc1Process { process, cancellable, bids_participant, temp_dir, cmd, args } = self;
        let mut process = process;
        let heeded = if cancellable {
            cancel_signal
        } else {
            never_cancel()
        };
        let step = process.poll(heeded, polled);
        match step.poll {
            Polled::Pending => Mriqc1Wait::Pending(
                Mriqc1Process { process, cancellable, bids_participant, temp_dir, cmd, args },
            ),
            Polled::Ready(waited) => {
                let release = release_job(&bids_participant, temp_dir.as_str());
                let how_cancelled = match &waited {
                    Ok(output) => output.how_cancelled,
                    Err(_) => None,
                };
                Mriqc1Wait::Done {
                    result: verdict(cmd, args, waited),
                    how_cancelled,
                    signal: step.signal,
                    release,
                }
            },
        }
    }
}

// The setup of a job, before anything is made.
fn begin(options: Mriqc1Options, default_work_dir: String, cancellable: bool) -> (setup: Mriqc1Setup)
    ensures
        setup@ == new_job(options@, default_work_dir@, cancellable),
{
    Mriqc1Setup {
        bids_dir: options.bids_dir,
        out_dir: options.out_dir,
        participant: options.participant,
        cmd: match options.mriqc {
            Some(mriqc) => mriqc,
            None => String::from_str("mriqc"),
        },
        work_dir: match options.work_dir {
            Some(work_dir) => work_dir,
            None => default_work_dir,
        },
        extra_args: options.extra_args,
        cancellable,
        temp_dir: None,
        stage: JobStage::TempDir,
    }
}

/// The cancellation check of a run that cannot be cancelled: it never fires.
pub fn never_cancel() -> (signal: Option<CancelSignal>)
    ensures
        signal is None,
{
    None
}

} // verus!
