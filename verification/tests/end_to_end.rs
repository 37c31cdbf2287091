// Runs of the library against a real filesystem and real processes. The
// functions up to `drive` do what the library asks for and report back; the
// library decides.

use mriqc1::action::{Action, Reply};
use mriqc1::cancellable_process::{
    CancelSignal, CancellableChild, ExitStatus, Output, Polled, ProcessOutput, ProcessStatus,
    SignalRequest,
};
use mriqc1::mriqc::{Mriqc1Process, Mriqc1Progress, Mriqc1Wait, MriqcError};
use mriqc1::orchestrator::{
    classify, CancelCheck, JobOutcome, JobStart, Orchestrator, ParticipantState, RunAction,
    RunOptions, RunOutcome, Settlement,
};
use std::time::{Duration, Instant};
use tempfile::TempDir;
use tokio::process::{Child, Command};
use tokio::runtime::{Builder, Runtime};

fn runtime() -> Runtime {
    Builder::new_current_thread().enable_all().build().unwrap()
}

fn text(path: &std::path::Path) -> String {
    path.to_str().unwrap().to_string()
}

async fn is_there(path: &str) -> bool {
    tokio::fs::symlink_metadata(path).await.is_ok()
}

async fn entries(path: &str) -> Vec<String> {
    let mut names = Vec::new();
    let mut dir = tokio::fs::read_dir(path).await.unwrap();
    while let Some(entry) = dir.next_entry().await.unwrap() {
        names.push(entry.file_name().to_str().unwrap().to_string());
    }
    names.sort();
    names
}

async fn deliver(request: SignalRequest) {
    let signal = match request.signal {
        CancelSignal::Interrupt => "-INT",
        CancelSignal::Kill => "-KILL",
    };
    let _ = Command::new("kill").arg(signal).arg(request.pid.to_string()).status().await;
}

// What a job holds outside the library.
struct JobIo {
    guard: Option<TempDir>,
    child: Option<Child>,
    log: Vec<String>,
}

async fn perform(action: Action, io: &mut JobIo) -> Reply {
    io.log.push(format!("{:?}", action));
    match action {
        Action::CreateTempDir { root } => match TempDir::new_in(&root) {
            Ok(dir) => {
                let path = text(dir.path());
                io.guard = Some(dir);
                Reply::Path(Ok(path))
            }
            Err(error) => Reply::Path(Err(error)),
        },
        Action::Canonicalize { path } => {
            Reply::Path(tokio::fs::canonicalize(&path).await.map(|path| text(&path)))
        }
        Action::CreateDir { path } => Reply::Done(tokio::fs::create_dir(&path).await),
        Action::Probe { path } => Reply::Exists(tokio::fs::metadata(&path).await.is_ok()),
        Action::Symlink { src, dst } => Reply::Done(tokio::fs::symlink(&src, &dst).await),
        Action::RemoveDir { path } => Reply::Done(tokio::fs::remove_dir(&path).await),
        Action::RemoveDirAll { path } => Reply::Done(tokio::fs::remove_dir_all(&path).await),
        Action::RemoveFile { path } => Reply::Done(tokio::fs::remove_file(&path).await),
        Action::Spawn { cmd, args, current_dir } => {
            let stdin = tokio::fs::File::open("/dev/null").await.unwrap().into_std().await;
            let stdout = tokio::fs::File::create(format!("{}/stdout", current_dir))
                .await
                .unwrap()
                .into_std()
                .await;
            let stderr = tokio::fs::File::create(format!("{}/stderr", current_dir))
                .await
                .unwrap()
                .into_std()
                .await;
            let spawned = Command::new(&cmd)
                .args(&args)
                .stdin(stdin)
                .stdout(stdout)
                .stderr(stderr)
                .current_dir(&current_dir)
                .kill_on_drop(true)
                .spawn();
            match spawned {
                Ok(child) => {
                    let id = child.id();
                    io.child = Some(child);
                    Reply::Spawned(Ok(id))
                }
                Err(error) => Reply::Spawned(Err(error)),
            }
        }
    }
}

async fn release(actions: Vec<Action>, io: &mut JobIo) {
    for action in actions {
        let _ = perform(action, io).await;
    }
}

struct Running {
    index: usize,
    process: Mriqc1Process,
    cancel: CancelCheck,
    started: Instant,
    io: JobIo,
}

async fn start(start: JobStart, log: &mut Vec<String>) -> Result<Running, MriqcError> {
    let JobStart { index, options, cancel } = start;
    let mut io = JobIo { guard: None, child: None, log: Vec::new() };
    let mut setup = Mriqc1Process::new_with_cancel(options, "/tmp".to_string());
    let made = loop {
        let reply = perform(setup.action(), &mut io).await;
        match setup.answer(reply) {
            Mriqc1Progress::Pending(next) => setup = next,
            Mriqc1Progress::Ready(process) => break Ok(process),
            Mriqc1Progress::Failed { error, release: actions } => {
                release(actions, &mut io).await;
                break Err(error);
            }
        }
    };
    log.append(&mut io.log);
    made.map(|process| Running { index, process, cancel, started: Instant::now(), io })
}

// One cycle of the wait of one job. Gives the job back while it is pending.
async fn cycle(job: Running, interrupted: bool, notes: &mut Vec<usize>) -> Result<Running, JobOutcome> {
    let Running { index, process, mut cancel, started, mut io } = job;
    let cancel_signal = if process.consults_cancel() {
        let answer = cancel.check(interrupted, started.elapsed().as_nanos());
        if answer.note {
            notes.push(index);
        }
        answer.signal
    } else {
        None
    };
    let polled = match io.child.as_mut().unwrap().try_wait() {
        Ok(None) => Polled::Pending,
        Ok(Some(status)) => {
            let dir = process.temp_dir().to_string();
            Polled::Ready(Ok(ProcessOutput {
                status: ProcessStatus { code: status.code() },
                stdout: tokio::fs::read(format!("{}/stdout", dir)).await.unwrap(),
                stderr: tokio::fs::read(format!("{}/stderr", dir)).await.unwrap(),
            }))
        }
        Err(error) => Polled::Ready(Err(error)),
    };
    match process.wait(cancel_signal, polled) {
        Mriqc1Wait::Pending(process) => Ok(Running { index, process, cancel, started, io }),
        Mriqc1Wait::Done { result, how_cancelled, signal, release: actions } => {
            if let Some(request) = signal {
                deliver(request).await;
            }
            if let Some(mut child) = io.child.take() {
                let _ = child.start_kill();
                let _ = child.wait().await;
            }
            release(actions, &mut io).await;
            Err(classify(&result, how_cancelled))
        }
    }
}

struct Report {
    outcome: RunOutcome,
    states: Vec<ParticipantState>,
    settlements: Vec<(usize, Settlement)>,
    failures: Vec<(usize, String)>,
    notes: Vec<usize>,
    most_at_once: usize,
    log: Vec<String>,
}

// Runs `options` to the end. The run is interrupted once `interrupt_after`
// jobs have been started, if that is given.
async fn drive(options: RunOptions, interrupt_after: Option<usize>) -> Report {
    let mut run = Orchestrator::new(options);
    let mut running: Vec<Running> = Vec::new();
    let mut report = Report {
        outcome: RunOutcome::CompletedOk,
        states: Vec::new(),
        settlements: Vec::new(),
        failures: Vec::new(),
        notes: Vec::new(),
        most_at_once: 0,
        log: Vec::new(),
    };
    let mut starts = 0;
    loop {
        if interrupt_after == Some(starts) {
            run.interrupt();
        }
        let begin = match run.next_action() {
            RunAction::CheckOutput { index, path } => {
                let present = is_there(&path).await;
                run.output_checked(index, present)
            }
            RunAction::Start(job) => Some(job),
            RunAction::Wait => {
                let mut settled = Vec::new();
                while settled.is_empty() {
                    tokio::time::sleep(Duration::from_millis(5)).await;
                    let mut still = Vec::new();
                    for job in running.drain(..) {
                        let index = job.index;
                        match cycle(job, run.is_interrupted(), &mut report.notes).await {
                            Ok(job) => still.push(job),
                            Err(outcome) => settled.push((index, outcome)),
                        }
                    }
                    running = still;
                }
                for (index, outcome) in settled {
                    report.settlements.push((index, run.settle(index, outcome).unwrap()));
                }
                None
            }
            RunAction::Finish(outcome) => {
                report.outcome = outcome;
                break;
            }
        };
        if let Some(job) = begin {
            let index = job.index;
            starts += 1;
            match start(job, &mut report.log).await {
                Ok(job) => running.push(job),
                Err(error) => {
                    report.failures.push((index, format!("{:?}", error)));
                    let settlement = run.settle(index, JobOutcome::Failed).unwrap();
                    report.settlements.push((index, settlement));
                }
            }
        }
        report.most_at_once = report.most_at_once.max(running.len());
        assert_eq!(run.in_flight(), running.len());
    }
    for mut job in running {
        let actions = job.process.release();
        release(actions, &mut job.io).await;
    }
    report.states = (0..run.len()).map(|index| run.state(index).unwrap()).collect();
    report
}

struct Dataset {
    root: TempDir,
    bids: String,
    out: String,
    work: String,
    tool: String,
}

const STUB: &str = "#!/bin/sh\n\
    test -d \"$1/sub-$7\" || exit 3\n\
    test \"$3\" = participant || exit 4\n\
    test \"$PWD\" = \"$5\" || exit 5\n\
    if [ \"$7\" = slow ]; then exec sleep 30; fi\n\
    if [ \"$7\" = bad ]; then echo told; echo broken >&2; exit 7; fi\n\
    mkdir \"$2/sub-$7\"\n";

// A dataset with a description and the given participants, an empty output
// directory, an empty working directory and the stub in place of mriqc.
async fn dataset(participants: &[&str]) -> Dataset {
    let root = tempfile::tempdir().unwrap();
    let base = text(&tokio::fs::canonicalize(root.path()).await.unwrap());
    let bids = format!("{}/bids", base);
    let out = format!("{}/out", base);
    let work = format!("{}/work", base);
    let tool = format!("{}/mriqc-stub", base);
    tokio::fs::create_dir(&bids).await.unwrap();
    tokio::fs::create_dir(&out).await.unwrap();
    tokio::fs::create_dir(&work).await.unwrap();
    tokio::fs::write(format!("{}/dataset_description.json", bids), b"{}").await.unwrap();
    for participant in participants {
        tokio::fs::create_dir(format!("{}/sub-{}", bids, participant)).await.unwrap();
    }
    tokio::fs::write(&tool, STUB.as_bytes()).await.unwrap();
    assert!(Command::new("chmod").arg("+x").arg(&tool).status().await.unwrap().success());
    Dataset { root, bids, out, work, tool }
}

fn options(data: &Dataset, participants: &[&str], n_par: usize) -> RunOptions {
    RunOptions {
        bids_dir: data.bids.clone(),
        out_dir: data.out.clone(),
        mriqc: Some(data.tool.clone()),
        work_dir: Some(data.work.clone()),
        extra_args: Vec::new(),
        participants: participants.iter().map(|p| p.to_string()).collect(),
        n_par,
        resume: false,
        timeout: None,
        werror: false,
        quiet: false,
    }
}

// Waits for a real child under the supervision of the library.
async fn wait(
    supervised: &mut CancellableChild,
    child: &mut Child,
    check: &mut dyn FnMut() -> Option<CancelSignal>,
) -> std::io::Result<ExitStatus> {
    loop {
        if let Some(report) = supervised.resolved() {
            return Ok(report);
        }
        let cancel = check();
        let polled = match child.try_wait() {
            Ok(None) => Polled::Pending,
            Ok(Some(status)) => Polled::Ready(Ok(ProcessStatus { code: status.code() })),
            Err(error) => Polled::Ready(Err(error)),
        };
        let step = supervised.wait(cancel, polled);
        if let Some(request) = step.signal {
            deliver(request).await;
        }
        match step.poll {
            Polled::Pending => tokio::time::sleep(Duration::from_millis(2)).await,
            Polled::Ready(report) => return report,
        }
    }
}

#[test]
fn test_wait() {
    runtime().block_on(async {
        // Run the command `sleep 0.1` to completion.
        let mut child = Command::new("sleep").arg("0.1").spawn().unwrap();
        let mut supervised = CancellableChild::new(child.id());
        let status = wait(&mut supervised, &mut child, &mut || None).await.unwrap();
        assert!(status.how_cancelled.is_none());
        assert!(status.status.unwrap().success());
    });
}

#[test]
fn test_wait_cancel() {
    runtime().block_on(async {
        // Run the command `sleep 0.1` and then cancel it.
        let now = Instant::now();
        let mut child = Command::new("sleep").arg("0.1").kill_on_drop(true).spawn().unwrap();
        let mut supervised = CancellableChild::new(child.id());
        let mut check = || Some(CancelSignal::Interrupt);
        let status = wait(&mut supervised, &mut child, &mut check).await.unwrap();
        let elapsed = Instant::now().duration_since(now);
        assert!(elapsed < Duration::from_millis(100));
        assert!(status.how_cancelled.unwrap() == CancelSignal::Interrupt);
    });
}

#[test]
fn test_wait_output() {
    runtime().block_on(async {
        // Run the command `echo hello` to completion.
        let dir = tempfile::tempdir().unwrap();
        let path = format!("{}/stdout", text(dir.path()));
        let stdout = tokio::fs::File::create(&path).await.unwrap().into_std().await;
        let mut child = Command::new("echo").arg("hello").stdout(stdout).spawn().unwrap();
        let mut wait = CancellableChild::new(child.id()).wait_with_output();
        let output: Output = loop {
            let polled = match child.try_wait().unwrap() {
                None => Polled::Pending,
                Some(status) => Polled::Ready(Ok(ProcessOutput {
                    status: ProcessStatus { code: status.code() },
                    stdout: tokio::fs::read(&path).await.unwrap(),
                    stderr: Vec::new(),
                })),
            };
            match wait.poll(None, polled).poll {
                Polled::Pending => tokio::time::sleep(Duration::from_millis(2)).await,
                Polled::Ready(output) => break output.unwrap(),
            }
        };
        assert!(output.how_cancelled.is_none());
        let output = output.output.unwrap();
        assert!(output.status.success());
        assert!(std::str::from_utf8(&output.stdout).unwrap() == "hello\n");
    });
}

#[test]
fn wait_on_a_failing_process_reports_its_code() {
    runtime().block_on(async {
        let mut child = Command::new("sh").arg("-c").arg("exit 3").spawn().unwrap();
        let mut supervised = CancellableChild::new(child.id());
        let status = wait(&mut supervised, &mut child, &mut || None).await.unwrap();
        assert!(status.how_cancelled.is_none());
        assert_eq!(status.status.unwrap().code(), Some(3));
        let again = wait(&mut supervised, &mut child, &mut || Some(CancelSignal::Kill)).await;
        assert_eq!(again.unwrap().status.unwrap().code(), Some(3));
    });
}

#[test]
fn interrupt_reaches_the_process() {
    runtime().block_on(async {
        let mut child = Command::new("sleep").arg("30").kill_on_drop(true).spawn().unwrap();
        let mut supervised = CancellableChild::new(child.id());
        let mut check = || Some(CancelSignal::Interrupt);
        let status = wait(&mut supervised, &mut child, &mut check).await.unwrap();
        assert_eq!(status.how_cancelled, Some(CancelSignal::Interrupt));
        assert!(status.status.is_none());
        let ended = tokio::time::timeout(Duration::from_secs(10), child.wait()).await;
        let ended = ended.unwrap().unwrap();
        assert_eq!(ended.code(), None);
        let checked = supervised.try_wait(Ok(Some(ProcessStatus { code: ended.code() })));
        let checked = checked.unwrap().unwrap();
        assert_eq!(checked.how_cancelled, Some(CancelSignal::Interrupt));
        assert_eq!(checked.status, Some(ProcessStatus { code: None }));
    });
}

#[test]
fn run_processes_every_participant_and_cleans_up() {
    runtime().block_on(async {
        let data = dataset(&["001", "002"]).await;
        let report = drive(options(&data, &["001", "002"], 2), None).await;
        assert_eq!(report.outcome, RunOutcome::CompletedOk);
        assert_eq!(report.states, vec![ParticipantState::Succeeded; 2]);
        assert!(report.failures.is_empty());
        assert_eq!(report.most_at_once, 2);
        assert_eq!(entries(&data.out).await, vec!["sub-001", "sub-002"]);
        assert!(entries(&data.work).await.is_empty());
        assert_eq!(
            entries(&data.bids).await,
            vec!["dataset_description.json", "sub-001", "sub-002"]
        );
        drop(data.root);
    });
}

#[test]
fn shadow_tree_holds_links_for_what_the_dataset_has() {
    runtime().block_on(async {
        let data = dataset(&["001"]).await;
        tokio::fs::create_dir(format!("{}/sourcedata", data.bids)).await.unwrap();
        let mut given = options(&data, &["001"], 1);
        given.mriqc = Some("true".to_string());
        let mut run = Orchestrator::new(given);
        let job = match run.next_action() {
            RunAction::Start(job) => job,
            other => panic!("expected a job to start, got {:?}", other),
        };
        let mut log = Vec::new();
        let mut job = start(job, &mut log).await.unwrap();
        let shadow = job.process.bids_participant().parent().path().to_string();
        assert_eq!(
            entries(&shadow).await,
            vec!["dataset_description.json", "sourcedata", "sub-001"]
        );
        for name in ["dataset_description.json", "sourcedata", "sub-001"] {
            let link = format!("{}/{}", shadow, name);
            let target = tokio::fs::read_link(&link).await.unwrap();
            assert_eq!(text(&target), format!("{}/{}", data.bids, name));
        }
        assert!(!log.iter().any(|line| line.contains("Symlink") && line.contains("participants.tsv")));
        let actions = job.process.release();
        release(actions, &mut job.io).await;
        assert!(entries(&data.work).await.is_empty());
        assert_eq!(
            entries(&data.bids).await,
            vec!["dataset_description.json", "sourcedata", "sub-001"]
        );
    });
}

#[test]
fn missing_participant_is_a_warning_and_the_others_are_processed() {
    runtime().block_on(async {
        let data = dataset(&["001", "002"]).await;
        let report = drive(options(&data, &["001", "003", "002"], 2), None).await;
        assert_eq!(report.outcome, RunOutcome::CompletedOk);
        assert_eq!(
            report.states,
            vec![ParticipantState::Succeeded, ParticipantState::Failed, ParticipantState::Succeeded]
        );
        assert_eq!(report.failures.len(), 1);
        assert_eq!(report.failures[0].0, 1);
        assert!(report.failures[0].1.contains("MissingParticipant"));
        assert!(report.failures[0].1.contains("participant: \"003\""));
        assert!(report.settlements.contains(&(1, Settlement::Warning { print: true })));
        assert!(!report.log.iter().any(|line| line.contains("Symlink") && line.contains("sub-003")));
        assert_eq!(entries(&data.out).await, vec!["sub-001", "sub-002"]);
        assert!(entries(&data.work).await.is_empty());
    });
}

#[test]
fn missing_participant_as_error_ends_the_run() {
    runtime().block_on(async {
        let data = dataset(&["001", "002"]).await;
        let mut given = options(&data, &["001", "003", "002"], 1);
        given.werror = true;
        let report = drive(given, None).await;
        assert_eq!(report.outcome, RunOutcome::CompletedWithFailure);
        assert_eq!(
            report.states,
            vec![ParticipantState::Succeeded, ParticipantState::Failed, ParticipantState::Pending]
        );
        assert!(report.settlements.contains(&(1, Settlement::Error)));
        assert_eq!(entries(&data.out).await, vec!["sub-001"]);
        assert!(entries(&data.work).await.is_empty());
    });
}

#[test]
fn failing_tool_is_reported_with_its_output() {
    runtime().block_on(async {
        let data = dataset(&["bad"]).await;
        let mut run = Orchestrator::new(options(&data, &["bad"], 1));
        let job = match run.next_action() {
            RunAction::Start(job) => job,
            other => panic!("expected a job to start, got {:?}", other),
        };
        let mut job = start(job, &mut Vec::new()).await.unwrap();
        let status = job.io.child.as_mut().unwrap().wait().await.unwrap();
        let dir = job.process.temp_dir().to_string();
        let ended = ProcessOutput {
            status: ProcessStatus { code: status.code() },
            stdout: tokio::fs::read(format!("{}/stdout", dir)).await.unwrap(),
            stderr: tokio::fs::read(format!("{}/stderr", dir)).await.unwrap(),
        };
        match job.process.wait(None, Polled::Ready(Ok(ended))) {
            Mriqc1Wait::Done { result, how_cancelled, signal, release: actions } => {
                match &result {
                    Err(MriqcError::ProcessWithOutput { cmd, args, stdout, stderr, status }) => {
                        assert_eq!(cmd, &data.tool);
                        assert_eq!(args.len(), 7);
                        assert_eq!(args[1], data.out);
                        assert_eq!(args[6], "bad");
                        assert_eq!(stdout, b"told\n");
                        assert_eq!(stderr, b"broken\n");
                        assert_eq!(*status, Some(7));
                    }
                    other => panic!("expected a failed process, got {:?}", other),
                }
                assert!(signal.is_none());
                assert_eq!(classify(&result, how_cancelled), JobOutcome::Failed);
                release(actions, &mut job.io).await;
            }
            other => panic!("the wait is not over: {:?}", other),
        }
        assert!(entries(&data.work).await.is_empty());
    });
}

#[test]
fn tool_that_cannot_be_started_is_a_process_error() {
    runtime().block_on(async {
        let data = dataset(&["001"]).await;
        let mut given = options(&data, &["001"], 1);
        given.mriqc = Some(format!("{}/no-such-tool", data.work));
        let report = drive(given, None).await;
        assert_eq!(report.outcome, RunOutcome::CompletedOk);
        assert_eq!(report.states, vec![ParticipantState::Failed]);
        assert!(report.failures[0].1.starts_with("Process {"));
        assert!(entries(&data.work).await.is_empty());
    });
}

#[test]
fn resume_skips_what_is_there_and_never_runs_the_tool_for_it() {
    runtime().block_on(async {
        let data = dataset(&["001", "002"]).await;
        tokio::fs::create_dir(format!("{}/sub-001", data.out)).await.unwrap();
        let mut given = options(&data, &["001", "002"], 2);
        given.resume = true;
        let report = drive(given, None).await;
        assert_eq!(report.outcome, RunOutcome::CompletedOk);
        assert_eq!(report.states, vec![ParticipantState::Skipped, ParticipantState::Succeeded]);
        let spawns: Vec<&String> =
            report.log.iter().filter(|line| line.starts_with("Spawn")).collect();
        assert_eq!(spawns.len(), 1);
        assert!(spawns[0].contains("\"--participant-label\", \"002\""));
        assert_eq!(entries(&data.out).await, vec!["sub-001", "sub-002"]);
        assert!(entries(&data.work).await.is_empty());
    });
}

#[test]
fn timeout_cancels_the_slow_job_and_leaves_the_other_alone() {
    runtime().block_on(async {
        let data = dataset(&["slow", "002"]).await;
        let mut given = options(&data, &["slow", "002"], 2);
        given.timeout = Some(Duration::from_millis(1500).as_nanos());
        let began = Instant::now();
        let report = drive(given, None).await;
        assert!(began.elapsed() < Duration::from_secs(15));
        assert_eq!(report.outcome, RunOutcome::CompletedOk);
        assert_eq!(
            report.states,
            vec![ParticipantState::CancelledOk, ParticipantState::Succeeded]
        );
        assert!(report.settlements.contains(&(0, Settlement::Success)));
        assert!(report.settlements.contains(&(1, Settlement::Success)));
        assert_eq!(report.notes, vec![0]);
        assert_eq!(entries(&data.out).await, vec!["sub-002"]);
        assert!(entries(&data.work).await.is_empty());
    });
}

#[test]
fn interrupt_stops_the_intake_and_cancels_what_runs() {
    runtime().block_on(async {
        let data = dataset(&["slow", "001", "002"]).await;
        let report = drive(options(&data, &["slow", "001", "002"], 1), Some(1)).await;
        assert_eq!(report.outcome, RunOutcome::Interrupted);
        assert_eq!(
            report.states,
            vec![ParticipantState::CancelledOk, ParticipantState::Pending, ParticipantState::Pending]
        );
        assert!(report.notes.is_empty());
        assert!(entries(&data.out).await.is_empty());
        assert!(entries(&data.work).await.is_empty());
    });
}

#[test]
fn concurrency_stays_within_the_bound() {
    runtime().block_on(async {
        let names = ["a", "b", "c", "d", "e", "f", "g"];
        let data = dataset(&names).await;
        for n_par in [1, 3] {
            let mut given = options(&data, &names, n_par);
            given.out_dir = format!("{}/out{}", data.work.trim_end_matches("work"), n_par);
            tokio::fs::create_dir(&given.out_dir).await.unwrap();
            let out = given.out_dir.clone();
            let report = drive(given, None).await;
            assert_eq!(report.outcome, RunOutcome::CompletedOk);
            assert!(report.most_at_once <= n_par);
            assert!(report.most_at_once >= 1);
            assert_eq!(report.states, vec![ParticipantState::Succeeded; 7]);
            assert_eq!(entries(&out).await.len(), 7);
            assert!(entries(&data.work).await.is_empty());
        }
    });
}
