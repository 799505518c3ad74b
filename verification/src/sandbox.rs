//! One isolated execution of a target program, as a state machine.
//!
//! The sandbox does no work on the outside world itself. It hands out one
//! `Action` at a time and is told the `Outcome` of each; from that it decides
//! what comes next. Whoever drives it carries the actions out.
//!
//! A run stages the target in a directory of its own, has the container
//! runtime fetch the base image, create the container and start it, reads
//! the trace that the tracer left in the staging directory, and tears
//! down. Whatever fails on the way, the teardown follows: the container is
//! deleted and the staging directory removed.

use vstd::prelude::*;
use vstd::string::StringExecFns;
use crate::runtime::{
    command_succeeded, create_container, create_container_spec, delete_container,
    delete_container_spec, download_image, download_image_spec, exit_outcome, output_to_result,
    start_container, start_container_spec, CommandOutput, RuntimeClientError,
    RuntimeClientErrorView, RuntimeCommand, RuntimeCommandView,
};
use crate::trace::{decode_trace, decoded_trace, SyscallEvent, TraceDecodeError, RECORD_LEN};

verus! {

/// What the name of a staging directory starts with; the container id
/// follows.
pub const STAGING_PREFIX: &'static str = "mount-";

/// Names of the files in the staging directory.
pub const RUNNER_SCRIPT_NAME: &'static str = "setup.sh";

pub const TRACER_NAME: &'static str = "nimono";

pub const TARGET_NAME: &'static str = "target";

pub const TRACE_NAME: &'static str = "trace";

/// Where the staging directory is mounted inside the container.
pub const MOUNT_DEST: &'static str = "/mnt";

/// The shell that runs the runner script, and the script as the container
/// sees it.
pub const RUNNER_SHELL: &'static str = "sh";

pub const RUNNER_SCRIPT_IN_CONTAINER: &'static str = "/mnt/setup.sh";

/// The base image and where its bundle lies.
pub const IMAGE_NAME: &'static str = "ubuntu";

pub const IMAGE_TAG: &'static str = "latest";

pub const BUNDLE_PATH: &'static str = "./bundles/ubuntu-latest";

/// How the run phase of the container ended.
#[derive(Debug, Clone, Copy, PartialEq, Eq, Structural)]
pub enum ExitOutcome {
    /// The container exited with status zero.
    Success,
    /// The container exited with a non-zero status.
    Failure,
    /// The run exceeded its deadline and was terminated.
    Timeout,
}

/// What a completed run hands to the analysis.
#[derive(Debug)]
pub struct SandboxResult {
    /// The events of the trace, in capture order.
    pub syscall_events: Vec<SyscallEvent>,
    /// How the run phase ended.
    pub exit: ExitOutcome,
}

pub struct SandboxResultView {
    pub syscall_events: Seq<SyscallEvent>,
    pub exit: ExitOutcome,
}

impl View for SandboxResult {
    type V = SandboxResultView;

    open spec fn view(&self) -> SandboxResultView {
        SandboxResultView { syscall_events: self.syscall_events@, exit: self.exit }
    }
}

/// Why a run yields no trace.
#[derive(Debug)]
pub enum SandboxError {
    /// The target is missing or no regular file.
    InvalidTarget,
    /// The staging directory could not be made or filled.
    StagingError,
    /// A request to the container runtime failed.
    RuntimeClientError(RuntimeClientError),
    /// The trace file is missing or unreadable after the run.
    TraceCollectionError,
    /// The trace file does not hold whole records.
    TraceDecodeError(TraceDecodeError),
}

pub enum SandboxErrorView {
    InvalidTarget,
    StagingError,
    RuntimeClientError(RuntimeClientErrorView),
    TraceCollectionError,
    TraceDecodeError(TraceDecodeError),
}

impl View for SandboxError {
    type V = SandboxErrorView;

    open spec fn view(&self) -> SandboxErrorView {
        match self {
            SandboxError::InvalidTarget => SandboxErrorView::InvalidTarget,
            SandboxError::StagingError => SandboxErrorView::StagingError,
            SandboxError::RuntimeClientError(e) => SandboxErrorView::RuntimeClientError(e@),
            SandboxError::TraceCollectionError => SandboxErrorView::TraceCollectionError,
            SandboxError::TraceDecodeError(e) => SandboxErrorView::TraceDecodeError(*e),
        }
    }
}

/// What the sandbox asks its driver to do next.
#[derive(Debug)]
pub enum Action {
    /// Find out whether `path` exists and is a regular file.
    CheckTarget { path: String },
    /// Create the directory `path`, which must not exist yet.
    CreateStagingDir { path: String },
    /// Write the runner script to `path`.
    WriteRunnerScript { path: String },
    /// Write the tracer binary to `path`.
    WriteTracer { path: String },
    /// Copy the file `from` to `to`.
    CopyTarget { from: String, to: String },
    /// Run the command and capture what it writes.
    DownloadImage(RuntimeCommand),
    /// Run the command and capture what it writes.
    CreateContainer(RuntimeCommand),
    /// Run the command and wait for it to end, no longer than its deadline;
    /// at the deadline, terminate it and what it started.
    StartContainer(RuntimeCommand),
    /// Read the whole file `path`.
    CollectTrace { path: String },
    /// Run the command and capture what it writes.
    DeleteContainer(RuntimeCommand),
    /// Remove the directory `path` with all that is in it.
    RemoveStagingDir { path: String },
    /// Nothing is left to do: the run is over.
    Finish,
}

pub enum ActionView {
    CheckTarget { path: Seq<char> },
    CreateStagingDir { path: Seq<char> },
    WriteRunnerScript { path: Seq<char> },
    WriteTracer { path: Seq<char> },
    CopyTarget { from: Seq<char>, to: Seq<char> },
    DownloadImage(RuntimeCommandView),
    CreateContainer(RuntimeCommandView),
    StartContainer(RuntimeCommandView),
    CollectTrace { path: Seq<char> },
    DeleteContainer(RuntimeCommandView),
    RemoveStagingDir { path: Seq<char> },
    Finish,
}

impl View for Action {
    type V = ActionView;

    open spec fn view(&self) -> ActionView {
        match self {
            Action::CheckTarget { path } => ActionView::CheckTarget { path: path@ },
            Action::CreateStagingDir { path } => ActionView::CreateStagingDir { path: path@ },
            Action::WriteRunnerScript { path } => ActionView::WriteRunnerScript { path: path@ },
            Action::WriteTracer { path } => ActionView::WriteTracer { path: path@ },
            Action::CopyTarget { from, to } => ActionView::CopyTarget { from: from@, to: to@ },
            Action::DownloadImage(cmd) => ActionView::DownloadImage(cmd@),
            Action::CreateContainer(cmd) => ActionView::CreateContainer(cmd@),
            Action::StartContainer(cmd) => ActionView::StartContainer(cmd@),
            Action::CollectTrace { path } => ActionView::CollectTrace { path: path@ },
            Action::DeleteContainer(cmd) => ActionView::DeleteContainer(cmd@),
            Action::RemoveStagingDir { path } => ActionView::RemoveStagingDir { path: path@ },
            Action::Finish => ActionView::Finish,
        }
    }
}

/// What became of an action.
#[derive(Debug)]
pub enum Outcome {
    /// What the inspection of the target found.
    Target { exists: bool, is_file: bool },
    /// The action was carried out.
    Done,
    /// The action could not be carried out.
    Failed,
    /// The command ran to its end and left this behind.
    Command(CommandOutput),
    /// The container ran to its end, with this exit code if it has one.
    Exited { exit_code: Option<i32> },
    /// The run reached its deadline and was terminated.
    TimedOut,
    /// What the trace file holds.
    Trace(Vec<u8>),
}

pub enum OutcomeView {
    Target { exists: bool, is_file: bool },
    Done,
    Failed,
    Command { exit_code: Option<i32>, stdout: Seq<u8>, stderr: Seq<u8> },
    Exited { exit_code: Option<i32> },
    TimedOut,
    Trace(Seq<u8>),
}

impl View for Outcome {
    type V = OutcomeView;

    open spec fn view(&self) -> OutcomeView {
        match self {
            Outcome::Target { exists, is_file } => OutcomeView::Target {
                exists: *exists,
                is_file: *is_file,
            },
            Outcome::Done => OutcomeView::Done,
            Outcome::Failed => OutcomeView::Failed,
            Outcome::Command(output) => OutcomeView::Command {
                exit_code: output.exit_code,
                stdout: output.stdout@,
                stderr: output.stderr@,
            },
            Outcome::Exited { exit_code } => OutcomeView::Exited { exit_code: *exit_code },
            Outcome::TimedOut => OutcomeView::TimedOut,
            Outcome::Trace(bytes) => OutcomeView::Trace(bytes@),
        }
    }
}

/// The action whose outcome the sandbox waits for.
#[derive(Debug, Clone, Copy, PartialEq, Eq, Structural)]
pub enum Step {
    CheckTarget,
    CreateStagingDir,
    WriteRunnerScript,
    WriteTracer,
    CopyTarget,
    DownloadImage,
    CreateContainer,
    StartContainer,
    CollectTrace,
    DeleteContainer,
    RemoveStagingDir,
    Finished,
}

/// How far a run has come.
#[derive(Debug, Clone, Copy, PartialEq, Eq, Structural)]
pub enum Phase {
    /// Nothing is staged yet, or not all of it.
    Created,
    /// The staging directory holds runner script, tracer and target.
    StagingPrepared,
    /// The base image is there.
    ImageReady,
    /// The container exists and is about to be started.
    ContainerCreated,
    /// The run phase is over or was cut short; its trace is not collected
    /// yet.
    Running,
    /// The trace is collected; the teardown is under way.
    Collected,
    /// Container and staging directory have been released.
    TornDown,
    /// The run failed; the teardown is under way.
    Aborted,
}

/// The state of a sandbox.
pub struct SandboxView {
    pub container_id: Seq<char>,
    pub target_program_path: Seq<char>,
    pub timeout_sec: Option<u64>,
    pub step: Step,
    /// The first failure of the run.
    pub error: Option<SandboxErrorView>,
    /// How the run phase ended, once it has.
    pub exit: Option<ExitOutcome>,
    /// The collected events.
    pub events: Seq<SyscallEvent>,
    /// Whether the teardown deleted the container.
    pub container_deleted: bool,
    /// Whether the teardown removed the staging directory.
    pub staging_removed: bool,
}

/// The path of the staging directory of the container `container_id`.
pub open spec fn staging_dir(container_id: Seq<char>) -> Seq<char> {
    STAGING_PREFIX@ + container_id
}

/// The path of the file `name` in the staging directory of `container_id`.
pub open spec fn staged_path(container_id: Seq<char>, name: Seq<char>) -> Seq<char> {
    staging_dir(container_id) + "/"@ + name
}

/// The state of a sandbox before its run.
pub open spec fn fresh(
    container_id: Seq<char>,
    target_program_path: Seq<char>,
    timeout_sec: Option<u64>,
) -> SandboxView {
    SandboxView {
        container_id,
        target_program_path,
        timeout_sec,
        step: Step::CheckTarget,
        error: None,
        exit: None,
        events: Seq::empty(),
        container_deleted: false,
        staging_removed: false,
    }
}

/// How far the run has come in the state `s`.
pub open spec fn phase_of(s: SandboxView) -> Phase {
    match s.step {
        Step::CheckTarget | Step::CreateStagingDir | Step::WriteRunnerScript | Step::WriteTracer
        | Step::CopyTarget => Phase::Created,
        Step::DownloadImage => Phase::StagingPrepared,
        Step::CreateContainer => Phase::ImageReady,
        Step::StartContainer => Phase::ContainerCreated,
        Step::CollectTrace => Phase::Running,
        Step::DeleteContainer | Step::RemoveStagingDir => if s.error is Some {
            Phase::Aborted
        } else {
            Phase::Collected
        },
        Step::Finished => Phase::TornDown,
    }
}

/// The action that the sandbox hands out in the state `s`.
pub open spec fn pending_action(s: SandboxView) -> ActionView {
    match s.step {
        Step::CheckTarget => ActionView::CheckTarget { path: s.target_program_path },
        Step::CreateStagingDir => ActionView::CreateStagingDir {
            path: staging_dir(s.container_id),
        },
        Step::WriteRunnerScript => ActionView::WriteRunnerScript {
            path: staged_path(s.container_id, RUNNER_SCRIPT_NAME@),
        },
        Step::WriteTracer => ActionView::WriteTracer {
            path: staged_path(s.container_id, TRACER_NAME@),
        },
        Step::CopyTarget => ActionView::CopyTarget {
            from: s.target_program_path,
            to: staged_path(s.container_id, TARGET_NAME@),
        },
        Step::DownloadImage => ActionView::DownloadImage(
            download_image_spec(IMAGE_NAME@, IMAGE_TAG@),
        ),
        Step::CreateContainer => ActionView::CreateContainer(
            create_container_spec(s.container_id, BUNDLE_PATH@),
        ),
        Step::StartContainer => ActionView::StartContainer(
            start_container_spec(
                s.container_id,
                staging_dir(s.container_id),
                MOUNT_DEST@,
                Some(seq![RUNNER_SHELL@, RUNNER_SCRIPT_IN_CONTAINER@]),
                s.timeout_sec,
            ),
        ),
        Step::CollectTrace => ActionView::CollectTrace {
            path: staged_path(s.container_id, TRACE_NAME@),
        },
        Step::DeleteContainer => ActionView::DeleteContainer(delete_container_spec(s.container_id)),
        Step::RemoveStagingDir => ActionView::RemoveStagingDir {
            path: staging_dir(s.container_id),
        },
        Step::Finished => ActionView::Finish,
    }
}

/// The state `s` with the run failed: `error` is kept as its failure and
/// the teardown begins.
pub open spec fn aborted(s: SandboxView, error: SandboxErrorView) -> SandboxView {
    SandboxView { step: Step::DeleteContainer, error: Some(error), ..s }
}

/// The state `s` waiting for the outcome of `step`.
pub open spec fn advanced(s: SandboxView, step: Step) -> SandboxView {
    SandboxView { step, ..s }
}

/// The failure that the outcome `o` of a request to the runtime stands for,
/// if it stands for one. Only a command that ran to its end, exited with
/// code zero and wrote nothing to its error stream is no failure.
pub open spec fn command_failure(o: OutcomeView) -> Option<SandboxErrorView> {
    match o {
        OutcomeView::Command { exit_code, stdout, stderr } => if command_succeeded(
            exit_code,
            stderr,
        ) {
            None
        } else {
            Some(
                SandboxErrorView::RuntimeClientError(RuntimeClientErrorView { stdout, stderr }),
            )
        },
        _ => Some(
            SandboxErrorView::RuntimeClientError(
                RuntimeClientErrorView { stdout: Seq::empty(), stderr: Seq::empty() },
            ),
        ),
    }
}

/// The state after a step of staging with the outcome `o`: on to `next` if
/// the step was carried out, else the run fails.
pub open spec fn after_staging(s: SandboxView, o: OutcomeView, next: Step) -> SandboxView {
    if o is Done {
        advanced(s, next)
    } else {
        aborted(s, SandboxErrorView::StagingError)
    }
}

/// The state after a request to the runtime with the outcome `o`: on to
/// `next` if the request succeeded, else the run fails.
pub open spec fn after_request(s: SandboxView, o: OutcomeView, next: Step) -> SandboxView {
    match command_failure(o) {
        None => advanced(s, next),
        Some(error) => aborted(s, error),
    }
}

/// The state after the run phase with the outcome `o`. A container that
/// ran to its end, with whatever exit code, and one that was terminated at
/// its deadline both lead on to the collection of the trace.
pub open spec fn after_start(s: SandboxView, o: OutcomeView) -> SandboxView {
    match o {
        OutcomeView::Exited { exit_code } => SandboxView {
            step: Step::CollectTrace,
            exit: Some(
                if exit_code == Some(0i32) {
                    ExitOutcome::Success
                } else {
                    ExitOutcome::Failure
                },
            ),
            ..s
        },
        OutcomeView::TimedOut => SandboxView {
            step: Step::CollectTrace,
            exit: Some(ExitOutcome::Timeout),
            ..s
        },
        _ => aborted(
            s,
            SandboxErrorView::RuntimeClientError(
                RuntimeClientErrorView { stdout: Seq::empty(), stderr: Seq::empty() },
            ),
        ),
    }
}

/// The state after the collection of the trace with the outcome `o`. A
/// trace of whole records is decoded. After a run that was terminated at
/// its deadline a missing trace counts as an empty one.
pub open spec fn after_collect(s: SandboxView, o: OutcomeView) -> SandboxView {
    match o {
        OutcomeView::Trace(bytes) => if bytes.len() % (RECORD_LEN as nat) == 0 {
            SandboxView { step: Step::DeleteContainer, events: decoded_trace(bytes), ..s }
        } else {
            aborted(
                s,
                SandboxErrorView::TraceDecodeError(
                    TraceDecodeError::TruncatedRecord {
                        index: (bytes.len() / (RECORD_LEN as nat)) as usize,
                        available: (bytes.len() % (RECORD_LEN as nat)) as usize,
                    },
                ),
            )
        },
        _ => if s.exit == Some(ExitOutcome::Timeout) {
            advanced(s, Step::DeleteContainer)
        } else {
            aborted(s, SandboxErrorView::TraceCollectionError)
        },
    }
}

/// The state that follows `s` when the pending action had the outcome `o`.
///
/// A failure before the teardown ends the run and starts the teardown. A
/// failure of the teardown is recorded and changes nothing else. In the
/// last state nothing changes any more.
pub open spec fn transition(s: SandboxView, o: OutcomeView) -> SandboxView {
    match s.step {
        Step::CheckTarget => if o == (OutcomeView::Target { exists: true, is_file: true }) {
            advanced(s, Step::CreateStagingDir)
        } else {
            aborted(s, SandboxErrorView::InvalidTarget)
        },
        Step::CreateStagingDir => after_staging(s, o, Step::WriteRunnerScript),
        Step::WriteRunnerScript => after_staging(s, o, Step::WriteTracer),
        Step::WriteTracer => after_staging(s, o, Step::CopyTarget),
        Step::CopyTarget => after_staging(s, o, Step::DownloadImage),
        Step::DownloadImage => after_request(s, o, Step::CreateContainer),
        Step::CreateContainer => after_request(s, o, Step::StartContainer),
        Step::StartContainer => after_start(s, o),
        Step::CollectTrace => after_collect(s, o),
        Step::DeleteContainer => SandboxView {
            step: Step::RemoveStagingDir,
            container_deleted: command_failure(o) is None,
            ..s
        },
        Step::RemoveStagingDir => SandboxView {
            step: Step::Finished,
            staging_removed: o is Done,
            ..s
        },
        Step::Finished => s,
    }
}

/// What a run in the state `s` has yielded, once it is over: the trace and
/// how the run phase ended, or the first failure.
pub open spec fn result_of(s: SandboxView) -> Option<Result<SandboxResultView, SandboxErrorView>> {
    if s.step != Step::Finished {
        None
    } else {
        match s.error {
            Some(error) => Some(Err(error)),
            None => match s.exit {
                Some(exit) => Some(Ok(SandboxResultView { syscall_events: s.events, exit })),
                None => None,
            },
        }
    }
}


/// The state that the outcomes `outcomes`, fed one after the other, lead
/// to from `s`.
pub open spec fn state_after(s: SandboxView, outcomes: Seq<OutcomeView>) -> SandboxView
    decreases outcomes.len(),
{
    if outcomes.len() == 0 {
        s
    } else {
        state_after(transition(s, outcomes.first()), outcomes.drop_first())
    }
}

/// The actions that were carried out to get the outcomes `outcomes` from
/// `s` on, in order: one for each outcome.
pub open spec fn actions_of(s: SandboxView, outcomes: Seq<OutcomeView>) -> Seq<ActionView>
    decreases outcomes.len(),
{
    if outcomes.len() == 0 {
        Seq::empty()
    } else {
        seq![pending_action(s)] + actions_of(
            transition(s, outcomes.first()),
            outcomes.drop_first(),
        )
    }
}

/// How many of `actions` delete a container.
pub open spec fn container_deletions(actions: Seq<ActionView>) -> nat
    decreases actions.len(),
{
    if actions.len() == 0 {
        0
    } else {
        container_deletions(actions.drop_last()) + if actions.last() is DeleteContainer {
            1nat
        } else {
            0nat
        }
    }
}

/// How many of `actions` remove a staging directory.
pub open spec fn staging_removals(actions: Seq<ActionView>) -> nat
    decreases actions.len(),
{
    if actions.len() == 0 {
        0
    } else {
        staging_removals(actions.drop_last()) + if actions.last() is RemoveStagingDir {
            1nat
        } else {
            0nat
        }
    }
}

/// Whether the directory `path` is there after `actions` had the outcomes
/// `outcomes`, if `before` says whether it was there before: a creation
/// that was carried out makes it, a removal that was carried out takes it
/// away.
pub open spec fn directory_present(
    path: Seq<char>,
    before: bool,
    actions: Seq<ActionView>,
    outcomes: Seq<OutcomeView>,
) -> bool
    decreases actions.len(),
{
    if actions.len() == 0 || outcomes.len() == 0 {
        before
    } else {
        let earlier = directory_present(path, before, actions.drop_last(), outcomes.drop_last());
        if outcomes.last() is Done && actions.last() == (ActionView::CreateStagingDir { path }) {
            true
        } else if outcomes.last() is Done && actions.last() == (ActionView::RemoveStagingDir {
            path,
        }) {
            false
        } else {
            earlier
        }
    }
}

/// The place of a step in the course of a run.
pub open spec fn rank(step: Step) -> nat {
    match step {
        Step::CheckTarget => 0,
        Step::CreateStagingDir => 1,
        Step::WriteRunnerScript => 2,
        Step::WriteTracer => 3,
        Step::CopyTarget => 4,
        Step::DownloadImage => 5,
        Step::CreateContainer => 6,
        Step::StartContainer => 7,
        Step::CollectTrace => 8,
        Step::DeleteContainer => 9,
        Step::RemoveStagingDir => 10,
        Step::Finished => 11,
    }
}

/// Every outcome takes a run that is not over one step further at least,
/// and none takes it past the teardown: what comes before the deletion of
/// the container leads to it or to a step before it, the deletion leads to
/// the removal of the staging directory, and the removal ends the run.
pub proof fn lemma_transition_moves_on(s: SandboxView, o: OutcomeView)
    ensures
        s.step != Step::Finished ==> rank(transition(s, o).step) > rank(s.step),
        rank(s.step) < 9 ==> rank(transition(s, o).step) <= 9,
        s.step == Step::DeleteContainer ==> transition(s, o).step == Step::RemoveStagingDir,
        s.step == Step::RemoveStagingDir ==> transition(s, o).step == Step::Finished,
        s.step == Step::Finished ==> transition(s, o) == s,
        transition(s, o).container_id == s.container_id,
        transition(s, o).target_program_path == s.target_program_path,
        transition(s, o).timeout_sec == s.timeout_sec,
{
}

proof fn lemma_actions_len(s: SandboxView, outcomes: Seq<OutcomeView>)
    ensures
        actions_of(s, outcomes).len() == outcomes.len(),
    decreases outcomes.len(),
{
    if outcomes.len() > 0 {
        lemma_actions_len(transition(s, outcomes.first()), outcomes.drop_first());
    }
}

/// Feeding one more outcome: the state moves on by one transition, and the
/// action that was pending is the one that was carried out for it.
pub proof fn lemma_one_more_outcome(s: SandboxView, outcomes: Seq<OutcomeView>, o: OutcomeView)
    ensures
        state_after(s, outcomes.push(o)) == transition(state_after(s, outcomes), o),
        actions_of(s, outcomes.push(o)) == actions_of(s, outcomes).push(
            pending_action(state_after(s, outcomes)),
        ),
    decreases outcomes.len(),
{
    let longer = outcomes.push(o);
    assert(longer.len() > 0);
    if outcomes.len() == 0 {
        assert(longer.first() == o);
        assert(longer.drop_first() =~= Seq::<OutcomeView>::empty());
        assert(state_after(transition(s, o), longer.drop_first()) == transition(s, o));
        assert(actions_of(transition(s, o), longer.drop_first()) =~= Seq::<ActionView>::empty());
        assert(actions_of(s, longer) =~= seq![pending_action(s)]);
    } else {
        let next = transition(s, outcomes.first());
        assert(longer.first() == outcomes.first());
        assert(longer.drop_first() =~= outcomes.drop_first().push(o));
        lemma_one_more_outcome(next, outcomes.drop_first(), o);
        assert(actions_of(s, outcomes.push(o)) =~= actions_of(s, outcomes).push(
            pending_action(state_after(s, outcomes)),
        ));
    }
}

/// Whatever the outcomes are, a run keeps its container id, and with it its
/// staging directory.
pub proof fn lemma_container_id_kept(s: SandboxView, outcomes: Seq<OutcomeView>)
    ensures
        state_after(s, outcomes).container_id == s.container_id,
    decreases outcomes.len(),
{
    if outcomes.len() > 0 {
        lemma_transition_moves_on(s, outcomes.first());
        lemma_container_id_kept(transition(s, outcomes.first()), outcomes.drop_first());
    }
}

/// A run is over after eleven outcomes at the latest, whatever they are.
pub proof fn lemma_run_ends(s: SandboxView, outcomes: Seq<OutcomeView>)
    requires
        rank(s.step) + outcomes.len() >= 11,
    ensures
        state_after(s, outcomes).step == Step::Finished,
    decreases outcomes.len(),
{
    if outcomes.len() > 0 {
        lemma_transition_moves_on(s, outcomes.first());
        lemma_run_ends(transition(s, outcomes.first()), outcomes.drop_first());
    }
}

/// On the way from `s` to the end of the run the container is deleted once
/// if its deletion is still ahead, and the staging directory is removed
/// once if its removal is still ahead. Neither happens a second time.
pub proof fn lemma_teardown_ahead(s: SandboxView, outcomes: Seq<OutcomeView>)
    requires
        state_after(s, outcomes).step == Step::Finished,
    ensures
        container_deletions(actions_of(s, outcomes)) == if rank(s.step) <= 9 {
            1nat
        } else {
            0nat
        },
        staging_removals(actions_of(s, outcomes)) == if rank(s.step) <= 10 {
            1nat
        } else {
            0nat
        },
    decreases outcomes.len(),
{
    if outcomes.len() > 0 {
        let shorter = outcomes.drop_last();
        let before = state_after(s, shorter);
        assert(shorter.push(outcomes.last()) =~= outcomes);
        lemma_one_more_outcome(s, shorter, outcomes.last());
        let actions = actions_of(s, outcomes);
        assert(actions.drop_last() =~= actions_of(s, shorter));
        assert(actions.last() == pending_action(before));
        lemma_transition_moves_on(before, outcomes.last());
        if before.step == Step::Finished {
            lemma_teardown_ahead(s, shorter);
        } else {
            assert(before.step == Step::RemoveStagingDir);
            lemma_before_removal(s, shorter);
        }
    }
}

/// On the way from `s` to the removal of the staging directory the
/// container is deleted once if its deletion is still ahead, and no
/// staging directory is removed.
proof fn lemma_before_removal(s: SandboxView, outcomes: Seq<OutcomeView>)
    requires
        state_after(s, outcomes).step == Step::RemoveStagingDir,
    ensures
        rank(s.step) <= 10,
        container_deletions(actions_of(s, outcomes)) == if rank(s.step) <= 9 {
            1nat
        } else {
            0nat
        },
        staging_removals(actions_of(s, outcomes)) == 0,
    decreases outcomes.len(),
{
    if outcomes.len() > 0 {
        let shorter = outcomes.drop_last();
        let before = state_after(s, shorter);
        assert(shorter.push(outcomes.last()) =~= outcomes);
        lemma_one_more_outcome(s, shorter, outcomes.last());
        let actions = actions_of(s, outcomes);
        assert(actions.drop_last() =~= actions_of(s, shorter));
        assert(actions.last() == pending_action(before));
        lemma_transition_moves_on(before, outcomes.last());
        assert(before.step == Step::DeleteContainer);
        lemma_before_deletion(s, shorter);
    }
}

/// On the way from `s` to the deletion of the container no container is
/// deleted and no staging directory removed.
proof fn lemma_before_deletion(s: SandboxView, outcomes: Seq<OutcomeView>)
    requires
        state_after(s, outcomes).step == Step::DeleteContainer,
    ensures
        rank(s.step) <= 9,
        container_deletions(actions_of(s, outcomes)) == 0,
        staging_removals(actions_of(s, outcomes)) == 0,
    decreases outcomes.len(),
{
    if outcomes.len() > 0 {
        let shorter = outcomes.drop_last();
        let before = state_after(s, shorter);
        assert(shorter.push(outcomes.last()) =~= outcomes);
        lemma_one_more_outcome(s, shorter, outcomes.last());
        let actions = actions_of(s, outcomes);
        assert(actions.drop_last() =~= actions_of(s, shorter));
        assert(actions.last() == pending_action(before));
        lemma_transition_moves_on(before, outcomes.last());
        lemma_before_teardown(s, shorter);
    }
}

/// On the way from `s` to a step before the teardown no container is
/// deleted and no staging directory removed.
proof fn lemma_before_teardown(s: SandboxView, outcomes: Seq<OutcomeView>)
    requires
        rank(state_after(s, outcomes).step) < 9,
    ensures
        rank(s.step) < 9,
        container_deletions(actions_of(s, outcomes)) == 0,
        staging_removals(actions_of(s, outcomes)) == 0,
    decreases outcomes.len(),
{
    if outcomes.len() > 0 {
        let shorter = outcomes.drop_last();
        let before = state_after(s, shorter);
        assert(shorter.push(outcomes.last()) =~= outcomes);
        lemma_one_more_outcome(s, shorter, outcomes.last());
        let actions = actions_of(s, outcomes);
        assert(actions.drop_last() =~= actions_of(s, shorter));
        assert(actions.last() == pending_action(before));
        lemma_transition_moves_on(before, outcomes.last());
        lemma_before_teardown(s, shorter);
    }
}

/// The teardown is owed on every path. Whatever the outcomes of a run are
/// (all well, a failure at any step, a deadline that was reached), once
/// the run is over the container has been deleted exactly once and the
/// staging directory removed exactly once; and eleven outcomes end every
/// run.
pub proof fn lemma_teardown_exactly_once(s: SandboxView, outcomes: Seq<OutcomeView>)
    requires
        s.step == Step::CheckTarget,
        state_after(s, outcomes).step == Step::Finished || outcomes.len() >= 11,
    ensures
        state_after(s, outcomes).step == Step::Finished,
        container_deletions(actions_of(s, outcomes)) == 1,
        staging_removals(actions_of(s, outcomes)) == 1,
{
    if outcomes.len() >= 11 {
        lemma_run_ends(s, outcomes);
    }
    lemma_teardown_ahead(s, outcomes);
}

/// No stale staging directory is left behind. If the teardown of a run
/// reports the staging directory removed, the directory is gone when the
/// run is over, whether or not it was there before the run and whatever
/// else happened in the run. A later run with the same container id, whose
/// staging directory has the same path, then finds none.
pub proof fn lemma_no_stale_staging_dir(s: SandboxView, outcomes: Seq<OutcomeView>, before: bool)
    requires
        rank(s.step) <= 10,
        state_after(s, outcomes).step == Step::Finished,
        state_after(s, outcomes).staging_removed,
    ensures
        !directory_present(
            staging_dir(s.container_id),
            before,
            actions_of(s, outcomes),
            outcomes,
        ),
    decreases outcomes.len(),
{
    lemma_actions_len(s, outcomes);
    if outcomes.len() > 0 {
        let shorter = outcomes.drop_last();
        let earlier = state_after(s, shorter);
        assert(shorter.push(outcomes.last()) =~= outcomes);
        lemma_one_more_outcome(s, shorter, outcomes.last());
        let actions = actions_of(s, outcomes);
        assert(actions.drop_last() =~= actions_of(s, shorter));
        assert(actions.last() == pending_action(earlier));
        lemma_transition_moves_on(earlier, outcomes.last());
        lemma_container_id_kept(s, shorter);
        if earlier.step == Step::Finished {
            lemma_no_stale_staging_dir(s, shorter, before);
        } else {
            assert(earlier.step == Step::RemoveStagingDir);
            assert(outcomes.last() is Done);
        }
    }
}

/// A failure of the teardown never takes the place of what the run
/// yielded: from the start of the teardown on, the first failure, the way
/// the run phase ended and the collected events stay as they are.
pub proof fn lemma_teardown_keeps_result(s: SandboxView, outcomes: Seq<OutcomeView>)
    requires
        rank(s.step) >= 9,
    ensures
        state_after(s, outcomes).error == s.error,
        state_after(s, outcomes).exit == s.exit,
        state_after(s, outcomes).events == s.events,
    decreases outcomes.len(),
{
    if outcomes.len() > 0 {
        lemma_transition_moves_on(s, outcomes.first());
        lemma_teardown_keeps_result(transition(s, outcomes.first()), outcomes.drop_first());
    }
}

/// Whether a state without a failure that is past the run phase knows how
/// the run phase ended.
pub open spec fn knows_exit(s: SandboxView) -> bool {
    s.error is None && rank(s.step) >= 8 ==> s.exit is Some
}

proof fn lemma_knows_exit_kept(s: SandboxView, outcomes: Seq<OutcomeView>)
    requires
        knows_exit(s),
    ensures
        knows_exit(state_after(s, outcomes)),
    decreases outcomes.len(),
{
    if outcomes.len() > 0 {
        lemma_knows_exit_kept(transition(s, outcomes.first()), outcomes.drop_first());
    }
}

/// A run that is over has yielded something: a trace or a failure.
pub proof fn lemma_finished_run_has_result(s: SandboxView, outcomes: Seq<OutcomeView>)
    requires
        s.step == Step::CheckTarget,
        state_after(s, outcomes).step == Step::Finished,
    ensures
        result_of(state_after(s, outcomes)) is Some,
{
    lemma_knows_exit_kept(s, outcomes);
}

/// One isolated execution of a target program.
pub struct Sandbox {
    container_id: String,
    target_program_path: String,
    timeout_sec: Option<u64>,
    step: Step,
    error: Option<SandboxError>,
    exit: Option<ExitOutcome>,
    syscall_events: Vec<SyscallEvent>,
    container_deleted: bool,
    staging_removed: bool,
}

impl View for Sandbox {
    type V = SandboxView;

    closed spec fn view(&self) -> SandboxView {
        SandboxView {
            container_id: self.container_id@,
            target_program_path: self.target_program_path@,
            timeout_sec: self.timeout_sec,
            step: self.step,
            error: match self.error {
                Some(e) => Some(e@),
                None => None,
            },
            exit: self.exit,
            events: self.syscall_events@,
            container_deleted: self.container_deleted,
            staging_removed: self.staging_removed,
        }
    }
}

fn no_output_error() -> (e: SandboxError)
    ensures
        e@ == SandboxErrorView::RuntimeClientError(
            RuntimeClientErrorView { stdout: Seq::empty(), stderr: Seq::empty() },
        ),
{
    SandboxError::RuntimeClientError(RuntimeClientError { stdout: Vec::new(), stderr: Vec::new() })
}

/// The failure that the outcome of a request to the runtime stands for.
fn request_failure(outcome: Outcome) -> (failure: Option<SandboxError>)
    ensures
        match failure {
            Some(e) => command_failure(outcome@) == Some(e@),
            None => command_failure(outcome@) is None,
        },
{
    match outcome {
        Outcome::Command(output) => match output_to_result(output) {
            Ok(_) => None,
            Err(e) => Some(SandboxError::RuntimeClientError(e)),
        },
        _ => Some(no_output_error()),
    }
}

impl Sandbox {
    /// A sandbox for one run of the program at `target_program_path` in the
    /// container `container_id`. With `timeout_sec`, the run phase is cut
    /// short after that many seconds.
    pub fn new(
        container_id: String,
        target_program_path: String,
        timeout_sec: Option<u64>,
    ) -> (sandbox: Sandbox)
        ensures
            sandbox@ == fresh(container_id@, target_program_path@, timeout_sec),
    {
        Sandbox {
            container_id,
            target_program_path,
            timeout_sec,
            step: Step::CheckTarget,
            error: None,
            exit: None,
            syscall_events: Vec::new(),
            container_deleted: false,
            staging_removed: false,
        }
    }

    /// The path of the staging directory. It depends on the container id
    /// alone.
    pub fn mount_dir_path(&self) -> (path: String)
        ensures
            path@ == staging_dir(self@.container_id),
    {
        let mut path = String::from_str(STAGING_PREFIX);
        path.append(self.container_id.as_str());
        path
    }

    fn staged(&self, name: &str) -> (path: String)
        ensures
            path@ == staged_path(self@.container_id, name@),
    {
        let mut path = self.mount_dir_path();
        path.append("/");
        path.append(name);
        path
    }

    /// How far the run has come.
    pub fn phase(&self) -> (phase: Phase)
        ensures
            phase == phase_of(self@),
    {
        match self.step {
            Step::CheckTarget => Phase::Created,
            Step::CreateStagingDir => Phase::Created,
            Step::WriteRunnerScript => Phase::Created,
            Step::WriteTracer => Phase::Created,
            Step::CopyTarget => Phase::Created,
            Step::DownloadImage => Phase::StagingPrepared,
            Step::CreateContainer => Phase::ImageReady,
            Step::StartContainer => Phase::ContainerCreated,
            Step::CollectTrace => Phase::Running,
            Step::DeleteContainer | Step::RemoveStagingDir => if self.error.is_some() {
                Phase::Aborted
            } else {
                Phase::Collected
            },
            Step::Finished => Phase::TornDown,
        }
    }

    /// The action whose outcome the sandbox waits for.
    pub fn pending(&self) -> (action: Action)
        ensures
            action@ == pending_action(self@),
    {
        match self.step {
            Step::CheckTarget => Action::CheckTarget { path: self.target_program_path.clone() },
            Step::CreateStagingDir => Action::CreateStagingDir { path: self.mount_dir_path() },
            Step::WriteRunnerScript => Action::WriteRunnerScript {
                path: self.staged(RUNNER_SCRIPT_NAME),
            },
            Step::WriteTracer => Action::WriteTracer { path: self.staged(TRACER_NAME) },
            Step::CopyTarget => Action::CopyTarget {
                from: self.target_program_path.clone(),
                to: self.staged(TARGET_NAME),
            },
            Step::DownloadImage => Action::DownloadImage(download_image(IMAGE_NAME, IMAGE_TAG)),
            Step::CreateContainer => Action::CreateContainer(
                create_container(self.container_id.as_str(), BUNDLE_PATH),
            ),
            Step::StartContainer => {
                let mut words: Vec<String> = Vec::new();
                words.push(String::from_str(RUNNER_SHELL));
                words.push(String::from_str(RUNNER_SCRIPT_IN_CONTAINER));
                assert(crate::runtime::texts(words@) =~= seq![
                    RUNNER_SHELL@,
                    RUNNER_SCRIPT_IN_CONTAINER@,
                ]);
                let source = self.mount_dir_path();
                Action::StartContainer(
                    start_container(
                        self.container_id.as_str(),
                        source.as_str(),
                        MOUNT_DEST,
                        Some(&words),
                        self.timeout_sec,
                    ),
                )
            },
            Step::CollectTrace => Action::CollectTrace { path: self.staged(TRACE_NAME) },
            Step::DeleteContainer => Action::DeleteContainer(
                delete_container(self.container_id.as_str()),
            ),
            Step::RemoveStagingDir => Action::RemoveStagingDir { path: self.mount_dir_path() },
            Step::Finished => Action::Finish,
        }
    }

    fn abort(&mut self, error: SandboxError)
        ensures
            final(self)@ == aborted(old(self)@, error@),
    {
        self.error = Some(error);
        self.step = Step::DeleteContainer;
    }

    fn staging_step(&mut self, outcome: Outcome, next: Step)
        ensures
            final(self)@ == after_staging(old(self)@, outcome@, next),
    {
        match outcome {
            Outcome::Done => {
                self.step = next;
            },
            _ => {
                self.abort(SandboxError::StagingError);
            },
        }
    }

    fn request_step(&mut self, outcome: Outcome, next: Step)
        ensures
            final(self)@ == after_request(old(self)@, outcome@, next),
    {
        match request_failure(outcome) {
            None => {
                self.step = next;
            },
            Some(error) => {
                self.abort(error);
            },
        }
    }

    fn start_step(&mut self, outcome: Outcome)
        ensures
            final(self)@ == after_start(old(self)@, outcome@),
    {
        match outcome {
            Outcome::Exited { exit_code } => {
                self.exit = Some(exit_outcome(false, exit_code));
                self.step = Step::CollectTrace;
            },
            Outcome::TimedOut => {
                self.exit = Some(exit_outcome(true, None));
                self.step = Step::CollectTrace;
            },
            _ => {
                self.abort(no_output_error());
            },
        }
    }

    fn collect_step(&mut self, outcome: Outcome)
        ensures
            final(self)@ == after_collect(old(self)@, outcome@),
    {
        match outcome {
            Outcome::Trace(bytes) => match decode_trace(bytes.as_slice()) {
                Ok(events) => {
                    self.syscall_events = events;
                    self.step = Step::DeleteContainer;
                },
                Err(e) => {
                    self.abort(SandboxError::TraceDecodeError(e));
                },
            },
            _ => {
                let timed_out = match self.exit {
                    Some(ExitOutcome::Timeout) => true,
                    _ => false,
                };
                if timed_out {
                    self.step = Step::DeleteContainer;
                } else {
                    self.abort(SandboxError::TraceCollectionError);
                }
            },
        }
    }

    /// Takes the outcome of the pending action, moves on, and hands out the
    /// action that is pending then.
    pub fn run(&mut self, outcome: Outcome) -> (action: Action)
        ensures
            final(self)@ == transition(old(self)@, outcome@),
            action@ == pending_action(final(self)@),
    {
        match self.step {
            Step::CheckTarget => {
                let valid = match outcome {
                    Outcome::Target { exists, is_file } => exists && is_file,
                    _ => false,
                };
                if valid {
                    self.step = Step::CreateStagingDir;
                } else {
                    self.abort(SandboxError::InvalidTarget);
                }
            },
            Step::CreateStagingDir => self.staging_step(outcome, Step::WriteRunnerScript),
            Step::WriteRunnerScript => self.staging_step(outcome, Step::WriteTracer),
            Step::WriteTracer => self.staging_step(outcome, Step::CopyTarget),
            Step::CopyTarget => self.staging_step(outcome, Step::DownloadImage),
            Step::DownloadImage => self.request_step(outcome, Step::CreateContainer),
            Step::CreateContainer => self.request_step(outcome, Step::StartContainer),
            Step::StartContainer => self.start_step(outcome),
            Step::CollectTrace => self.collect_step(outcome),
            Step::DeleteContainer => {
                self.container_deleted = request_failure(outcome).is_none();
                self.step = Step::RemoveStagingDir;
            },
            Step::RemoveStagingDir => {
                self.staging_removed = match outcome {
                    Outcome::Done => true,
                    _ => false,
                };
                self.step = Step::Finished;
            },
            Step::Finished => {},
        }
        self.pending()
    }

    /// Whether the teardown deleted the container. False before the
    /// teardown.
    pub fn container_deleted(&self) -> (deleted: bool)
        ensures
            deleted == self@.container_deleted,
    {
        self.container_deleted
    }

    /// Whether the teardown removed the staging directory. False before the
    /// teardown.
    pub fn staging_removed(&self) -> (removed: bool)
        ensures
            removed == self@.staging_removed,
    {
        self.staging_removed
    }

    /// What the run has yielded: the trace and how the run phase ended, or
    /// the first failure. There is nothing before the run is over.
    pub fn into_result(self) -> (res: Option<Result<SandboxResult, SandboxError>>)
        ensures
            match res {
                Some(Ok(result)) => result_of(self@) == Some(
                    Ok::<SandboxResultView, SandboxErrorView>(result@),
                ),
                Some(Err(error)) => result_of(self@) == Some(
                    Err::<SandboxResultView, SandboxErrorView>(error@),
                ),
                None => result_of(self@) is None,
            },
    {
        match self.step {
            Step::Finished => match self.error {
                Some(error) => Some(Err(error)),
                None => match self.exit {
                    Some(exit) => Some(
                        Ok(SandboxResult { syscall_events: self.syscall_events, exit }),
                    ),
                    None => None,
                },
            },
            _ => None,
        }
    }
}

} // verus!
