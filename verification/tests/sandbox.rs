use yaminabe::runtime::CommandOutput;
use yaminabe::sandbox::{Action, ExitOutcome, Outcome, Phase, Sandbox, SandboxError};
use yaminabe::trace::TraceDecodeError;

fn fresh(timeout: Option<u64>) -> Sandbox {
    Sandbox::new("abc-123".to_string(), "/bin/true".to_string(), timeout)
}

fn ok_command() -> Outcome {
    Outcome::Command(CommandOutput { exit_code: Some(0), stdout: b"ok".to_vec(), stderr: Vec::new() })
}

fn failed_command() -> Outcome {
    Outcome::Command(CommandOutput {
        exit_code: Some(2),
        stdout: b"out".to_vec(),
        stderr: b"boom".to_vec(),
    })
}

fn record(timestamp: u64, nr: u32) -> Vec<u8> {
    let mut bytes = Vec::new();
    bytes.extend_from_slice(&timestamp.to_le_bytes());
    bytes.extend_from_slice(&nr.to_le_bytes());
    bytes.extend_from_slice(&7u32.to_le_bytes());
    bytes.extend_from_slice(&1u32.to_le_bytes());
    let mut comm = [0u8; 16];
    comm[..6].copy_from_slice(b"target");
    bytes.extend_from_slice(&comm);
    bytes
}

fn label(action: &Action) -> &'static str {
    match action {
        Action::CheckTarget { .. } => "check",
        Action::CreateStagingDir { .. } => "mkdir",
        Action::WriteRunnerScript { .. } => "runner",
        Action::WriteTracer { .. } => "tracer",
        Action::CopyTarget { .. } => "copy",
        Action::DownloadImage(_) => "download",
        Action::CreateContainer(_) => "create",
        Action::StartContainer(_) => "start",
        Action::CollectTrace { .. } => "collect",
        Action::DeleteContainer(_) => "delete",
        Action::RemoveStagingDir { .. } => "remove",
        Action::Finish => "finish",
    }
}

/// Drives a sandbox with `outcomes` and returns the labels of the actions
/// that were carried out, one per outcome.
fn drive(sandbox: &mut Sandbox, outcomes: Vec<Outcome>) -> Vec<&'static str> {
    let mut carried_out = Vec::new();
    let mut action = sandbox.pending();
    for outcome in outcomes {
        carried_out.push(label(&action));
        action = sandbox.run(outcome);
    }
    carried_out
}

fn good_outcomes(trace: Vec<u8>) -> Vec<Outcome> {
    vec![
        Outcome::Target { exists: true, is_file: true },
        Outcome::Done,
        Outcome::Done,
        Outcome::Done,
        Outcome::Done,
        ok_command(),
        ok_command(),
        Outcome::Exited { exit_code: Some(0) },
        Outcome::Trace(trace),
        ok_command(),
        Outcome::Done,
    ]
}

fn count(labels: &[&str], what: &str) -> usize {
    labels.iter().filter(|l| **l == what).count()
}

#[test]
fn successful_run_walks_every_step_in_order() {
    let mut sb = fresh(None);
    assert_eq!(sb.phase(), Phase::Created);
    let mut trace = record(10, 1);
    trace.extend(record(20, 2));
    let labels = drive(&mut sb, good_outcomes(trace));
    assert_eq!(
        labels,
        vec![
            "check", "mkdir", "runner", "tracer", "copy", "download", "create", "start", "collect",
            "delete", "remove"
        ]
    );
    assert_eq!(sb.phase(), Phase::TornDown);
    assert!(matches!(sb.pending(), Action::Finish));
    assert!(sb.container_deleted());
    assert!(sb.staging_removed());
    let result = sb.into_result().expect("the run is over").expect("the run succeeded");
    assert_eq!(result.exit, ExitOutcome::Success);
    assert_eq!(result.syscall_events.len(), 2);
    assert_eq!(result.syscall_events[0].timestamp, 10);
    assert_eq!(result.syscall_events[0].nr, 1);
    assert_eq!(result.syscall_events[1].timestamp, 20);
    assert_eq!(result.syscall_events[1].nr, 2);
    assert_eq!(result.syscall_events[1].pid, 7);
    assert_eq!(result.syscall_events[1].ppid, 1);
}

#[test]
fn phases_follow_the_run() {
    let mut sb = fresh(None);
    let mut seen = vec![sb.phase()];
    for outcome in good_outcomes(Vec::new()) {
        sb.run(outcome);
        seen.push(sb.phase());
    }
    assert_eq!(
        seen,
        vec![
            Phase::Created,
            Phase::Created,
            Phase::Created,
            Phase::Created,
            Phase::Created,
            Phase::StagingPrepared,
            Phase::ImageReady,
            Phase::ContainerCreated,
            Phase::Running,
            Phase::Collected,
            Phase::Collected,
            Phase::TornDown,
        ]
    );
}

#[test]
fn actions_carry_paths_and_commands() {
    let mut sb = fresh(Some(30));
    assert_eq!(sb.mount_dir_path(), "mount-abc-123");
    match sb.pending() {
        Action::CheckTarget { path } => assert_eq!(path, "/bin/true"),
        other => panic!("unexpected: {:?}", other),
    }
    match sb.run(Outcome::Target { exists: true, is_file: true }) {
        Action::CreateStagingDir { path } => assert_eq!(path, "mount-abc-123"),
        other => panic!("unexpected: {:?}", other),
    }
    match sb.run(Outcome::Done) {
        Action::WriteRunnerScript { path } => assert_eq!(path, "mount-abc-123/setup.sh"),
        other => panic!("unexpected: {:?}", other),
    }
    match sb.run(Outcome::Done) {
        Action::WriteTracer { path } => assert_eq!(path, "mount-abc-123/nimono"),
        other => panic!("unexpected: {:?}", other),
    }
    match sb.run(Outcome::Done) {
        Action::CopyTarget { from, to } => {
            assert_eq!(from, "/bin/true");
            assert_eq!(to, "mount-abc-123/target");
        }
        other => panic!("unexpected: {:?}", other),
    }
    match sb.run(Outcome::Done) {
        Action::DownloadImage(cmd) => {
            assert_eq!(cmd.program, "sudo");
            assert_eq!(cmd.args, vec!["./build/dashi", "download", "ubuntu", "latest"]);
            assert_eq!(cmd.timeout_sec, None);
        }
        other => panic!("unexpected: {:?}", other),
    }
    match sb.run(ok_command()) {
        Action::CreateContainer(cmd) => {
            assert_eq!(cmd.program, "./build/dashi");
            assert_eq!(cmd.args, vec!["create", "abc-123", "./bundles/ubuntu-latest"]);
            assert_eq!(cmd.timeout_sec, None);
        }
        other => panic!("unexpected: {:?}", other),
    }
    match sb.run(ok_command()) {
        Action::StartContainer(cmd) => {
            assert_eq!(cmd.program, "sudo");
            assert_eq!(
                cmd.args,
                vec![
                    "./build/dashi",
                    "start",
                    "-mount-source=mount-abc-123",
                    "-mount-dest=/mnt",
                    "abc-123",
                    "sh",
                    "/mnt/setup.sh"
                ]
            );
            assert_eq!(cmd.timeout_sec, Some(30));
        }
        other => panic!("unexpected: {:?}", other),
    }
    match sb.run(Outcome::Exited { exit_code: Some(0) }) {
        Action::CollectTrace { path } => assert_eq!(path, "mount-abc-123/trace"),
        other => panic!("unexpected: {:?}", other),
    }
    match sb.run(Outcome::Trace(Vec::new())) {
        Action::DeleteContainer(cmd) => {
            assert_eq!(cmd.program, "./build/dashi");
            assert_eq!(cmd.args, vec!["delete", "abc-123"]);
        }
        other => panic!("unexpected: {:?}", other),
    }
    match sb.run(ok_command()) {
        Action::RemoveStagingDir { path } => assert_eq!(path, "mount-abc-123"),
        other => panic!("unexpected: {:?}", other),
    }
    assert!(matches!(sb.run(Outcome::Done), Action::Finish));
}

#[test]
fn missing_target_is_invalid_and_creates_no_container() {
    let mut sb = fresh(None);
    let labels = drive(
        &mut sb,
        vec![Outcome::Target { exists: false, is_file: false }, failed_command(), Outcome::Failed],
    );
    assert_eq!(labels, vec!["check", "delete", "remove"]);
    assert_eq!(sb.phase(), Phase::TornDown);
    assert!(matches!(sb.into_result(), Some(Err(SandboxError::InvalidTarget))));
}

#[test]
fn directory_as_target_is_invalid() {
    let mut sb = fresh(None);
    let action = sb.run(Outcome::Target { exists: true, is_file: false });
    assert!(matches!(action, Action::DeleteContainer(_)));
    assert_eq!(sb.phase(), Phase::Aborted);
    sb.run(ok_command());
    sb.run(Outcome::Done);
    assert!(matches!(sb.into_result(), Some(Err(SandboxError::InvalidTarget))));
}

#[test]
fn staging_failure_at_each_step_is_torn_down_once() {
    for failing in 1..5 {
        let mut outcomes = Vec::new();
        outcomes.push(Outcome::Target { exists: true, is_file: true });
        for _ in 1..failing {
            outcomes.push(Outcome::Done);
        }
        outcomes.push(Outcome::Failed);
        outcomes.push(ok_command());
        outcomes.push(Outcome::Done);
        let mut sb = fresh(None);
        let labels = drive(&mut sb, outcomes);
        assert_eq!(labels.len(), failing + 3);
        assert_eq!(count(&labels, "delete"), 1);
        assert_eq!(count(&labels, "remove"), 1);
        assert_eq!(count(&labels, "download"), 0);
        assert_eq!(labels[labels.len() - 2], "delete");
        assert_eq!(labels[labels.len() - 1], "remove");
        assert!(matches!(sb.into_result(), Some(Err(SandboxError::StagingError))));
    }
}

#[test]
fn runtime_failure_carries_the_output() {
    let mut sb = fresh(None);
    let mut outcomes = good_outcomes(Vec::new());
    outcomes.truncate(6);
    outcomes.push(failed_command());
    outcomes.push(ok_command());
    outcomes.push(Outcome::Done);
    let labels = drive(&mut sb, outcomes);
    assert_eq!(
        labels,
        vec!["check", "mkdir", "runner", "tracer", "copy", "download", "create", "delete", "remove"]
    );
    match sb.into_result() {
        Some(Err(SandboxError::RuntimeClientError(e))) => {
            assert_eq!(e.stdout, b"out");
            assert_eq!(e.stderr, b"boom");
        }
        other => panic!("unexpected: {:?}", other),
    }
}

#[test]
fn runtime_output_on_stderr_is_a_failure() {
    let mut sb = fresh(None);
    let mut outcomes = good_outcomes(Vec::new());
    outcomes.truncate(5);
    outcomes.push(Outcome::Command(CommandOutput {
        exit_code: Some(0),
        stdout: Vec::new(),
        stderr: b"warning".to_vec(),
    }));
    drive(&mut sb, outcomes);
    assert_eq!(sb.phase(), Phase::Aborted);
    assert!(matches!(sb.pending(), Action::DeleteContainer(_)));
}

#[test]
fn start_that_cannot_run_is_a_runtime_failure() {
    let mut sb = fresh(None);
    let mut outcomes = good_outcomes(Vec::new());
    outcomes.truncate(7);
    outcomes.push(Outcome::Failed);
    outcomes.push(ok_command());
    outcomes.push(Outcome::Done);
    let labels = drive(&mut sb, outcomes);
    assert_eq!(count(&labels, "collect"), 0);
    assert_eq!(count(&labels, "delete"), 1);
    assert_eq!(count(&labels, "remove"), 1);
    match sb.into_result() {
        Some(Err(SandboxError::RuntimeClientError(e))) => {
            assert!(e.stdout.is_empty());
            assert!(e.stderr.is_empty());
        }
        other => panic!("unexpected: {:?}", other),
    }
}

#[test]
fn non_zero_exit_is_reported_and_trace_still_collected() {
    let mut sb = fresh(None);
    let mut outcomes = good_outcomes(record(1, 1));
    outcomes[7] = Outcome::Exited { exit_code: Some(3) };
    let labels = drive(&mut sb, outcomes);
    assert_eq!(count(&labels, "collect"), 1);
    let result = sb.into_result().expect("over").expect("a trace");
    assert_eq!(result.exit, ExitOutcome::Failure);
    assert_eq!(result.syscall_events.len(), 1);
}

#[test]
fn exit_by_signal_counts_as_failure() {
    let mut sb = fresh(None);
    let mut outcomes = good_outcomes(Vec::new());
    outcomes[7] = Outcome::Exited { exit_code: None };
    drive(&mut sb, outcomes);
    let result = sb.into_result().expect("over").expect("a trace");
    assert_eq!(result.exit, ExitOutcome::Failure);
}

#[test]
fn timeout_is_no_failure_and_partial_trace_is_parsed() {
    let mut sb = fresh(Some(1));
    let mut outcomes = good_outcomes(record(5, 9));
    outcomes[7] = Outcome::TimedOut;
    let labels = drive(&mut sb, outcomes);
    assert_eq!(count(&labels, "delete"), 1);
    assert_eq!(count(&labels, "remove"), 1);
    let result = sb.into_result().expect("over").expect("a trace");
    assert_eq!(result.exit, ExitOutcome::Timeout);
    assert_eq!(result.syscall_events.len(), 1);
    assert_eq!(result.syscall_events[0].nr, 9);
}

#[test]
fn timeout_without_trace_gives_an_empty_trace() {
    let mut sb = fresh(Some(1));
    let mut outcomes = good_outcomes(Vec::new());
    outcomes[7] = Outcome::TimedOut;
    outcomes[8] = Outcome::Failed;
    drive(&mut sb, outcomes);
    let result = sb.into_result().expect("over").expect("no failure");
    assert_eq!(result.exit, ExitOutcome::Timeout);
    assert!(result.syscall_events.is_empty());
}

#[test]
fn missing_trace_after_a_full_run_is_fatal() {
    let mut sb = fresh(None);
    let mut outcomes = good_outcomes(Vec::new());
    outcomes[8] = Outcome::Failed;
    let labels = drive(&mut sb, outcomes);
    assert_eq!(labels[9], "delete");
    assert_eq!(labels[10], "remove");
    assert!(matches!(sb.into_result(), Some(Err(SandboxError::TraceCollectionError))));
}

#[test]
fn truncated_trace_is_a_decode_failure() {
    let mut sb = fresh(None);
    let mut trace = record(1, 1);
    trace.extend_from_slice(&[1, 2, 3]);
    let labels = drive(&mut sb, good_outcomes(trace));
    assert_eq!(count(&labels, "delete"), 1);
    assert_eq!(count(&labels, "remove"), 1);
    match sb.into_result() {
        Some(Err(SandboxError::TraceDecodeError(e))) => {
            assert_eq!(e, TraceDecodeError::TruncatedRecord { index: 1, available: 3 });
        }
        other => panic!("unexpected: {:?}", other),
    }
}

#[test]
fn teardown_failures_do_not_replace_the_result() {
    let mut sb = fresh(None);
    let mut outcomes = good_outcomes(record(1, 1));
    outcomes[9] = failed_command();
    outcomes[10] = Outcome::Failed;
    drive(&mut sb, outcomes);
    assert!(!sb.container_deleted());
    assert!(!sb.staging_removed());
    let result = sb.into_result().expect("over").expect("the trace stands");
    assert_eq!(result.syscall_events.len(), 1);

    let mut sb = fresh(None);
    drive(
        &mut sb,
        vec![Outcome::Target { exists: false, is_file: false }, failed_command(), Outcome::Failed],
    );
    assert!(matches!(sb.into_result(), Some(Err(SandboxError::InvalidTarget))));
}

#[test]
fn nothing_changes_after_the_run_is_over() {
    let mut sb = fresh(None);
    drive(&mut sb, good_outcomes(record(1, 1)));
    for outcome in good_outcomes(Vec::new()) {
        assert!(matches!(sb.run(outcome), Action::Finish));
        assert_eq!(sb.phase(), Phase::TornDown);
    }
    assert!(sb.container_deleted());
    let result = sb.into_result().expect("over").expect("a trace");
    assert_eq!(result.syscall_events.len(), 1);
}

#[test]
fn there_is_no_result_before_the_run_is_over() {
    assert!(fresh(None).into_result().is_none());
    let mut sb = fresh(None);
    let mut outcomes = good_outcomes(Vec::new());
    outcomes.truncate(10);
    drive(&mut sb, outcomes);
    assert!(sb.into_result().is_none());
}

#[test]
fn every_outcome_sequence_tears_down_exactly_once() {
    let kinds: Vec<fn() -> Outcome> = vec![
        || Outcome::Target { exists: true, is_file: true },
        || Outcome::Done,
        || Outcome::Failed,
        || Outcome::Command(CommandOutput {
            exit_code: Some(0),
            stdout: Vec::new(),
            stderr: Vec::new(),
        }),
        || Outcome::Exited { exit_code: Some(1) },
        || Outcome::TimedOut,
        || Outcome::Trace(Vec::new()),
    ];
    let mut seed: u64 = 12345;
    for _ in 0..500 {
        let mut sb = fresh(None);
        let mut outcomes = Vec::new();
        for _ in 0..11 {
            seed = seed.wrapping_mul(6364136223846793005).wrapping_add(1442695040888963407);
            outcomes.push(kinds[((seed >> 33) % 7) as usize]());
        }
        let labels = drive(&mut sb, outcomes);
        assert_eq!(sb.phase(), Phase::TornDown);
        assert_eq!(count(&labels, "delete"), 1);
        assert_eq!(count(&labels, "remove"), 1);
        let delete_at = labels.iter().position(|l| *l == "delete").unwrap();
        let remove_at = labels.iter().position(|l| *l == "remove").unwrap();
        assert_eq!(remove_at, delete_at + 1);
        assert!(sb.into_result().is_some());
    }
}

#[test]
fn rerun_with_the_same_id_uses_the_same_staging_directory() {
    let mut first = fresh(None);
    drive(&mut first, good_outcomes(Vec::new()));
    assert!(first.staging_removed());
    let second = fresh(None);
    assert_eq!(first.mount_dir_path(), second.mount_dir_path());
    let other = Sandbox::new("other".to_string(), "/bin/true".to_string(), None);
    assert_ne!(first.mount_dir_path(), other.mount_dir_path());
}

#[test]
fn unexpected_outcome_for_target_check_is_invalid_target() {
    let mut sb = fresh(None);
    sb.run(Outcome::Done);
    assert_eq!(sb.phase(), Phase::Aborted);
    sb.run(Outcome::Done);
    sb.run(Outcome::Done);
    assert!(!sb.container_deleted());
    assert!(sb.staging_removed());
    assert!(matches!(sb.into_result(), Some(Err(SandboxError::InvalidTarget))));
}
