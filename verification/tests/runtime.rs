use yaminabe::runtime::{
    create_container, delete_container, download_image, exit_outcome, output_to_result,
    runtime_cmd, start_container, CommandOutput,
};
use yaminabe::sandbox::ExitOutcome;

fn words(list: &[&str]) -> Vec<String> {
    list.iter().map(|w| w.to_string()).collect()
}

#[test]
fn runtime_cmd_plain() {
    let cmd = runtime_cmd(words(&["create", "id", "bundle"]), false);
    assert_eq!(cmd.program, "./build/dashi");
    assert_eq!(cmd.args, vec!["create", "id", "bundle"]);
    assert_eq!(cmd.timeout_sec, None);
}

#[test]
fn runtime_cmd_as_root_goes_through_sudo() {
    let cmd = runtime_cmd(words(&["start", "id"]), true);
    assert_eq!(cmd.program, "sudo");
    assert_eq!(cmd.args, vec!["./build/dashi", "start", "id"]);
    assert_eq!(cmd.timeout_sec, None);
}

#[test]
fn runtime_cmd_without_arguments() {
    let cmd = runtime_cmd(Vec::new(), false);
    assert_eq!(cmd.program, "./build/dashi");
    assert!(cmd.args.is_empty());
    let cmd = runtime_cmd(Vec::new(), true);
    assert_eq!(cmd.program, "sudo");
    assert_eq!(cmd.args, vec!["./build/dashi"]);
}

#[test]
fn create_container_command() {
    let cmd = create_container("c1", "./bundles/ubuntu-latest");
    assert_eq!(cmd.program, "./build/dashi");
    assert_eq!(cmd.args, vec!["create", "c1", "./bundles/ubuntu-latest"]);
}

#[test]
fn delete_container_command() {
    let cmd = delete_container("c1");
    assert_eq!(cmd.program, "./build/dashi");
    assert_eq!(cmd.args, vec!["delete", "c1"]);
}

#[test]
fn download_image_command() {
    let cmd = download_image("ubuntu", "latest");
    assert_eq!(cmd.program, "sudo");
    assert_eq!(cmd.args, vec!["./build/dashi", "download", "ubuntu", "latest"]);
}

#[test]
fn start_container_with_command_and_deadline() {
    let command = words(&["sh", "/mnt/setup.sh"]);
    let cmd = start_container("c1", "mount-c1", "/mnt", Some(&command), Some(5));
    assert_eq!(cmd.program, "sudo");
    assert_eq!(
        cmd.args,
        vec![
            "./build/dashi",
            "start",
            "-mount-source=mount-c1",
            "-mount-dest=/mnt",
            "c1",
            "sh",
            "/mnt/setup.sh"
        ]
    );
    assert_eq!(cmd.timeout_sec, Some(5));
}

#[test]
fn start_container_without_command() {
    let cmd = start_container("c1", "src", "dst", None, None);
    assert_eq!(
        cmd.args,
        vec!["./build/dashi", "start", "-mount-source=src", "-mount-dest=dst", "c1"]
    );
    assert_eq!(cmd.timeout_sec, None);
    let empty: Vec<String> = Vec::new();
    let cmd = start_container("c1", "src", "dst", Some(&empty), None);
    assert_eq!(cmd.args.len(), 5);
}

#[test]
fn output_of_a_clean_command_is_ok() {
    let out = CommandOutput { exit_code: Some(0), stdout: b"fine".to_vec(), stderr: Vec::new() };
    assert!(output_to_result(out).is_ok());
}

#[test]
fn output_with_non_zero_exit_is_an_error() {
    let out = CommandOutput { exit_code: Some(1), stdout: b"o".to_vec(), stderr: b"e".to_vec() };
    let err = output_to_result(out).expect_err("the command failed");
    assert_eq!(err.stdout, b"o");
    assert_eq!(err.stderr, b"e");
    let out = CommandOutput { exit_code: Some(-1), stdout: Vec::new(), stderr: Vec::new() };
    assert!(output_to_result(out).is_err());
}

#[test]
fn output_with_error_text_is_an_error() {
    let out = CommandOutput { exit_code: Some(0), stdout: b"o".to_vec(), stderr: b"w".to_vec() };
    let err = output_to_result(out).expect_err("the command wrote to stderr");
    assert_eq!(err.stdout, b"o");
    assert_eq!(err.stderr, b"w");
}

#[test]
fn output_of_a_killed_command_is_an_error() {
    let out = CommandOutput { exit_code: None, stdout: Vec::new(), stderr: Vec::new() };
    assert!(output_to_result(out).is_err());
}

#[test]
fn exit_outcome_of_a_run() {
    assert_eq!(exit_outcome(false, Some(0)), ExitOutcome::Success);
    assert_eq!(exit_outcome(false, Some(1)), ExitOutcome::Failure);
    assert_eq!(exit_outcome(false, None), ExitOutcome::Failure);
    assert_eq!(exit_outcome(true, None), ExitOutcome::Timeout);
    assert_eq!(exit_outcome(true, Some(0)), ExitOutcome::Timeout);
}
