//! The container runtime client: which command line stands for each request
//! to the runtime, and how the outcome of a command is read.
//!
//! The runtime is an executable of its own. This module decides what is
//! handed to it and what its answer means; starting the process is left to
//! the caller.

use vstd::prelude::*;
use vstd::string::StringExecFns;
use crate::sandbox::ExitOutcome;

verus! {

/// Path of the runtime executable.
pub const RUNTIME_NAME: &'static str = "./build/dashi";

/// The program through which a command is run with elevated rights.
pub const ELEVATE_WITH: &'static str = "sudo";

/// A command line, with the deadline of its run if it has one.
#[derive(Debug)]
pub struct RuntimeCommand {
    pub program: String,
    pub args: Vec<String>,
    /// Seconds after which the run is to be terminated.
    pub timeout_sec: Option<u64>,
}

pub struct RuntimeCommandView {
    pub program: Seq<char>,
    pub args: Seq<Seq<char>>,
    pub timeout_sec: Option<u64>,
}

/// The texts of `strings`, in order.
pub open spec fn texts(strings: Seq<String>) -> Seq<Seq<char>> {
    strings.map_values(|s: String| s@)
}

impl View for RuntimeCommand {
    type V = RuntimeCommandView;

    open spec fn view(&self) -> RuntimeCommandView {
        RuntimeCommandView {
            program: self.program@,
            args: texts(self.args@),
            timeout_sec: self.timeout_sec,
        }
    }
}

/// The command line that hands `args` to the runtime: the runtime itself,
/// or, with `as_root`, the elevating program with the runtime as its first
/// argument.
pub open spec fn runtime_cmd_spec(args: Seq<Seq<char>>, as_root: bool) -> RuntimeCommandView {
    if as_root {
        RuntimeCommandView {
            program: ELEVATE_WITH@,
            args: seq![RUNTIME_NAME@] + args,
            timeout_sec: None,
        }
    } else {
        RuntimeCommandView { program: RUNTIME_NAME@, args: args, timeout_sec: None }
    }
}

/// The command line of the request to fetch the base image `name`:`tag`.
pub open spec fn download_image_spec(name: Seq<char>, tag: Seq<char>) -> RuntimeCommandView {
    runtime_cmd_spec(seq!["download"@, name, tag], true)
}

/// The command line of the request to create a container from a bundle.
pub open spec fn create_container_spec(
    container_id: Seq<char>,
    bundle_path: Seq<char>,
) -> RuntimeCommandView {
    runtime_cmd_spec(seq!["create"@, container_id, bundle_path], false)
}

/// The first arguments of the request to start a container: what is
/// mounted, where, and in which container.
pub open spec fn start_container_head(
    container_id: Seq<char>,
    mount_source_path: Seq<char>,
    mount_dest_path: Seq<char>,
) -> Seq<Seq<char>> {
    seq![
        "start"@,
        "-mount-source="@ + mount_source_path,
        "-mount-dest="@ + mount_dest_path,
        container_id,
    ]
}

/// The command line of the request to start a container. The words of
/// `command`, if there is one, follow the other arguments.
pub open spec fn start_container_spec(
    container_id: Seq<char>,
    mount_source_path: Seq<char>,
    mount_dest_path: Seq<char>,
    command: Option<Seq<Seq<char>>>,
    timeout_sec: Option<u64>,
) -> RuntimeCommandView {
    let head = start_container_head(container_id, mount_source_path, mount_dest_path);
    let args = match command {
        Some(words) => head + words,
        None => head,
    };
    RuntimeCommandView { timeout_sec, ..runtime_cmd_spec(args, true) }
}

/// The command line of the request to delete a container.
pub open spec fn delete_container_spec(container_id: Seq<char>) -> RuntimeCommandView {
    runtime_cmd_spec(seq!["delete"@, container_id], false)
}

proof fn lemma_texts_push(strings: Seq<String>, last: String)
    ensures
        texts(strings.push(last)) == texts(strings).push(last@),
{
    assert(texts(strings.push(last)) =~= texts(strings).push(last@));
}

/// Builds the command line that hands `args` to the runtime.
pub fn runtime_cmd(args: Vec<String>, as_root: bool) -> (cmd: RuntimeCommand)
    ensures
        cmd@ == runtime_cmd_spec(texts(args@), as_root),
{
    if as_root {
        let mut all: Vec<String> = Vec::new();
        all.push(String::from_str(RUNTIME_NAME));
        let mut i: usize = 0;
        while i < args.len()
            invariant
                i <= args.len(),
                texts(all@) == seq![RUNTIME_NAME@] + texts(args@).take(i as int),
            decreases args.len() - i,
        {
            proof {
                lemma_texts_push(all@, args@[i as int]);
            }
            all.push(args[i].clone());
            assert(texts(all@) =~= seq![RUNTIME_NAME@] + texts(args@).take(i + 1));
            i = i + 1;
        }
        assert(texts(args@).take(i as int) =~= texts(args@));
        RuntimeCommand { program: String::from_str(ELEVATE_WITH), args: all, timeout_sec: None }
    } else {
        RuntimeCommand { program: String::from_str(RUNTIME_NAME), args, timeout_sec: None }
    }
}

/// The request to fetch the base image `name`:`tag`, or to find it cached.
pub fn download_image(name: &str, tag: &str) -> (cmd: RuntimeCommand)
    ensures
        cmd@ == download_image_spec(name@, tag@),
{
    let mut args: Vec<String> = Vec::new();
    args.push(String::from_str("download"));
    args.push(String::from_str(name));
    args.push(String::from_str(tag));
    assert(texts(args@) =~= seq!["download"@, name@, tag@]);
    runtime_cmd(args, true)
}

/// The request to create the container `container_id` from the bundle at
/// `oci_runtime_bundle_path`.
pub fn create_container(container_id: &str, oci_runtime_bundle_path: &str) -> (cmd: RuntimeCommand)
    ensures
        cmd@ == create_container_spec(container_id@, oci_runtime_bundle_path@),
{
    let mut args: Vec<String> = Vec::new();
    args.push(String::from_str("create"));
    args.push(String::from_str(container_id));
    args.push(String::from_str(oci_runtime_bundle_path));
    assert(texts(args@) =~= seq!["create"@, container_id@, oci_runtime_bundle_path@]);
    runtime_cmd(args, false)
}

/// The request to start the container `container_id` with
/// `mount_source_path` mounted at `mount_dest_path`, and to run `command` in
/// it if there is one. The run is to be terminated after `timeout_sec`
/// seconds, if given.
pub fn start_container(
    container_id: &str,
    mount_source_path: &str,
    mount_dest_path: &str,
    command: Option<&Vec<String>>,
    timeout_sec: Option<u64>,
) -> (cmd: RuntimeCommand)
    ensures
        cmd@ == start_container_spec(
            container_id@,
            mount_source_path@,
            mount_dest_path@,
            match command {
                Some(words) => Some(texts(words@)),
                None => None,
            },
            timeout_sec,
        ),
{
    let mut source = String::from_str("-mount-source=");
    source.append(mount_source_path);
    let mut dest = String::from_str("-mount-dest=");
    dest.append(mount_dest_path);
    let mut args: Vec<String> = Vec::new();
    args.push(String::from_str("start"));
    args.push(source);
    args.push(dest);
    args.push(String::from_str(container_id));
    let ghost head = texts(args@);
    assert(head =~= start_container_head(container_id@, mount_source_path@, mount_dest_path@));
    if let Some(words) = command {
        let mut i: usize = 0;
        while i < words.len()
            invariant
                i <= words.len(),
                texts(args@) == head + texts(words@).take(i as int),
            decreases words.len() - i,
        {
            proof {
                lemma_texts_push(args@, words@[i as int]);
            }
            args.push(words[i].clone());
            assert(texts(args@) =~= head + texts(words@).take(i + 1));
            i = i + 1;
        }
        assert(texts(words@).take(i as int) =~= texts(words@));
    }
    let mut cmd = runtime_cmd(args, true);
    cmd.timeout_sec = timeout_sec;
    cmd
}

/// The request to delete the container `container_id`.
pub fn delete_container(container_id: &str) -> (cmd: RuntimeCommand)
    ensures
        cmd@ == delete_container_spec(container_id@),
{
    let mut args: Vec<String> = Vec::new();
    args.push(String::from_str("delete"));
    args.push(String::from_str(container_id));
    assert(texts(args@) =~= seq!["delete"@, container_id@]);
    runtime_cmd(args, false)
}

/// What a finished command left behind.
#[derive(Debug)]
pub struct CommandOutput {
    /// The exit code; none if a signal ended the process.
    pub exit_code: Option<i32>,
    pub stdout: Vec<u8>,
    pub stderr: Vec<u8>,
}

/// A failed request to the runtime, with what it wrote.
#[derive(Debug)]
pub struct RuntimeClientError {
    pub stdout: Vec<u8>,
    pub stderr: Vec<u8>,
}

pub struct RuntimeClientErrorView {
    pub stdout: Seq<u8>,
    pub stderr: Seq<u8>,
}

impl View for RuntimeClientError {
    type V = RuntimeClientErrorView;

    open spec fn view(&self) -> RuntimeClientErrorView {
        RuntimeClientErrorView { stdout: self.stdout@, stderr: self.stderr@ }
    }
}

/// Whether a command with this exit code and this error output succeeded:
/// it exited with code zero and wrote nothing to its error stream.
pub open spec fn command_succeeded(exit_code: Option<i32>, stderr: Seq<u8>) -> bool {
    exit_code == Some(0i32) && stderr.len() == 0
}

/// Reads the outcome of a request to the runtime. A failure carries what
/// the command wrote.
pub fn output_to_result(output: CommandOutput) -> (res: Result<(), RuntimeClientError>)
    ensures
        match res {
            Ok(_) => command_succeeded(output.exit_code, output.stderr@),
            Err(e) => {
                &&& !command_succeeded(output.exit_code, output.stderr@)
                &&& e@ == (RuntimeClientErrorView {
                    stdout: output.stdout@,
                    stderr: output.stderr@,
                })
            },
        },
{
    let exited_zero = match output.exit_code {
        Some(code) => code == 0,
        None => false,
    };
    if exited_zero && output.stderr.len() == 0 {
        Ok(())
    } else {
        Err(RuntimeClientError { stdout: output.stdout, stderr: output.stderr })
    }
}

/// How the run phase ended, from the exit code of the container, or from
/// its absence where the deadline ended the run.
pub fn exit_outcome(timed_out: bool, exit_code: Option<i32>) -> (outcome: ExitOutcome)
    ensures
        outcome == if timed_out {
            ExitOutcome::Timeout
        } else if exit_code == Some(0i32) {
            ExitOutcome::Success
        } else {
            ExitOutcome::Failure
        },
{
    if timed_out {
        ExitOutcome::Timeout
    } else {
        match exit_code {
            Some(code) => if code == 0 {
                ExitOutcome::Success
            } else {
                ExitOutcome::Failure
            },
            None => ExitOutcome::Failure,
        }
    }
}

} // verus!
