//! Running one command: which spawner gets it and with which arguments, what
//! ends the wait for it, and what its exit means.

use crate::error::CodexErr;
use crate::error::IoError;
use crate::error::IoErrorKind;
use crate::error::SandboxErr;
use crate::exit_status::synthetic_exit_status;
use crate::exit_status::ExitStatus;
use crate::exit_status::SIGKILL_CODE;
use crate::exit_status::TIMEOUT_CODE;
use std::collections::HashMap;
use std::time::Duration;
use vstd::prelude::*;
use vstd::utf8::decode_utf8;
use vstd::utf8::valid_utf8;

verus! {

/// The time a command gets when the request names none, in milliseconds.
pub const DEFAULT_TIMEOUT_MS: u64 = 10_000;

/// The exit code with which a shell reports that it found no such command.
pub const COMMAND_NOT_FOUND: i32 = 127;

/// A request to run a command.
#[derive(Clone, Debug)]
pub struct ExecParams {
    /// The program and its arguments.
    pub command: Vec<String>,
    /// The directory to run it in.
    pub cwd: String,
    /// The time it gets, in milliseconds.
    pub timeout_ms: Option<u64>,
    /// The environment it sees.
    pub env: HashMap<String, String>,
    /// Whether the caller asks to run it outside the sandbox.
    pub with_escalated_permissions: Option<bool>,
    /// Why the caller asks so.
    pub justification: Option<String>,
}

/// The span of time that lasts the given number of milliseconds.
pub uninterp spec fn duration_of_millis(millis: u64) -> Duration;

/// `Duration::from_millis` returns the span that lasts `millis` milliseconds;
/// the contract gives that span a name and says no more of it.
pub assume_specification[ Duration::from_millis ](millis: u64) -> (d: Duration)
    ensures
        d == duration_of_millis(millis),
;

impl ExecParams {
    /// The time the command gets, in milliseconds.
    pub open spec fn spec_timeout_ms(&self) -> u64 {
        match self.timeout_ms {
            Some(ms) => ms,
            None => DEFAULT_TIMEOUT_MS,
        }
    }

    /// The time the command gets: what the request names, else the default.
    pub fn timeout_duration(&self) -> (d: Duration)
        ensures
            d == duration_of_millis(self.spec_timeout_ms()),
    {
        match self.timeout_ms {
            Some(ms) => Duration::from_millis(ms),
            None => Duration::from_millis(DEFAULT_TIMEOUT_MS),
        }
    }
}

/// The mechanism that confines a command.
#[derive(Clone, Copy, Debug, PartialEq, Eq, Structural)]
pub enum SandboxType {
    /// No confinement.
    NoSandbox,
    /// The sandbox built into macOS.
    MacosSeatbelt,
    /// The Linux sandbox, applied by a helper executable.
    LinuxSeccomp,
}

/// Whether a failed command is taken to have been stopped by the sandbox.
/// There is no sure sign of that, so every failure under a sandbox counts,
/// but for the code with which a shell reports an unknown command.
pub open spec fn likely_sandbox_denied(sandbox_type: SandboxType, exit_code: i32) -> bool {
    sandbox_type != SandboxType::NoSandbox && exit_code != COMMAND_NOT_FOUND
}

/// Whether a failed command is taken to have been stopped by the sandbox.
pub fn is_likely_sandbox_denied(sandbox_type: SandboxType, exit_code: i32) -> (denied: bool)
    ensures
        denied == likely_sandbox_denied(sandbox_type, exit_code),
{
    match sandbox_type {
        SandboxType::NoSandbox => false,
        _ => exit_code != COMMAND_NOT_FOUND,
    }
}

/// What a command left behind, before it is classified.
#[derive(Debug)]
pub struct RawExecToolCallOutput {
    /// How the command ended.
    pub exit_status: ExitStatus,
    /// The kept part of its standard output.
    pub stdout: Vec<u8>,
    /// The kept part of its standard error.
    pub stderr: Vec<u8>,
}

/// The result of a command that ran to its end.
#[derive(Debug)]
pub struct ExecToolCallOutput {
    /// The code it returned, or -1 where none is known.
    pub exit_code: i32,
    /// The kept part of its standard output, as text.
    pub stdout: String,
    /// The kept part of its standard error, as text.
    pub stderr: String,
    /// How long the call took.
    pub duration: Duration,
}

/// What the exit of a command means.
pub enum Verdict {
    /// It ran out of time and was killed for it.
    Timeout,
    /// It was ended by this signal.
    Signal(i32),
    /// The sandbox seems to have refused it; it returned this code.
    Denied(i32),
    /// It ran to its end and returned this code.
    Completed(i32),
}

/// The code a command returned, or -1 where none is known.
pub open spec fn exit_code_of(status: ExitStatus) -> i32 {
    match status {
        ExitStatus::ExitedWithCode(code) => code,
        _ => -1i32,
    }
}

/// The meaning of an exit: the signal that stands for a timeout first, then
/// any other signal, then a failure under a sandbox, then everything else.
pub open spec fn verdict(status: ExitStatus, sandbox_type: SandboxType) -> Verdict {
    match status {
        ExitStatus::TerminatedBySignal(signal) => if signal == TIMEOUT_CODE {
            Verdict::Timeout
        } else {
            Verdict::Signal(signal)
        },
        _ => if exit_code_of(status) != 0 && likely_sandbox_denied(
            sandbox_type,
            exit_code_of(status),
        ) {
            Verdict::Denied(exit_code_of(status))
        } else {
            Verdict::Completed(exit_code_of(status))
        },
    }
}

/// Whether `result` is what a command with the given exit and output comes
/// to: the error or the output that the exit's meaning calls for, with the
/// two texts and the duration in their places.
pub open spec fn is_classified(
    result: Result<ExecToolCallOutput, CodexErr>,
    status: ExitStatus,
    sandbox_type: SandboxType,
    stdout: Seq<char>,
    stderr: Seq<char>,
    duration: Duration,
) -> bool {
    match result {
        Ok(output) => {
            &&& verdict(status, sandbox_type) == Verdict::Completed(output.exit_code)
            &&& output.stdout@ == stdout
            &&& output.stderr@ == stderr
            &&& output.duration == duration
        },
        Err(CodexErr::Sandbox(SandboxErr::Timeout)) => verdict(status, sandbox_type)
            == Verdict::Timeout,
        Err(CodexErr::Sandbox(SandboxErr::Signal(signal))) => verdict(status, sandbox_type)
            == Verdict::Signal(signal),
        Err(CodexErr::Sandbox(SandboxErr::Denied(code, out, err))) => {
            &&& verdict(status, sandbox_type) == Verdict::Denied(code)
            &&& out@ == stdout
            &&& err@ == stderr
        },
        Err(_) => false,
    }
}

/// Classifies the exit of a command whose output has been turned into text.
pub fn classify(
    exit_status: ExitStatus,
    sandbox_type: SandboxType,
    stdout: String,
    stderr: String,
    duration: Duration,
) -> (result: Result<ExecToolCallOutput, CodexErr>)
    ensures
        is_classified(result, exit_status, sandbox_type, stdout@, stderr@, duration),
{
    match exit_status.signal() {
        Some(signal) => {
            if signal == TIMEOUT_CODE {
                return Err(CodexErr::Sandbox(SandboxErr::Timeout));
            }
            return Err(CodexErr::Sandbox(SandboxErr::Signal(signal)));
        },
        None => {},
    }
    let exit_code: i32 = match exit_status.code() {
        Some(code) => code,
        None => -1,
    };
    if exit_code != 0 && is_likely_sandbox_denied(sandbox_type, exit_code) {
        return Err(CodexErr::Sandbox(SandboxErr::Denied(exit_code, stdout, stderr)));
    }
    Ok(ExecToolCallOutput { exit_code, stdout, stderr, duration })
}

/// The text that a lossy decoding makes of a byte sequence: every part that
/// is no valid UTF-8 gives way to the replacement character.
pub uninterp spec fn utf8_lossy(bytes: Seq<u8>) -> Seq<char>;

/// `String::from_utf8_lossy`, made into an owned string. The contract names
/// the text it returns and adds what the documentation says of valid input:
/// it is decoded as it stands.
#[verifier::external_body]
fn string_from_utf8_lossy(bytes: &[u8]) -> (text: String)
    ensures
        text@ == utf8_lossy(bytes@),
        valid_utf8(bytes@) ==> text@ == decode_utf8(bytes@),
{
    String::from_utf8_lossy(bytes).into_owned()
}

/// Turns what a run left behind into the caller's result: an error that
/// ended the run is handed on, and an exit is classified with the kept
/// output decoded as text.
pub fn finish_exec_tool_call(
    raw_output_result: Result<RawExecToolCallOutput, CodexErr>,
    sandbox_type: SandboxType,
    duration: Duration,
) -> (result: Result<ExecToolCallOutput, CodexErr>)
    ensures
        match raw_output_result {
            Ok(raw) => is_classified(
                result,
                raw.exit_status,
                sandbox_type,
                utf8_lossy(raw.stdout@),
                utf8_lossy(raw.stderr@),
                duration,
            ),
            Err(e) => result == Err::<ExecToolCallOutput, CodexErr>(e),
        },
{
    match raw_output_result {
        Ok(raw) => {
            let stdout = string_from_utf8_lossy(raw.stdout.as_slice());
            let stderr = string_from_utf8_lossy(raw.stderr.as_slice());
            classify(raw.exit_status, sandbox_type, stdout, stderr, duration)
        },
        Err(e) => Err(e),
    }
}

/// What ended the wait for a command.
pub enum RaceEvent {
    /// The command ended by itself, within its time.
    Exited(ExitStatus),
    /// Its time ran out first.
    TimedOut,
    /// The caller's interrupt came first.
    Interrupted,
}

/// What the runner does once the wait has ended.
#[derive(Clone, Copy, Debug, PartialEq, Eq, Structural)]
pub struct RaceOutcome {
    /// Whether the command is to be killed.
    pub kill: bool,
    /// The status to go on with, without waiting for the command to die.
    pub exit_status: ExitStatus,
}

/// The outcome of each way the wait can end: a command that ended by itself
/// keeps its status; one that ran out of time is killed and gets the signal
/// that stands for a timeout; one that was interrupted is killed and gets the
/// kill signal.
pub open spec fn race_outcome(event: RaceEvent) -> RaceOutcome {
    match event {
        RaceEvent::Exited(status) => RaceOutcome { kill: false, exit_status: status },
        RaceEvent::TimedOut => RaceOutcome {
            kill: true,
            exit_status: ExitStatus::TerminatedBySignal(TIMEOUT_CODE),
        },
        RaceEvent::Interrupted => RaceOutcome {
            kill: true,
            exit_status: ExitStatus::TerminatedBySignal(SIGKILL_CODE),
        },
    }
}

/// Decides what follows the end of the wait.
pub fn resolve_race(event: RaceEvent) -> (outcome: RaceOutcome)
    ensures
        outcome == race_outcome(event),
{
    match event {
        RaceEvent::Exited(status) => RaceOutcome { kill: false, exit_status: status },
        RaceEvent::TimedOut => RaceOutcome {
            kill: true,
            exit_status: synthetic_exit_status(128 + TIMEOUT_CODE),
        },
        RaceEvent::Interrupted => RaceOutcome {
            kill: true,
            exit_status: synthetic_exit_status(128 + SIGKILL_CODE),
        },
    }
}

/// A command that ran out of time is classified as timed out, under every
/// sandbox and whatever it had written.
pub proof fn lemma_timeout_is_classified_timeout(sandbox_type: SandboxType)
    ensures
        race_outcome(RaceEvent::TimedOut).kill,
        verdict(race_outcome(RaceEvent::TimedOut).exit_status, sandbox_type) == Verdict::Timeout,
{
}

/// A command that the caller interrupted is classified as ended by the kill
/// signal, never as timed out.
pub proof fn lemma_interrupt_is_classified_killed(sandbox_type: SandboxType)
    ensures
        race_outcome(RaceEvent::Interrupted).kill,
        verdict(race_outcome(RaceEvent::Interrupted).exit_status, sandbox_type) == Verdict::Signal(
            SIGKILL_CODE,
        ),
{
}

/// Whatever a command had written: if it ran out of time, the caller gets
/// the timeout error and nothing else.
pub proof fn lemma_timed_out_result(
    result: Result<ExecToolCallOutput, CodexErr>,
    sandbox_type: SandboxType,
    stdout: Seq<char>,
    stderr: Seq<char>,
    duration: Duration,
)
    requires
        is_classified(
            result,
            race_outcome(RaceEvent::TimedOut).exit_status,
            sandbox_type,
            stdout,
            stderr,
            duration,
        ),
    ensures
        result matches Err(CodexErr::Sandbox(SandboxErr::Timeout)),
{
}

/// Whatever a command had written: if the caller interrupted it, the caller
/// gets the error for the kill signal and nothing else.
pub proof fn lemma_interrupted_result(
    result: Result<ExecToolCallOutput, CodexErr>,
    sandbox_type: SandboxType,
    stdout: Seq<char>,
    stderr: Seq<char>,
    duration: Duration,
)
    requires
        is_classified(
            result,
            race_outcome(RaceEvent::Interrupted).exit_status,
            sandbox_type,
            stdout,
            stderr,
            duration,
        ),
    ensures
        result matches Err(CodexErr::Sandbox(SandboxErr::Signal(signal))) && signal
            == SIGKILL_CODE,
{
}

/// Under a sandbox every failure counts as refused but the one with which a
/// shell reports an unknown command, which counts as an ordinary result, as
/// does every exit without a sandbox.
pub proof fn lemma_denial_heuristic(sandbox_type: SandboxType, code: i32)
    ensures
        verdict(ExitStatus::ExitedWithCode(code), sandbox_type) == if code != 0 && code
            != COMMAND_NOT_FOUND && sandbox_type != SandboxType::NoSandbox {
            Verdict::Denied(code)
        } else {
            Verdict::Completed(code)
        },
{
}

/// What a spawner does with the standard streams of the child.
#[derive(Clone, Copy, Debug, PartialEq, Eq, Structural)]
pub enum StdioPolicy {
    /// Pipes for output and nothing to read, as a tool call needs it.
    RedirectForShellTool,
    /// The streams of the parent.
    Inherit,
}

/// Everything a spawner needs to start a process.
#[derive(Debug)]
pub struct SpawnRequest {
    /// The executable to start.
    pub program: String,
    /// Its arguments.
    pub args: Vec<String>,
    /// The name it is to see as its own, where that is not its path.
    pub arg0: Option<String>,
    /// The directory to start it in.
    pub cwd: String,
    /// What becomes of its standard streams.
    pub stdio_policy: StdioPolicy,
    /// The environment it sees.
    pub env: HashMap<String, String>,
}

/// The spawner that a request goes to, with what that spawner takes.
#[derive(Debug)]
pub enum Dispatch {
    /// Start the process directly.
    Direct(SpawnRequest),
    /// Start the command under the sandbox built into macOS.
    Seatbelt {
        command: Vec<String>,
        cwd: String,
        stdio_policy: StdioPolicy,
        env: HashMap<String, String>,
    },
    /// Start the command through the Linux sandbox helper.
    LinuxSandbox {
        exe: String,
        command: Vec<String>,
        cwd: String,
        stdio_policy: StdioPolicy,
        env: HashMap<String, String>,
    },
}

/// The request to start a command directly: its first word is the program,
/// the rest are the arguments. A command without words is refused.
pub fn exec(params: ExecParams) -> (result: Result<SpawnRequest, CodexErr>)
    ensures
        match result {
            Ok(request) => {
                &&& params.command@.len() > 0
                &&& request.program == params.command@[0]
                &&& request.args@ == params.command@.skip(1)
                &&& request.arg0 is None
                &&& request.cwd == params.cwd
                &&& request.stdio_policy == StdioPolicy::RedirectForShellTool
                &&& request.env == params.env
            },
            Err(CodexErr::Io(e)) => {
                &&& params.command@.len() == 0
                &&& e.kind == IoErrorKind::InvalidInput
                &&& e.message@ == "command args are empty"@
            },
            Err(_) => false,
        },
{
    let ExecParams { command, cwd, env, .. } = params;
    if command.len() == 0 {
        return Err(
            CodexErr::Io(
                IoError {
                    kind: IoErrorKind::InvalidInput,
                    message: "command args are empty".to_owned(),
                },
            ),
        );
    }
    let program = command[0].clone();
    let mut args: Vec<String> = Vec::new();
    let mut i: usize = 1;
    while i < command.len()
        invariant
            1 <= i <= command@.len(),
            args@ == command@.subrange(1, i as int),
        decreases command@.len() - i,
    {
        args.push(command[i].clone());
        i = i + 1;
    }
    Ok(
        SpawnRequest {
            program,
            args,
            arg0: None,
            cwd,
            stdio_policy: StdioPolicy::RedirectForShellTool,
            env,
        },
    )
}

/// Picks the spawner for a request. Without a sandbox the process is started
/// directly. The helper sandbox needs the path of its helper: where none is
/// known the request fails before anything is started.
pub fn dispatch(
    params: ExecParams,
    sandbox_type: SandboxType,
    codex_linux_sandbox_exe: &Option<String>,
) -> (result: Result<Dispatch, CodexErr>)
    ensures
        match sandbox_type {
            SandboxType::NoSandbox => match result {
                Ok(Dispatch::Direct(request)) => {
                    &&& params.command@.len() > 0
                    &&& request.program == params.command@[0]
                    &&& request.args@ == params.command@.skip(1)
                    &&& request.arg0 is None
                    &&& request.cwd == params.cwd
                    &&& request.stdio_policy == StdioPolicy::RedirectForShellTool
                    &&& request.env == params.env
                },
                Err(CodexErr::Io(e)) => {
                    &&& params.command@.len() == 0
                    &&& e.kind == IoErrorKind::InvalidInput
                    &&& e.message@ == "command args are empty"@
                },
                _ => false,
            },
            SandboxType::MacosSeatbelt => match result {
                Ok(Dispatch::Seatbelt { command, cwd, stdio_policy, env }) => {
                    &&& command == params.command
                    &&& cwd == params.cwd
                    &&& stdio_policy == StdioPolicy::RedirectForShellTool
                    &&& env == params.env
                },
                _ => false,
            },
            SandboxType::LinuxSeccomp => match result {
                Ok(Dispatch::LinuxSandbox { exe, command, cwd, stdio_policy, env }) => {
                    &&& *codex_linux_sandbox_exe == Some(exe)
                    &&& command == params.command
                    &&& cwd == params.cwd
                    &&& stdio_policy == StdioPolicy::RedirectForShellTool
                    &&& env == params.env
                },
                Err(CodexErr::LandlockSandboxExecutableNotProvided) => codex_linux_sandbox_exe
                    is None,
                _ => false,
            },
        },
{
    match sandbox_type {
        SandboxType::NoSandbox => match exec(params) {
            Ok(request) => Ok(Dispatch::Direct(request)),
            Err(e) => Err(e),
        },
        SandboxType::MacosSeatbelt => {
            let ExecParams { command, cwd, env, .. } = params;
            Ok(
                Dispatch::Seatbelt {
                    command,
                    cwd,
                    stdio_policy: StdioPolicy::RedirectForShellTool,
                    env,
                },
            )
        },
        SandboxType::LinuxSeccomp => {
            let ExecParams { command, cwd, env, .. } = params;
            match codex_linux_sandbox_exe {
                Some(exe) => Ok(
                    Dispatch::LinuxSandbox {
                        exe: exe.clone(),
                        command,
                        cwd,
                        stdio_policy: StdioPolicy::RedirectForShellTool,
                        env,
                    },
                ),
                None => Err(CodexErr::LandlockSandboxExecutableNotProvided),
            }
        },
    }
}

/// The arguments of the sandbox helper for a command: the working directory,
/// the policy as one JSON text, a separator, and the command as it stands.
/// The separator keeps a command that starts with a dash from being read as
/// an option of the helper.
pub open spec fn linux_sandbox_command_args(
    command: Seq<String>,
    sandbox_policy_json: String,
    cwd: Seq<char>,
    args: Seq<String>,
) -> bool {
    &&& args.len() == command.len() + 3
    &&& args[0]@ == cwd
    &&& args[1] == sandbox_policy_json
    &&& args[2]@ == "--"@
    &&& args.skip(3) == command
}

/// Builds the arguments of the sandbox helper for a command.
pub fn create_linux_sandbox_command_args(
    command: Vec<String>,
    sandbox_policy_json: String,
    cwd: &str,
) -> (args: Vec<String>)
    ensures
        linux_sandbox_command_args(command@, sandbox_policy_json, cwd@, args@),
{
    let mut command = command;
    let mut linux_cmd: Vec<String> = Vec::new();
    linux_cmd.push(cwd.to_owned());
    linux_cmd.push(sandbox_policy_json);
    linux_cmd.push("--".to_owned());
    let ghost head = linux_cmd@;
    let ghost words = command@;
    linux_cmd.append(&mut command);
    proof {
        assert((head + words).skip(3) =~= words);
    }
    linux_cmd
}

/// The request that starts a command through the Linux sandbox helper: the
/// helper is the program, under a fixed name of its own, and the command
/// travels in its arguments.
pub fn spawn_command_under_linux_sandbox(
    codex_linux_sandbox_exe: String,
    command: Vec<String>,
    sandbox_policy_json: String,
    cwd: String,
    stdio_policy: StdioPolicy,
    env: HashMap<String, String>,
) -> (request: SpawnRequest)
    ensures
        request.program == codex_linux_sandbox_exe,
        linux_sandbox_command_args(command@, sandbox_policy_json, cwd@, request.args@),
        request.arg0 is Some,
        request.arg0.unwrap()@ == "codex-linux-sandbox"@,
        request.cwd == cwd,
        request.stdio_policy == stdio_policy,
        request.env == env,
{
    let args = create_linux_sandbox_command_args(command, sandbox_policy_json, cwd.as_str());
    SpawnRequest {
        program: codex_linux_sandbox_exe,
        args,
        arg0: Some("codex-linux-sandbox".to_owned()),
        cwd,
        stdio_policy,
        env,
    }
}

/// Makes sure that both output pipes of a fresh child are there to be read.
pub fn check_pipes(stdout_available: bool, stderr_available: bool) -> (result: Result<
    (),
    CodexErr,
>)
    ensures
        match result {
            Ok(_) => stdout_available && stderr_available,
            Err(CodexErr::Io(e)) => {
                &&& e.kind == IoErrorKind::Other
                &&& !stdout_available ==> e.message@
                    == "stdout pipe was unexpectedly not available"@
                &&& stdout_available ==> !stderr_available && e.message@
                    == "stderr pipe was unexpectedly not available"@
            },
            Err(_) => false,
        },
{
    if !stdout_available {
        return Err(
            CodexErr::Io(
                IoError {
                    kind: IoErrorKind::Other,
                    message: "stdout pipe was unexpectedly not available".to_owned(),
                },
            ),
        );
    }
    if !stderr_available {
        return Err(
            CodexErr::Io(
                IoError {
                    kind: IoErrorKind::Other,
                    message: "stderr pipe was unexpectedly not available".to_owned(),
                },
            ),
        );
    }
    Ok(())
}

/// Puts together what a run left behind, once the wait has ended and both
/// drains have been joined. A failed wait ends the call, then a failed kill
/// where a kill was due, then a failed drain, standard output first; else the
/// status that the end of the wait calls for goes with the two kept outputs.
pub fn consume_truncated_output(
    wait: Result<RaceEvent, IoError>,
    kill_result: Result<(), IoError>,
    stdout: Result<Vec<u8>, IoError>,
    stderr: Result<Vec<u8>, IoError>,
) -> (result: Result<RawExecToolCallOutput, CodexErr>)
    ensures
        match wait {
            Err(e) => result == Err::<RawExecToolCallOutput, CodexErr>(CodexErr::Io(e)),
            Ok(event) => if race_outcome(event).kill && kill_result is Err {
                result == Err::<RawExecToolCallOutput, CodexErr>(
                    CodexErr::Io(kill_result->Err_0),
                )
            } else if stdout is Err {
                result == Err::<RawExecToolCallOutput, CodexErr>(CodexErr::Io(stdout->Err_0))
            } else if stderr is Err {
                result == Err::<RawExecToolCallOutput, CodexErr>(CodexErr::Io(stderr->Err_0))
            } else {
                result == Ok::<RawExecToolCallOutput, CodexErr>(
                    RawExecToolCallOutput {
                        exit_status: race_outcome(event).exit_status,
                        stdout: stdout->Ok_0,
                        stderr: stderr->Ok_0,
                    },
                )
            },
        },
{
    let event = match wait {
        Ok(event) => event,
        Err(e) => {
            return Err(CodexErr::Io(e));
        },
    };
    let outcome = resolve_race(event);
    if outcome.kill {
        match kill_result {
            Ok(_) => {},
            Err(e) => {
                return Err(CodexErr::Io(e));
            },
        }
    }
    let stdout = match stdout {
        Ok(bytes) => bytes,
        Err(e) => {
            return Err(CodexErr::Io(e));
        },
    };
    let stderr = match stderr {
        Ok(bytes) => bytes,
        Err(e) => {
            return Err(CodexErr::Io(e));
        },
    };
    Ok(RawExecToolCallOutput { exit_status: outcome.exit_status, stdout, stderr })
}

} // verus!
