//! The shell tool: what an agent's request to run a command comes to.
//!
//! Running the process is the caller's part. This module decides whether a
//! request may run and with what, and turns what the process came to into
//! the tool's answer. The restricted path, for commands an agent wrote, goes
//! through [`ShellTool`]; the trusted path, for the platform's own commands,
//! goes through [`trusted_invocation`] and [`ShellResult::from_completion`]
//! and never consults the policy.

use crate::paths::{is_within, path_within, Platform};
use crate::policy::{decide, evaluate, PolicyDecision, Verdict};
use crate::text::{append_decimal, begins_with, decimal};
use crate::tools::{
    truncate_output, truncated, ParameterKind, ToolParameter, MAX_TOOL_OUTPUT_BYTES,
};
use vstd::prelude::*;
use vstd::string::StringExecFns;
use vstd::utf8::{decode_utf8, valid_utf8};

verus! {

/// The timeout of a request that names none, in seconds.
pub const DEFAULT_TIMEOUT_SECONDS: u64 = 60;

/// The shortest timeout a request can have, in seconds.
pub const MIN_TIMEOUT_SECONDS: u64 = 1;

/// The longest timeout a request can have, in seconds.
pub const MAX_TIMEOUT_SECONDS: u64 = 300;

/// The timeout of every trusted command, in seconds.
pub const TRUSTED_TIMEOUT_SECONDS: u64 = 60;

/// The name under which the tool is announced.
pub const SHELL_TOOL_NAME: &'static str = "shell";

/// The exit code reported where the process gave none, or never ran.
pub const NO_EXIT_CODE: i32 = -1;

/// The kinds of failure of one invocation.
#[derive(Clone, Copy, Debug, PartialEq, Eq, Structural)]
pub enum ShellErrorKind {
    /// The policy denied the command. No process was started.
    PolicyViolation,
    /// The working directory is outside the workspace. No process was started.
    PathEscape,
    /// The process outlived its timeout and was killed.
    Timeout,
    /// The interpreter could not be started.
    LaunchFailure,
}

/// A failed invocation.
#[derive(Debug, Clone)]
pub struct ShellError {
    pub message: String,
    pub exit_code: i32,
    pub kind: ShellErrorKind,
}

/// A request to run a command.
#[derive(Debug, Clone)]
pub struct ShellArgs {
    /// The command text, handed to the interpreter as it is.
    pub command: String,
    /// Where to run it; the workspace where none is given.
    pub working_dir: Option<String>,
    /// How long it may run, in seconds.
    pub timeout_seconds: u64,
}

/// The answer to a request whose process ran to its end.
#[derive(Debug, Clone)]
pub struct ShellOutput {
    /// The process exited with status 0.
    pub success: bool,
    /// The exit code, or `NO_EXIT_CODE`.
    pub exit_code: i32,
    /// Standard output, bounded.
    pub stdout: String,
    /// Standard error, bounded.
    pub stderr: String,
    /// The three above rendered as one text.
    pub summary: String,
}

/// The outcome of a trusted command.
#[derive(Debug, Clone)]
pub struct ShellResult {
    pub success: bool,
    pub exit_code: i32,
    pub stdout: String,
    pub stderr: String,
}

/// What to start: the command, where, and for how long at most.
#[derive(Debug, Clone)]
pub struct Invocation {
    pub command: String,
    /// The directory to run in; `None` leaves it to the caller's own.
    pub working_dir: Option<String>,
    pub timeout_seconds: u64,
}

/// What became of the paths of a request when they were resolved on disk:
/// the canonical form of each, or `None` where it could not be resolved.
#[derive(Debug, Clone)]
pub struct ResolvedPaths {
    pub working_dir: Option<String>,
    pub workspace: Option<String>,
}

/// What running an invocation came to.
#[derive(Debug)]
pub enum Completion {
    /// The process ended. `code` is its exit code, if it has one.
    Exited { code: Option<i32>, stdout: Vec<u8>, stderr: Vec<u8> },
    /// The timeout ran out first and the process was killed.
    TimedOut,
    /// The interpreter could not be started.
    LaunchFailed { cause: String },
}

/// The shell tool of one agent, bound to its instance directory and workspace.
#[derive(Debug, Clone)]
pub struct ShellTool {
    instance_dir: String,
    workspace: String,
}

/// The text that `String::from_utf8_lossy` makes of `bytes`.
pub uninterp spec fn lossy_text(bytes: Seq<u8>) -> Seq<char>;

/// `String::from_utf8_lossy`: the text of `bytes`, with the replacement
/// character in place of whatever is not UTF-8. Of bytes that are UTF-8
/// throughout the result is their decoding; of others it is only named.
#[verifier::external_body]
fn decode_lossy(bytes: &[u8]) -> (text: String)
    ensures
        text@ == lossy_text(bytes@),
        valid_utf8(bytes@) ==> text@ == decode_utf8(bytes@),
{
    String::from_utf8_lossy(bytes).into_owned()
}

/// `t` brought into the range of timeouts.
pub open spec fn clamped(t: int) -> int {
    if t < MIN_TIMEOUT_SECONDS {
        MIN_TIMEOUT_SECONDS as int
    } else if t > MAX_TIMEOUT_SECONDS {
        MAX_TIMEOUT_SECONDS as int
    } else {
        t
    }
}

/// The exit code reported for what the process gave.
pub open spec fn reported_code(code: Option<i32>) -> i32 {
    match code {
        Some(c) => c,
        None => NO_EXIT_CODE,
    }
}

/// The path to go by: the resolved form where there is one, else the path as written.
pub open spec fn effective_path(written: Seq<char>, resolved: Option<String>) -> Seq<char> {
    match resolved {
        Some(canonical) => canonical@,
        None => written,
    }
}

/// The rendering of an outcome: the exit code, then each stream that is not
/// empty under its heading, or a note where both are empty.
pub open spec fn rendered(exit_code: int, stdout: Seq<char>, stderr: Seq<char>) -> Seq<char> {
    "Exit code: "@ + decimal(exit_code) + "\n"@ + (if stdout.len() > 0 {
        "\n--- STDOUT ---\n"@ + stdout
    } else {
        Seq::empty()
    }) + (if stderr.len() > 0 {
        "\n--- STDERR ---\n"@ + stderr
    } else {
        Seq::empty()
    }) + (if stdout.len() == 0 && stderr.len() == 0 {
        "\n[No output]\n"@
    } else {
        Seq::empty()
    })
}

/// The message of a working directory outside the workspace.
pub open spec fn boundary_reason(workspace: Seq<char>) -> Seq<char> {
    "working_dir must be within the workspace ("@ + workspace + ")."@
}

/// The message of a command that outlived its timeout.
pub open spec fn timeout_reason() -> Seq<char> {
    "Command timed out"@
}

/// The message of an interpreter that could not be started.
pub open spec fn launch_reason(cause: Seq<char>) -> Seq<char> {
    "Failed to execute command: "@ + cause
}

/// `r` is the failure of the given kind and message, with no exit code.
pub open spec fn fails_with<T>(r: Result<T, ShellError>, kind: ShellErrorKind, message: Seq<char>) -> bool {
    r matches Err(e) && e.kind == kind && e.message@ == message && e.exit_code == NO_EXIT_CODE
}

/// `r` is the invocation of `command` in `dir` with the timeout `timeout`.
pub open spec fn grants(
    r: Result<Invocation, ShellError>,
    command: Seq<char>,
    dir: Seq<char>,
    timeout: int,
) -> bool {
    &&& r is Ok
    &&& r->Ok_0.command@ == command
    &&& r->Ok_0.working_dir is Some
    &&& r->Ok_0.working_dir->0@ == dir
    &&& r->Ok_0.timeout_seconds == timeout
}

/// Every rendering begins with the line of the exit code.
pub proof fn law_rendering_begins_with_exit_code(
    exit_code: int,
    stdout: Seq<char>,
    stderr: Seq<char>,
)
    ensures
        begins_with(
            rendered(exit_code, stdout, stderr),
            "Exit code: "@ + decimal(exit_code) + "\n"@,
        ),
{
    let line = "Exit code: "@ + decimal(exit_code) + "\n"@;
    let whole = rendered(exit_code, stdout, stderr);
    assert(whole.subrange(0, line.len() as int) =~= line);
}

/// A timeout brought into range stays as it is, and every timeout in range
/// is its own image.
pub proof fn law_clamped_is_in_range(t: int)
    ensures
        MIN_TIMEOUT_SECONDS <= clamped(t) <= MAX_TIMEOUT_SECONDS,
        clamped(clamped(t)) == clamped(t),
        MIN_TIMEOUT_SECONDS <= t <= MAX_TIMEOUT_SECONDS ==> clamped(t) == t,
{
}

/// The timeout of a request that names none.
pub fn default_timeout() -> (t: u64)
    ensures
        t == DEFAULT_TIMEOUT_SECONDS,
{
    DEFAULT_TIMEOUT_SECONDS
}

/// Brings a requested timeout into the range of timeouts.
pub fn clamp_timeout(t: u64) -> (c: u64)
    ensures
        c == clamped(t as int),
        MIN_TIMEOUT_SECONDS <= c <= MAX_TIMEOUT_SECONDS,
{
    if t < MIN_TIMEOUT_SECONDS {
        MIN_TIMEOUT_SECONDS
    } else if t > MAX_TIMEOUT_SECONDS {
        MAX_TIMEOUT_SECONDS
    } else {
        t
    }
}

/// Renders an outcome as text.
pub fn format_shell_output(exit_code: i32, stdout: &str, stderr: &str) -> (out: String)
    ensures
        out@ == rendered(exit_code as int, stdout@, stderr@),
{
    let mut out = String::from_str("Exit code: ");
    append_decimal(&mut out, exit_code);
    out.append("\n");
    let ghost head = out@;
    if !stdout.is_empty() {
        out.append("\n--- STDOUT ---\n");
        out.append(stdout);
    }
    let ghost with_stdout = out@;
    if !stderr.is_empty() {
        out.append("\n--- STDERR ---\n");
        out.append(stderr);
    }
    let ghost with_stderr = out@;
    if stdout.is_empty() && stderr.is_empty() {
        out.append("\n[No output]\n");
    }
    proof {
        let none = Seq::<char>::empty();
        assert(head + none =~= head);
        assert(with_stdout + none =~= with_stdout);
        assert(with_stderr + none =~= with_stderr);
        assert(with_stdout =~= head + (if stdout@.len() > 0 {
            "\n--- STDOUT ---\n"@ + stdout@
        } else {
            none
        }));
        assert(with_stderr =~= with_stdout + (if stderr@.len() > 0 {
            "\n--- STDERR ---\n"@ + stderr@
        } else {
            none
        }));
        assert(out@ =~= rendered(exit_code as int, stdout@, stderr@));
    }
    out
}

impl ShellError {
    /// The error as one line of text.
    pub fn to_text(&self) -> (text: String)
        ensures
            text@ == "Shell command failed: "@ + self.message@,
    {
        let mut text = String::from_str("Shell command failed: ");
        text.append(self.message.as_str());
        text
    }
}

impl ShellResult {
    /// The outcome of a trusted command whose process ended, from its exit
    /// code and the text of its two streams.
    pub fn assemble(code: Option<i32>, stdout: &str, stderr: &str) -> (result: ShellResult)
        ensures
            result.success == (code == Some(0i32)),
            result.success == (result.exit_code == 0),
            result.exit_code == reported_code(code),
            result.stdout@ == truncated(stdout@, MAX_TOOL_OUTPUT_BYTES as int),
            result.stderr@ == truncated(stderr@, MAX_TOOL_OUTPUT_BYTES as int),
    {
        let exit_code = match code {
            Some(c) => c,
            None => NO_EXIT_CODE,
        };
        ShellResult {
            success: exit_code == 0 && code.is_some(),
            exit_code,
            stdout: truncate_output(stdout, MAX_TOOL_OUTPUT_BYTES),
            stderr: truncate_output(stderr, MAX_TOOL_OUTPUT_BYTES),
        }
    }

    /// The outcome of a trusted command, from what running it came to.
    /// A process that ended gives a result, whatever its exit code: each
    /// stream's bytes as text, bounded; the text is the decoding where the
    /// bytes are UTF-8 throughout. A timeout and a failed launch give an error.
    pub fn from_completion(completion: Completion) -> (r: Result<ShellResult, ShellError>)
        ensures
            match completion {
                Completion::Exited { code, stdout, stderr } => r matches Ok(result)
                    && result.success == (code == Some(0i32)) && result.exit_code
                    == reported_code(code) && result.stdout@ == truncated(
                    lossy_text(stdout@),
                    MAX_TOOL_OUTPUT_BYTES as int,
                ) && result.stderr@ == truncated(
                    lossy_text(stderr@),
                    MAX_TOOL_OUTPUT_BYTES as int,
                ) && (valid_utf8(stdout@) ==> result.stdout@ == truncated(
                    decode_utf8(stdout@),
                    MAX_TOOL_OUTPUT_BYTES as int,
                )) && (valid_utf8(stderr@) ==> result.stderr@ == truncated(
                    decode_utf8(stderr@),
                    MAX_TOOL_OUTPUT_BYTES as int,
                )),
                Completion::TimedOut => fails_with(r, ShellErrorKind::Timeout, timeout_reason()),
                Completion::LaunchFailed { cause } => fails_with(
                    r,
                    ShellErrorKind::LaunchFailure,
                    launch_reason(cause@),
                ),
            },
    {
        match completion {
            Completion::Exited { code, stdout, stderr } => {
                let out_text = decode_lossy(stdout.as_slice());
                let err_text = decode_lossy(stderr.as_slice());
                Ok(ShellResult::assemble(code, out_text.as_str(), err_text.as_str()))
            },
            Completion::TimedOut => Err(timed_out()),
            Completion::LaunchFailed { cause } => Err(launch_failed(cause.as_str())),
        }
    }

    /// The outcome rendered as text.
    pub fn format(&self) -> (out: String)
        ensures
            out@ == rendered(self.exit_code as int, self.stdout@, self.stderr@),
    {
        format_shell_output(self.exit_code, self.stdout.as_str(), self.stderr.as_str())
    }
}

impl ShellOutput {
    /// The answer for a process that ended, from its exit code and the text
    /// of its two streams: each stream bounded by itself, and the summary
    /// rendered from the bounded streams.
    pub fn assemble(code: Option<i32>, stdout: &str, stderr: &str) -> (output: ShellOutput)
        ensures
            output.success == (code == Some(0i32)),
            output.success == (output.exit_code == 0),
            output.exit_code == reported_code(code),
            output.stdout@ == truncated(stdout@, MAX_TOOL_OUTPUT_BYTES as int),
            output.stderr@ == truncated(stderr@, MAX_TOOL_OUTPUT_BYTES as int),
            output.summary@ == rendered(output.exit_code as int, output.stdout@, output.stderr@),
    {
        let result = ShellResult::assemble(code, stdout, stderr);
        let summary = result.format();
        ShellOutput {
            success: result.success,
            exit_code: result.exit_code,
            stdout: result.stdout,
            stderr: result.stderr,
            summary,
        }
    }
}

fn timed_out() -> (e: ShellError)
    ensures
        e.kind == ShellErrorKind::Timeout,
        e.message@ == timeout_reason(),
        e.exit_code == NO_EXIT_CODE,
{
    ShellError {
        message: String::from_str("Command timed out"),
        exit_code: NO_EXIT_CODE,
        kind: ShellErrorKind::Timeout,
    }
}

fn launch_failed(cause: &str) -> (e: ShellError)
    ensures
        e.kind == ShellErrorKind::LaunchFailure,
        e.message@ == launch_reason(cause@),
        e.exit_code == NO_EXIT_CODE,
{
    let mut message = String::from_str("Failed to execute command: ");
    message.append(cause);
    ShellError { message, exit_code: NO_EXIT_CODE, kind: ShellErrorKind::LaunchFailure }
}

/// The interpreter that runs a command text on `platform`, and the flag
/// that the text follows: `sh -c` on POSIX, `cmd /C` on Windows.
pub fn interpreter(platform: Platform) -> (launch: (&'static str, &'static str))
    ensures
        platform == Platform::Posix ==> launch.0@ == "sh"@ && launch.1@ == "-c"@,
        platform == Platform::Windows ==> launch.0@ == "cmd"@ && launch.1@ == "/C"@,
{
    match platform {
        Platform::Posix => ("sh", "-c"),
        Platform::Windows => ("cmd", "/C"),
    }
}

/// What to start for a trusted command: the command as it is, in the
/// directory given, with the fixed timeout. No policy is consulted.
pub fn trusted_invocation(command: &str, working_dir: Option<&str>) -> (invocation: Invocation)
    ensures
        invocation.command@ == command@,
        match working_dir {
            Some(dir) => invocation.working_dir matches Some(d) && d@ == dir@,
            None => invocation.working_dir is None,
        },
        invocation.timeout_seconds == TRUSTED_TIMEOUT_SECONDS,
{
    let dir = match working_dir {
        Some(dir) => Some(String::from_str(dir)),
        None => None,
    };
    Invocation {
        command: String::from_str(command),
        working_dir: dir,
        timeout_seconds: TRUSTED_TIMEOUT_SECONDS,
    }
}

impl ShellTool {
    /// The instance directory, as text.
    pub closed spec fn instance_text(&self) -> Seq<char> {
        self.instance_dir@
    }

    /// The workspace directory, as text.
    pub closed spec fn workspace_text(&self) -> Seq<char> {
        self.workspace@
    }

    /// A tool for the agent whose instance directory and workspace these are.
    pub fn new(instance_dir: String, workspace: String) -> (tool: ShellTool)
        ensures
            tool.instance_text() == instance_dir@,
            tool.workspace_text() == workspace@,
    {
        ShellTool { instance_dir, workspace }
    }

    /// The instance directory.
    pub fn instance_dir(&self) -> (dir: &str)
        ensures
            dir@ == self.instance_text(),
    {
        self.instance_dir.as_str()
    }

    /// The workspace directory.
    pub fn workspace(&self) -> (dir: &str)
        ensures
            dir@ == self.workspace_text(),
    {
        self.workspace.as_str()
    }

    /// The parameters that the tool announces: the command, which a call
    /// must give; the working directory; and the timeout, with the range
    /// that `clamp_timeout` enforces and the default of `default_timeout`.
    pub fn parameters() -> (params: Vec<ToolParameter>)
        ensures
            params@.len() == 3,
            params@[0].name@ == "command"@,
            params@[0].kind == ParameterKind::Text,
            params@[0].required,
            params@[1].name@ == "working_dir"@,
            params@[1].kind == ParameterKind::Text,
            !params@[1].required,
            params@[2].name@ == "timeout_seconds"@,
            params@[2].kind == ParameterKind::Integer,
            !params@[2].required,
            params@[2].minimum == Some(MIN_TIMEOUT_SECONDS),
            params@[2].maximum == Some(MAX_TIMEOUT_SECONDS),
            params@[2].default == Some(DEFAULT_TIMEOUT_SECONDS),
            forall|i: int|
                0 <= i < 2 ==> (#[trigger] params@[i]).minimum is None && params@[i].maximum is None
                    && params@[i].default is None,
            params@[0].description@
                == "The shell command to execute. This will be run with sh -c on Unix or cmd /C on Windows."@,
            params@[1].description@ == "Optional working directory where the command should run"@,
            params@[2].description@
                == "Maximum time to wait for the command to complete (1-300 seconds)"@,
    {
        let mut params: Vec<ToolParameter> = Vec::new();
        params.push(
            ToolParameter {
                name: "command",
                kind: ParameterKind::Text,
                description: "The shell command to execute. This will be run with sh -c on Unix or cmd /C on Windows.",
                required: true,
                minimum: None,
                maximum: None,
                default: None,
            },
        );
        params.push(
            ToolParameter {
                name: "working_dir",
                kind: ParameterKind::Text,
                description: "Optional working directory where the command should run",
                required: false,
                minimum: None,
                maximum: None,
                default: None,
            },
        );
        params.push(
            ToolParameter {
                name: "timeout_seconds",
                kind: ParameterKind::Integer,
                description: "Maximum time to wait for the command to complete (1-300 seconds)",
                required: false,
                minimum: Some(MIN_TIMEOUT_SECONDS),
                maximum: Some(MAX_TIMEOUT_SECONDS),
                default: Some(DEFAULT_TIMEOUT_SECONDS),
            },
        );
        params
    }

    /// Holds `command` against the policy: `Ok` where it is allowed, else
    /// the policy violation with the policy's reason.
    pub fn check_command(&self, command: &str) -> (r: Result<(), ShellError>)
        ensures
            match decide(command@, self.instance_text(), self.workspace_text()) {
                Verdict::Allow => r is Ok,
                Verdict::Deny { reason, classification } => fails_with(
                    r,
                    ShellErrorKind::PolicyViolation,
                    reason,
                ),
            },
    {
        match evaluate(command, self.instance_dir.as_str(), self.workspace.as_str()) {
            PolicyDecision::Allow => Ok(()),
            PolicyDecision::Deny { reason, classification: _ } => Err(
                ShellError {
                    message: reason,
                    exit_code: NO_EXIT_CODE,
                    kind: ShellErrorKind::PolicyViolation,
                },
            ),
        }
    }

    /// Holds a working directory against the workspace root, both as the
    /// paths to go by, read as paths of `platform`: `Ok` where the directory
    /// is the root or lies under it, else the path escape. The message names
    /// the workspace as configured.
    pub fn check_working_dir(&self, dir: &str, workspace_root: &str, platform: Platform) -> (r:
        Result<(), ShellError>)
        ensures
            path_within(platform, dir@, workspace_root@) ==> r is Ok,
            !path_within(platform, dir@, workspace_root@) ==> fails_with(
                r,
                ShellErrorKind::PathEscape,
                boundary_reason(self.workspace_text()),
            ),
    {
        if is_within(dir, workspace_root, platform) {
            Ok(())
        } else {
            let mut message = String::from_str("working_dir must be within the workspace (");
            message.append(self.workspace.as_str());
            message.append(").");
            Err(ShellError { message, exit_code: NO_EXIT_CODE, kind: ShellErrorKind::PathEscape })
        }
    }

    /// Decides what a request comes to before anything runs. The command is
    /// held against the policy first; then the working directory, where one
    /// is requested, against the workspace, each by its resolved form where
    /// it has one, read as paths of `platform`. A request that passes both
    /// gives the invocation: the command as it is, in the requested directory
    /// as written or else in the workspace, with the timeout brought into range.
    pub fn prepare(&self, args: &ShellArgs, resolved: &ResolvedPaths, platform: Platform) -> (r:
        Result<Invocation, ShellError>)
        ensures
            match decide(args.command@, self.instance_text(), self.workspace_text()) {
                Verdict::Deny { reason, classification } => fails_with(
                    r,
                    ShellErrorKind::PolicyViolation,
                    reason,
                ),
                Verdict::Allow => match args.working_dir {
                    Some(dir) => if path_within(
                        platform,
                        effective_path(dir@, resolved.working_dir),
                        effective_path(self.workspace_text(), resolved.workspace),
                    ) {
                        grants(r, args.command@, dir@, clamped(args.timeout_seconds as int))
                    } else {
                        fails_with(
                            r,
                            ShellErrorKind::PathEscape,
                            boundary_reason(self.workspace_text()),
                        )
                    },
                    None => grants(
                        r,
                        args.command@,
                        self.workspace_text(),
                        clamped(args.timeout_seconds as int),
                    ),
                },
            },
    {
        match self.check_command(args.command.as_str()) {
            Err(e) => {
                return Err(e);
            },
            Ok(_) => {},
        }
        let working_dir = match &args.working_dir {
            Some(dir) => {
                let dir_to_check = match &resolved.working_dir {
                    Some(canonical) => canonical.as_str(),
                    None => dir.as_str(),
                };
                let root_to_check = match &resolved.workspace {
                    Some(canonical) => canonical.as_str(),
                    None => self.workspace.as_str(),
                };
                match self.check_working_dir(dir_to_check, root_to_check, platform) {
                    Err(e) => {
                        return Err(e);
                    },
                    Ok(_) => {},
                }
                dir.clone()
            },
            None => self.workspace.clone(),
        };
        Ok(
            Invocation {
                command: args.command.clone(),
                working_dir: Some(working_dir),
                timeout_seconds: clamp_timeout(args.timeout_seconds),
            },
        )
    }

    /// Turns what running an invocation came to into the tool's answer. A
    /// process that ended gives an output, whatever its exit code: each
    /// stream's bytes as text, bounded, and the summary of both; the text is
    /// the decoding where the bytes are UTF-8 throughout. A timeout and a
    /// failed launch give an error.
    pub fn conclude(completion: Completion) -> (r: Result<ShellOutput, ShellError>)
        ensures
            match completion {
                Completion::Exited { code, stdout, stderr } => r matches Ok(output)
                    && output.success == (code == Some(0i32)) && output.exit_code
                    == reported_code(code) && output.stdout@ == truncated(
                    lossy_text(stdout@),
                    MAX_TOOL_OUTPUT_BYTES as int,
                ) && output.stderr@ == truncated(
                    lossy_text(stderr@),
                    MAX_TOOL_OUTPUT_BYTES as int,
                ) && output.summary@ == rendered(
                    output.exit_code as int,
                    output.stdout@,
                    output.stderr@,
                ) && (valid_utf8(stdout@) ==> output.stdout@ == truncated(
                    decode_utf8(stdout@),
                    MAX_TOOL_OUTPUT_BYTES as int,
                )) && (valid_utf8(stderr@) ==> output.stderr@ == truncated(
                    decode_utf8(stderr@),
                    MAX_TOOL_OUTPUT_BYTES as int,
                )),
                Completion::TimedOut => fails_with(r, ShellErrorKind::Timeout, timeout_reason()),
                Completion::LaunchFailed { cause } => fails_with(
                    r,
                    ShellErrorKind::LaunchFailure,
                    launch_reason(cause@),
                ),
            },
    {
        match completion {
            Completion::Exited { code, stdout, stderr } => {
                let out_text = decode_lossy(stdout.as_slice());
                let err_text = decode_lossy(stderr.as_slice());
                Ok(ShellOutput::assemble(code, out_text.as_str(), err_text.as_str()))
            },
            Completion::TimedOut => Err(timed_out()),
            Completion::LaunchFailed { cause } => Err(launch_failed(cause.as_str())),
        }
    }
}

} // verus!
