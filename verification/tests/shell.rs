use agent_tools::paths::Platform;
use agent_tools::tools::shell::{
    clamp_timeout, default_timeout, interpreter, trusted_invocation, Completion, ResolvedPaths, ShellArgs, ShellError, ShellErrorKind, ShellOutput, ShellResult, ShellTool,
    DEFAULT_TIMEOUT_SECONDS, MAX_TIMEOUT_SECONDS, MIN_TIMEOUT_SECONDS, NO_EXIT_CODE,
    SHELL_TOOL_NAME, TRUSTED_TIMEOUT_SECONDS,
};
use agent_tools::tools::{ParameterKind, MAX_TOOL_OUTPUT_BYTES, TRUNCATION_MARKER};

fn tool() -> ShellTool {
    ShellTool::new("/home/u/.box".to_string(), "/tmp/ws".to_string())
}

fn args(command: &str, working_dir: Option<&str>, timeout_seconds: u64) -> ShellArgs {
    ShellArgs {
        command: command.to_string(),
        working_dir: working_dir.map(|d| d.to_string()),
        timeout_seconds,
    }
}

fn unresolved() -> ResolvedPaths {
    ResolvedPaths { working_dir: None, workspace: None }
}

fn exited(code: Option<i32>, stdout: &[u8], stderr: &[u8]) -> Completion {
    Completion::Exited { code, stdout: stdout.to_vec(), stderr: stderr.to_vec() }
}

fn expect_error(error: ShellError, kind: ShellErrorKind, message: &str) {
    assert_eq!(error.kind, kind);
    assert_eq!(error.message, message);
    assert_eq!(error.exit_code, -1);
}

#[test]
fn the_tool_keeps_its_directories() {
    let tool = tool();
    assert_eq!(tool.instance_dir(), "/home/u/.box");
    assert_eq!(tool.workspace(), "/tmp/ws");
    assert_eq!(SHELL_TOOL_NAME, "shell");
}

#[test]
fn the_timeout_constants() {
    assert_eq!(default_timeout(), 60);
    assert_eq!(DEFAULT_TIMEOUT_SECONDS, 60);
    assert_eq!(MIN_TIMEOUT_SECONDS, 1);
    assert_eq!(MAX_TIMEOUT_SECONDS, 300);
    assert_eq!(TRUSTED_TIMEOUT_SECONDS, 60);
    assert_eq!(NO_EXIT_CODE, -1);
}

#[test]
fn the_timeout_is_brought_into_range() {
    assert_eq!(clamp_timeout(0), 1);
    assert_eq!(clamp_timeout(1), 1);
    assert_eq!(clamp_timeout(60), 60);
    assert_eq!(clamp_timeout(300), 300);
    assert_eq!(clamp_timeout(301), 300);
    assert_eq!(clamp_timeout(u64::MAX), 300);
}

#[test]
fn an_allowed_command_passes_the_check() {
    assert!(tool().check_command("ls -la").is_ok());
}

#[test]
fn a_denied_command_fails_the_check_with_the_reason() {
    let error = tool().check_command("cat /home/u/.box/config.toml").unwrap_err();
    expect_error(
        error,
        ShellErrorKind::PolicyViolation,
        "Cannot access config.toml — instance configuration is protected.",
    );
    let error = tool().check_command("echo $OPENAI_API_KEY").unwrap_err();
    expect_error(error, ShellErrorKind::PolicyViolation, "Cannot access secret environment variables.");
    let error = tool().check_command("printenv").unwrap_err();
    expect_error(
        error,
        ShellErrorKind::PolicyViolation,
        "Cannot dump all environment variables — they may contain secrets.",
    );
}

#[test]
fn the_error_text_has_its_prefix() {
    let error = tool().check_command("env").unwrap_err();
    assert_eq!(
        error.to_text(),
        "Shell command failed: Cannot dump all environment variables — they may contain secrets."
    );
}

#[test]
fn a_directory_outside_the_workspace_is_rejected() {
    let error = tool().check_working_dir("/etc", "/tmp/ws", Platform::Posix).unwrap_err();
    expect_error(error, ShellErrorKind::PathEscape, "working_dir must be within the workspace (/tmp/ws).");
}

#[test]
fn the_workspace_and_what_lies_under_it_are_accepted() {
    let tool = tool();
    assert!(tool.check_working_dir("/tmp/ws", "/tmp/ws", Platform::Posix).is_ok());
    assert!(tool.check_working_dir("/tmp/ws/", "/tmp/ws", Platform::Posix).is_ok());
    assert!(tool.check_working_dir("/tmp/ws/a/b", "/tmp/ws", Platform::Posix).is_ok());
    assert!(tool.check_working_dir("/tmp/wsx", "/tmp/ws", Platform::Posix).is_err());
}

#[test]
fn the_message_names_the_workspace_as_configured() {
    let error = tool().check_working_dir("/etc", "/private/tmp/ws", Platform::Posix).unwrap_err();
    assert_eq!(error.message, "working_dir must be within the workspace (/tmp/ws).");
}

#[test]
fn a_request_without_a_directory_runs_in_the_workspace() {
    let invocation = tool().prepare(&args("ls -la", None, 60), &unresolved(), Platform::Posix).unwrap();
    assert_eq!(invocation.command, "ls -la");
    assert_eq!(invocation.working_dir.as_deref(), Some("/tmp/ws"));
    assert_eq!(invocation.timeout_seconds, 60);
}

#[test]
fn a_request_runs_in_the_directory_as_written() {
    let resolved = ResolvedPaths {
        working_dir: Some("/private/tmp/ws/sub".to_string()),
        workspace: Some("/private/tmp/ws".to_string()),
    };
    let invocation = tool().prepare(&args("make", Some("/tmp/ws/sub"), 5), &resolved, Platform::Posix).unwrap();
    assert_eq!(invocation.command, "make");
    assert_eq!(invocation.working_dir.as_deref(), Some("/tmp/ws/sub"));
    assert_eq!(invocation.timeout_seconds, 5);
}

#[test]
fn the_timeout_of_a_request_is_brought_into_range() {
    let tool = tool();
    assert_eq!(tool.prepare(&args("ls", None, 0), &unresolved(), Platform::Posix).unwrap().timeout_seconds, 1);
    assert_eq!(tool.prepare(&args("ls", None, 100_000), &unresolved(), Platform::Posix).unwrap().timeout_seconds, 300);
}

#[test]
fn a_denied_request_is_never_prepared() {
    let error = tool().prepare(&args("echo $OPENAI_API_KEY", None, 60), &unresolved(), Platform::Posix).unwrap_err();
    expect_error(error, ShellErrorKind::PolicyViolation, "Cannot access secret environment variables.");
}

#[test]
fn the_policy_comes_before_the_directory() {
    let error = tool().prepare(&args("printenv", Some("/etc"), 60), &unresolved(), Platform::Posix).unwrap_err();
    assert_eq!(error.kind, ShellErrorKind::PolicyViolation);
}

#[test]
fn a_request_for_a_directory_outside_is_rejected() {
    let error = tool().prepare(&args("ls", Some("/etc"), 60), &unresolved(), Platform::Posix).unwrap_err();
    expect_error(error, ShellErrorKind::PathEscape, "working_dir must be within the workspace (/tmp/ws).");
}

#[test]
fn the_resolved_directory_decides() {
    let tool = tool();
    let request = args("ls", Some("/tmp/ws/../../etc"), 60);
    assert!(tool.prepare(&request, &unresolved(), Platform::Posix).is_ok());
    let resolved = ResolvedPaths { working_dir: Some("/etc".to_string()), workspace: None };
    let error = tool.prepare(&request, &resolved, Platform::Posix).unwrap_err();
    assert_eq!(error.kind, ShellErrorKind::PathEscape);
}

#[test]
fn the_resolved_workspace_decides() {
    let tool = tool();
    let request = args("ls", Some("/tmp/ws/sub"), 60);
    let resolved = ResolvedPaths {
        working_dir: Some("/private/tmp/ws/sub".to_string()),
        workspace: None,
    };
    assert_eq!(tool.prepare(&request, &resolved, Platform::Posix).unwrap_err().kind, ShellErrorKind::PathEscape);
    let resolved = ResolvedPaths {
        working_dir: Some("/private/tmp/ws/sub".to_string()),
        workspace: Some("/private/tmp/ws".to_string()),
    };
    assert!(tool.prepare(&request, &resolved, Platform::Posix).is_ok());
}

#[test]
fn a_process_that_succeeded_gives_an_output() {
    let output = ShellTool::conclude(exited(Some(0), b"total 0\n", b"")).unwrap();
    assert!(output.success);
    assert_eq!(output.exit_code, 0);
    assert_eq!(output.stdout, "total 0\n");
    assert_eq!(output.stderr, "");
    assert!(output.summary.starts_with("Exit code: 0"));
    assert_eq!(output.summary, "Exit code: 0\n\n--- STDOUT ---\ntotal 0\n");
}

#[test]
fn a_process_that_failed_gives_an_output_too() {
    let output = ShellTool::conclude(exited(Some(2), b"", b"no such file\n")).unwrap();
    assert!(!output.success);
    assert_eq!(output.exit_code, 2);
    assert_eq!(output.summary, "Exit code: 2\n\n--- STDERR ---\nno such file\n");
}

#[test]
fn a_process_without_an_exit_code_reports_minus_one() {
    let output = ShellTool::conclude(exited(None, b"", b"")).unwrap();
    assert!(!output.success);
    assert_eq!(output.exit_code, -1);
    assert_eq!(output.summary, "Exit code: -1\n\n[No output]\n");
}

#[test]
fn bytes_that_are_not_text_are_replaced() {
    let output = ShellTool::conclude(exited(Some(0), b"a\xffb", b"\xc3\xa9\xc3")).unwrap();
    assert_eq!(output.stdout, "a\u{fffd}b");
    assert_eq!(output.stderr, "é\u{fffd}");
}

#[test]
fn each_stream_is_bounded_by_itself() {
    let long = vec![b'x'; MAX_TOOL_OUTPUT_BYTES + 10];
    let output = ShellTool::conclude(exited(Some(0), &long, b"short")).unwrap();
    assert_eq!(output.stdout.len(), MAX_TOOL_OUTPUT_BYTES + TRUNCATION_MARKER.len());
    assert!(output.stdout.ends_with(TRUNCATION_MARKER));
    assert_eq!(output.stderr, "short");
    let output = ShellTool::conclude(exited(Some(0), b"short", &long)).unwrap();
    assert_eq!(output.stdout, "short");
    assert_eq!(output.stderr.len(), MAX_TOOL_OUTPUT_BYTES + TRUNCATION_MARKER.len());
    let exact = vec![b'y'; MAX_TOOL_OUTPUT_BYTES];
    let output = ShellTool::conclude(exited(Some(0), &exact, b"")).unwrap();
    assert_eq!(output.stdout.len(), MAX_TOOL_OUTPUT_BYTES);
}

#[test]
fn the_summary_is_rendered_from_the_bounded_streams() {
    let long = vec![b'x'; MAX_TOOL_OUTPUT_BYTES + 10];
    let output = ShellTool::conclude(exited(Some(0), &long, b"")).unwrap();
    assert_eq!(output.summary, format!("Exit code: 0\n\n--- STDOUT ---\n{}", output.stdout));
}

#[test]
fn a_timeout_is_an_error() {
    let error = ShellTool::conclude(Completion::TimedOut).unwrap_err();
    expect_error(error, ShellErrorKind::Timeout, "Command timed out");
}

#[test]
fn a_failed_launch_is_an_error() {
    let completion = Completion::LaunchFailed { cause: "No such file or directory (os error 2)".to_string() };
    let error = ShellTool::conclude(completion).unwrap_err();
    expect_error(
        error,
        ShellErrorKind::LaunchFailure,
        "Failed to execute command: No such file or directory (os error 2)",
    );
}

#[test]
fn an_output_is_assembled_from_text() {
    let output: ShellOutput = ShellOutput::assemble(Some(3), "out", "err");
    assert!(!output.success);
    assert_eq!(output.exit_code, 3);
    assert_eq!(output.summary, "Exit code: 3\n\n--- STDOUT ---\nout\n--- STDERR ---\nerr");
}

#[test]
fn a_trusted_command_is_not_held_against_the_policy() {
    let invocation = trusted_invocation("cat /home/u/.box/config.toml; printenv", None);
    assert_eq!(invocation.command, "cat /home/u/.box/config.toml; printenv");
    assert_eq!(invocation.working_dir, None);
    assert_eq!(invocation.timeout_seconds, 60);
    let invocation = trusted_invocation("ls", Some("/etc"));
    assert_eq!(invocation.working_dir.as_deref(), Some("/etc"));
}

#[test]
fn a_trusted_result_is_formatted_like_an_output() {
    let result = ShellResult::from_completion(exited(Some(0), b"hi\n", b"")).unwrap();
    assert!(result.success);
    assert_eq!(result.exit_code, 0);
    assert_eq!(result.stdout, "hi\n");
    assert_eq!(result.format(), "Exit code: 0\n\n--- STDOUT ---\nhi\n");
    let result = ShellResult { success: false, exit_code: 1, stdout: String::new(), stderr: "bad".to_string() };
    assert_eq!(result.format(), "Exit code: 1\n\n--- STDERR ---\nbad");
}

#[test]
fn a_trusted_command_can_fail_too() {
    let error = ShellResult::from_completion(Completion::TimedOut).unwrap_err();
    expect_error(error, ShellErrorKind::Timeout, "Command timed out");
    let error =
        ShellResult::from_completion(Completion::LaunchFailed { cause: "denied".to_string() }).unwrap_err();
    expect_error(error, ShellErrorKind::LaunchFailure, "Failed to execute command: denied");
    let result = ShellResult::from_completion(exited(None, b"\xff", b"")).unwrap();
    assert_eq!(result.exit_code, -1);
    assert_eq!(result.stdout, "\u{fffd}");
}

#[test]
fn the_interpreter_of_each_platform() {
    assert_eq!(interpreter(Platform::Posix), ("sh", "-c"));
    assert_eq!(interpreter(Platform::Windows), ("cmd", "/C"));
}

#[test]
fn the_announced_parameters() {
    let params = ShellTool::parameters();
    assert_eq!(params.len(), 3);
    assert_eq!(params[0].name, "command");
    assert_eq!(params[0].kind, ParameterKind::Text);
    assert!(params[0].required);
    assert_eq!(params[1].name, "working_dir");
    assert!(!params[1].required);
    assert_eq!(params[2].name, "timeout_seconds");
    assert_eq!(params[2].kind, ParameterKind::Integer);
    assert!(!params[2].required);
    assert_eq!(params[2].minimum, Some(1));
    assert_eq!(params[2].maximum, Some(300));
    assert_eq!(params[2].default, Some(60));
    assert_eq!(params[2].description, "Maximum time to wait for the command to complete (1-300 seconds)");
}

#[test]
fn a_denied_command_behind_a_pipe() {
    let tool = ShellTool::new("/home/u/.box".to_string(), "/home/u/proj".to_string());
    let error = tool.check_command("ls | env").unwrap_err();
    expect_error(
        error,
        ShellErrorKind::PolicyViolation,
        "Cannot dump all environment variables — they may contain secrets.",
    );
}

#[test]
fn a_windows_request_is_read_by_its_separators() {
    let tool = ShellTool::new("C:\\box".to_string(), "C:\\ws".to_string());
    let request = args("dir", Some("C:\\ws\\sub"), 60);
    let invocation = tool.prepare(&request, &unresolved(), Platform::Windows).unwrap();
    assert_eq!(invocation.working_dir.as_deref(), Some("C:\\ws\\sub"));
    let error = tool.prepare(&request, &unresolved(), Platform::Posix).unwrap_err();
    assert_eq!(error.kind, ShellErrorKind::PathEscape);
    let outside = args("dir", Some("C:\\Windows"), 60);
    let error = tool.prepare(&outside, &unresolved(), Platform::Windows).unwrap_err();
    expect_error(error, ShellErrorKind::PathEscape, "working_dir must be within the workspace (C:\\ws).");
    assert!(tool.check_working_dir("C:\\ws\\a", "C:\\ws", Platform::Windows).is_ok());
}

#[test]
fn text_that_is_utf8_is_decoded_as_it_is() {
    let output = ShellTool::conclude(exited(Some(0), "héllo €\n".as_bytes(), b"hi")).unwrap();
    assert_eq!(output.stdout, "héllo €\n");
    assert_eq!(output.stderr, "hi");
    let result = ShellResult::from_completion(exited(Some(0), b"hi", "ü".as_bytes())).unwrap();
    assert_eq!(result.stdout, "hi");
    assert_eq!(result.stderr, "ü");
}
