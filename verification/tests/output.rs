use agent_tools::tools::shell::format_shell_output;
use agent_tools::tools::{truncate_output, MAX_TOOL_OUTPUT_BYTES, TRUNCATION_MARKER};

#[test]
fn the_bound_and_the_marker() {
    assert_eq!(MAX_TOOL_OUTPUT_BYTES, 50_000);
    assert_eq!(TRUNCATION_MARKER, "\n... [output truncated]");
}

#[test]
fn what_fits_is_unchanged() {
    assert_eq!(truncate_output("", 0), "");
    assert_eq!(truncate_output("hello", 5), "hello");
    assert_eq!(truncate_output("hello", 100), "hello");
    assert_eq!(truncate_output("héllo", 6), "héllo");
}

#[test]
fn what_does_not_fit_is_cut_and_marked() {
    assert_eq!(truncate_output("hello", 4), "hell\n... [output truncated]");
    assert_eq!(truncate_output("hello", 0), "\n... [output truncated]");
}

#[test]
fn the_cut_falls_on_a_character_boundary() {
    assert_eq!(truncate_output("héllo", 2), "h\n... [output truncated]");
    assert_eq!(truncate_output("héllo", 3), "hé\n... [output truncated]");
    assert_eq!(truncate_output("😀😀", 7), "😀\n... [output truncated]");
    assert_eq!(truncate_output("😀😀", 3), "\n... [output truncated]");
    assert_eq!(truncate_output("€uro", 1), "\n... [output truncated]");
}

#[test]
fn the_result_is_never_longer_than_bound_and_marker() {
    let value = "aé😀€z".repeat(50);
    for max in 0..value.len() + 3 {
        let out = truncate_output(&value, max);
        assert!(out.len() <= max + TRUNCATION_MARKER.len());
        if value.len() <= max {
            assert_eq!(out, value);
        } else {
            let kept = out.strip_suffix(TRUNCATION_MARKER).unwrap();
            assert!(value.starts_with(kept));
            assert!(kept.len() <= max);
            assert!(kept.len() + 4 > max);
        }
    }
}

#[test]
fn an_outcome_without_output_is_marked_so() {
    assert_eq!(format_shell_output(0, "", ""), "Exit code: 0\n\n[No output]\n");
}

#[test]
fn only_the_streams_that_hold_something_are_rendered() {
    assert_eq!(format_shell_output(0, "a\nb\n", ""), "Exit code: 0\n\n--- STDOUT ---\na\nb\n");
    assert_eq!(format_shell_output(2, "", "oops"), "Exit code: 2\n\n--- STDERR ---\noops");
    assert_eq!(
        format_shell_output(-1, "out", "err"),
        "Exit code: -1\n\n--- STDOUT ---\nout\n--- STDERR ---\nerr"
    );
}

#[test]
fn the_exit_code_is_written_in_decimal() {
    for code in [0, 7, 10, 127, 255, 256, -1, -15, i32::MAX, i32::MIN] {
        assert_eq!(format_shell_output(code, "", ""), format!("Exit code: {code}\n\n[No output]\n"));
    }
}
