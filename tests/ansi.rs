use mise_sequencer::ensure_ansi_reset;

#[test]
fn test_ensure_ansi_reset_already_has_reset() {
    let line = "STDOUT: Some output\x1b[0m";
    let result = ensure_ansi_reset(line);
    assert_eq!(result, line);
}

#[test]
fn test_ensure_ansi_reset_missing_reset() {
    let line = "STDERR: Error message";
    let result = ensure_ansi_reset(line);
    assert_eq!(result, "STDERR: Error message\x1b[0m");
}

#[test]
fn test_ensure_ansi_reset_empty_string() {
    let line = "";
    let result = ensure_ansi_reset(line);
    assert_eq!(result, "\x1b[0m");
}

#[test]
fn test_ensure_ansi_reset_with_color_codes() {
    let line = "\x1b[31mSTDOUT: Red text\x1b[32m";
    let result = ensure_ansi_reset(line);
    assert_eq!(result, "\x1b[31mSTDOUT: Red text\x1b[32m\x1b[0m");
}

#[test]
fn test_ensure_ansi_reset_partial_escape_sequence() {
    let line = "Normal text\x1b[31";
    let result = ensure_ansi_reset(line);
    assert_eq!(result, "Normal text\x1b[31\x1b[0m");
}

#[test]
fn test_ensure_ansi_reset_multiple_resets_in_middle() {
    let line = "Text\x1b[0m more text";
    let result = ensure_ansi_reset(line);
    assert_eq!(result, "Text\x1b[0m more text\x1b[0m");
}

#[test]
fn test_ensure_ansi_reset_stdout_stderr_prefixes() {
    let stdout_line = "STDOUT: \x1b[32mSuccess message";
    let stderr_line = "STDERR: \x1b[31mError message";

    let stdout_result = ensure_ansi_reset(stdout_line);
    let stderr_result = ensure_ansi_reset(stderr_line);

    assert_eq!(stdout_result, "STDOUT: \x1b[32mSuccess message\x1b[0m");
    assert_eq!(stderr_result, "STDERR: \x1b[31mError message\x1b[0m");
}

#[test]
fn ansi_reset_of_short_lines() {
    assert_eq!(ensure_ansi_reset("m"), "m\x1b[0m");
    assert_eq!(ensure_ansi_reset("\x1b[0m"), "\x1b[0m");
    assert_eq!(ensure_ansi_reset("é\x1b[0m"), "é\x1b[0m");
}
