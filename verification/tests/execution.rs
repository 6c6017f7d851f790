use gitwrap::execution::{conclude, CommandError, Launch, ProcessOutput};

fn exited(code: Option<i32>, stdout: &str, stderr: &str) -> Launch {
    Launch::Exited { output: output(code, stdout, stderr) }
}

fn output(code: Option<i32>, stdout: &str, stderr: &str) -> ProcessOutput {
    ProcessOutput { code, stdout: String::from(stdout), stderr: String::from(stderr) }
}

#[test]
fn exit_code_zero_is_success_with_the_captured_output() {
    let result = conclude(exited(Some(0), "abc1234\n", "warning: something\n"));
    assert_eq!(result, Ok(output(Some(0), "abc1234\n", "warning: something\n")));
}

#[test]
fn non_zero_exit_carries_the_code_and_the_standard_error() {
    let result = conclude(exited(Some(128), "partial", "fatal: not a git repository\n"));
    assert_eq!(
        result,
        Err(CommandError::Exit {
            output: output(Some(128), "partial", "fatal: not a git repository\n"),
        })
    );
    match result {
        Err(CommandError::Exit { output }) => {
            assert_eq!(output.code, Some(128));
            assert_eq!(output.stderr, "fatal: not a git repository\n");
        }
        _ => panic!("expected an exit error"),
    }
}

#[test]
fn exit_code_one_and_negative_codes_are_exit_errors() {
    assert_eq!(
        conclude(exited(Some(1), "", "")),
        Err(CommandError::Exit { output: output(Some(1), "", "") })
    );
    assert_eq!(
        conclude(exited(Some(-1), "", "")),
        Err(CommandError::Exit { output: output(Some(-1), "", "") })
    );
    assert_eq!(
        conclude(exited(Some(i32::MIN), "", "")),
        Err(CommandError::Exit { output: output(Some(i32::MIN), "", "") })
    );
}

#[test]
fn a_process_that_ended_without_a_code_is_an_exit_error() {
    let result = conclude(exited(None, "", "killed"));
    assert_eq!(result, Err(CommandError::Exit { output: output(None, "", "killed") }));
}

#[test]
fn a_failed_launch_is_a_launch_error() {
    let result = conclude(Launch::Failed { reason: String::from("No such file or directory") });
    assert_eq!(
        result,
        Err(CommandError::Launch { reason: String::from("No such file or directory") })
    );
}

#[test]
fn a_failed_launch_is_never_a_success_nor_an_exit_error() {
    let result = conclude(Launch::Failed { reason: String::new() });
    assert!(matches!(result, Err(CommandError::Launch { .. })));
    assert!(!matches!(result, Ok(_)));
    assert!(!matches!(result, Err(CommandError::Exit { .. })));
}

#[test]
fn success_does_not_read_the_standard_error() {
    let result = conclude(exited(Some(0), "", "fatal: error: this text changes nothing"));
    assert_eq!(result, Ok(output(Some(0), "", "fatal: error: this text changes nothing")));
}
