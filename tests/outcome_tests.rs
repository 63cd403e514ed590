use debloat::{outcome_result, removal_command, CommandResult, ExecOutcome, ExecOutput};

fn exited(code: Option<i32>, stdout: &str, stderr: &str) -> ExecOutcome {
    ExecOutcome::Exited(ExecOutput {
        exit_code: code,
        stdout: stdout.to_string(),
        stderr: stderr.to_string(),
    })
}

#[test]
fn failure_reports_stderr() {
    let result = outcome_result(&exited(Some(1), "partial", "access denied"));
    assert_eq!(
        result,
        CommandResult {
            success: false,
            output: "partial".to_string(),
            error: Some("access denied".to_string()),
        }
    );
}

#[test]
fn failure_without_stderr_names_the_exit_code() {
    let result = outcome_result(&exited(Some(2), "", ""));
    assert!(!result.success);
    assert_eq!(result.error, Some("Command failed with exit code: 2".to_string()));
}

#[test]
fn negative_exit_code_is_written_with_its_sign() {
    let result = outcome_result(&exited(Some(-1073741510), "x", ""));
    assert_eq!(result.output, "x");
    assert_eq!(result.error, Some("Command failed with exit code: -1073741510".to_string()));
}

#[test]
fn missing_exit_code_is_a_failure() {
    let result = outcome_result(&exited(None, "", ""));
    assert!(!result.success);
    assert_eq!(result.error, Some("Command failed without an exit code".to_string()));
}

#[test]
fn launch_failure_keeps_its_message() {
    let result = outcome_result(&ExecOutcome::LaunchFailed("no such program".to_string()));
    assert_eq!(
        result,
        CommandResult {
            success: false,
            output: String::new(),
            error: Some("no such program".to_string()),
        }
    );
}

#[test]
fn removal_command_names_the_pattern_twice() {
    assert_eq!(
        removal_command("Microsoft.BingNews"),
        "Get-AppxPackage *Microsoft.BingNews* | Remove-AppxPackage -AllUsers; \
         Get-AppxProvisionedPackage -Online | Where-Object { $_.PackageName -like \
         '*Microsoft.BingNews*' } | Remove-AppxProvisionedPackage -Online -AllUsers"
    );
}

#[test]
fn removal_success_keeps_empty_output() {
    let command = removal_command("Microsoft.BingNews");
    assert!(command.starts_with("Get-AppxPackage *Microsoft.BingNews*"));
    let result = outcome_result(&exited(Some(0), "", ""));
    assert_eq!(result, CommandResult { success: true, output: String::new(), error: None });
}

#[test]
fn removal_reporting_not_found_with_nonzero_exit_fails() {
    let result = outcome_result(&exited(Some(1), "package not found", "error text"));
    assert_eq!(
        result,
        CommandResult {
            success: false,
            output: "package not found".to_string(),
            error: Some("error text".to_string()),
        }
    );
}

#[test]
fn removal_failure_without_stderr_names_the_exit_code() {
    let result = outcome_result(&exited(Some(1), "trace", ""));
    assert_eq!(
        result,
        CommandResult {
            success: false,
            output: "trace".to_string(),
            error: Some("Command failed with exit code: 1".to_string()),
        }
    );
}

#[test]
fn extreme_exit_codes_are_written_in_full() {
    let low = outcome_result(&exited(Some(i32::MIN), "", ""));
    assert_eq!(low.error, Some("Command failed with exit code: -2147483648".to_string()));
    let high = outcome_result(&exited(Some(i32::MAX), "", ""));
    assert_eq!(high.error, Some("Command failed with exit code: 2147483647".to_string()));
    let ten = outcome_result(&exited(Some(10), "", ""));
    assert_eq!(ten.error, Some("Command failed with exit code: 10".to_string()));
}
