use debloat::{
    outcome_result, reconcile, BatchExecutor, InstalledPackageRecord, CatalogEntry, CatalogError, CommandResult, ExecOutcome,
    ExecOutput, Mode, OperationRequest,
};

fn entry(id: &str, primary: &str, rollback: Option<&str>) -> CatalogEntry {
    CatalogEntry {
        id: id.to_string(),
        name: id.to_string(),
        description: String::new(),
        category: String::new(),
        safe: true,
        primary_action: primary.to_string(),
        rollback_action: rollback.map(|r| r.to_string()),
        match_pattern: id.to_string(),
    }
}

fn request(id: &str, mode: Mode) -> OperationRequest {
    OperationRequest { entry_id: id.to_string(), mode }
}

fn exited(code: i32, stdout: &str, stderr: &str) -> ExecOutcome {
    ExecOutcome::Exited(ExecOutput {
        exit_code: Some(code),
        stdout: stdout.to_string(),
        stderr: stderr.to_string(),
    })
}

/// Runs a batch, answering each command with `run`; returns the results and
/// the commands in the order they were handed out.
fn run_batch(
    catalog: Vec<CatalogEntry>,
    requests: Vec<OperationRequest>,
    run: impl Fn(&str) -> ExecOutcome,
) -> (Vec<CommandResult>, Vec<String>) {
    let mut batch = BatchExecutor::new(catalog, requests).unwrap();
    let mut commands = Vec::new();
    while let Some(command) = batch.next_command() {
        let outcome = run(&command);
        commands.push(command);
        batch.record_outcome(outcome);
    }
    (batch.finish(), commands)
}

#[test]
fn end_to_end_single_removal() {
    let mut foo = entry("a", "remove foo", None);
    foo.match_pattern = "Foo".to_string();
    let catalog = vec![foo];
    let installed = vec![InstalledPackageRecord {
        identifier: "foo.bar".to_string(),
        display_name: String::new(),
        version: String::new(),
        publisher: String::new(),
    }];
    let reconciled = reconcile(&catalog, &installed).unwrap();
    assert_eq!(reconciled.len(), 1);
    assert_eq!(reconciled[0].entry.id, "a");
    assert!(reconciled[0].is_installed);
    let (results, commands) =
        run_batch(catalog, vec![request("a", Mode::Normal)], |_| exited(0, "done", ""));
    assert_eq!(commands, vec!["remove foo".to_string()]);
    assert_eq!(
        results,
        vec![CommandResult { success: true, output: "done".to_string(), error: None }]
    );
}

#[test]
fn failures_do_not_stop_the_batch() {
    let catalog = vec![
        entry("a", "run a", None),
        entry("b", "run b", None),
        entry("c", "run c", None),
    ];
    let requests = vec![
        request("a", Mode::Normal),
        request("b", Mode::Normal),
        request("c", Mode::Normal),
    ];
    let (results, commands) = run_batch(catalog, requests, |command| {
        if command == "run b" {
            exited(0, "ok", "")
        } else {
            exited(1, "", "boom")
        }
    });
    assert_eq!(commands, vec!["run a", "run b", "run c"]);
    let flags: Vec<bool> = results.iter().map(|r| r.success).collect();
    assert_eq!(flags, vec![false, true, false]);
    assert_eq!(results[0].error, Some("boom".to_string()));
    assert_eq!(results[1].output, "ok");
}

#[test]
fn rollback_without_action_fails_locally() {
    let catalog = vec![entry("a", "remove a", None)];
    let (results, commands) =
        run_batch(catalog, vec![request("a", Mode::Rollback)], |_| exited(0, "ran", ""));
    assert!(commands.is_empty());
    assert_eq!(
        results,
        vec![CommandResult {
            success: false,
            output: String::new(),
            error: Some("no rollback available".to_string()),
        }]
    );
}

#[test]
fn rollback_runs_the_rollback_action() {
    let catalog = vec![entry("a", "remove a", Some("restore a"))];
    let (results, commands) =
        run_batch(catalog, vec![request("a", Mode::Rollback)], |_| exited(0, "back", ""));
    assert_eq!(commands, vec!["restore a"]);
    assert!(results[0].success);
    assert_eq!(results[0].output, "back");
}

#[test]
fn unknown_id_fails_in_place() {
    let catalog = vec![entry("a", "run a", None), entry("b", "run b", None)];
    let requests = vec![
        request("a", Mode::Normal),
        request("missing", Mode::Normal),
        request("b", Mode::Normal),
    ];
    let (results, commands) = run_batch(catalog, requests, |_| exited(0, "fine", ""));
    assert_eq!(commands, vec!["run a", "run b"]);
    assert_eq!(results.len(), 3);
    assert!(results[0].success);
    assert_eq!(
        results[1],
        CommandResult {
            success: false,
            output: String::new(),
            error: Some("entry not found".to_string()),
        }
    );
    assert!(results[2].success);
}

#[test]
fn empty_batch_gives_no_results() {
    let catalog = vec![entry("a", "run a", None)];
    let (results, commands) = run_batch(catalog, Vec::new(), |_| exited(0, "", ""));
    assert!(results.is_empty());
    assert!(commands.is_empty());
}

#[test]
fn results_follow_request_order() {
    let catalog = vec![entry("a", "run a", None), entry("b", "run b", None)];
    let requests = vec![
        request("b", Mode::Normal),
        request("a", Mode::Normal),
        request("b", Mode::Normal),
        request("a", Mode::Normal),
    ];
    let (results, commands) = run_batch(catalog, requests, |command| exited(0, command, ""));
    assert_eq!(commands, vec!["run b", "run a", "run b", "run a"]);
    let outputs: Vec<&str> = results.iter().map(|r| r.output.as_str()).collect();
    assert_eq!(outputs, vec!["run b", "run a", "run b", "run a"]);
}

#[test]
fn launch_failure_is_reported_in_place() {
    let catalog = vec![entry("a", "run a", None), entry("b", "run b", None)];
    let requests = vec![request("a", Mode::Normal), request("b", Mode::Normal)];
    let (results, _) = run_batch(catalog, requests, |command| {
        if command == "run a" {
            ExecOutcome::LaunchFailed("interpreter missing".to_string())
        } else {
            exited(0, "ok", "")
        }
    });
    assert_eq!(
        results[0],
        CommandResult {
            success: false,
            output: String::new(),
            error: Some("interpreter missing".to_string()),
        }
    );
    assert!(results[1].success);
}

#[test]
fn batch_with_duplicate_ids_is_refused() {
    let catalog = vec![entry("a", "run a", None), entry("a", "run again", None)];
    let result = BatchExecutor::new(catalog, vec![request("a", Mode::Normal)]);
    assert!(matches!(result, Err(CatalogError::DuplicateId(ref id)) if id == "a"));
}

#[test]
fn outcome_of_one_command() {
    let result = outcome_result(&exited(0, "all good", "ignored"));
    assert_eq!(
        result,
        CommandResult { success: true, output: "all good".to_string(), error: None }
    );
}

#[test]
fn removing_an_unknown_request_leaves_the_others_alone() {
    let catalog = vec![entry("a", "run a", None), entry("b", "run b", Some("undo b"))];
    let with_unknown = vec![
        request("a", Mode::Normal),
        request("ghost", Mode::Normal),
        request("b", Mode::Rollback),
    ];
    let without = vec![request("a", Mode::Normal), request("b", Mode::Rollback)];
    let run = |command: &str| exited(if command == "run a" { 3 } else { 0 }, command, "");
    let (full, _) = run_batch(catalog.clone(), with_unknown, run);
    let (short, _) = run_batch(catalog, without, run);
    assert_eq!(full.len(), 3);
    assert_eq!(full[0], short[0]);
    assert_eq!(full[2], short[1]);
    assert_eq!(full[1].error, Some("entry not found".to_string()));
}
