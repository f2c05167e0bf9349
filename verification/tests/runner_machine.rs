use watchd::runner::{run_begin, run_step, CmdOutcome, RunAction};

#[test]
fn commands_run_in_order_on_success() {
    let (run, action) = run_begin(3, false);
    assert_eq!(action, RunAction::Launch(0));
    let (run, action) = run_step(run, CmdOutcome::Exited { success: true });
    assert_eq!(action, RunAction::Launch(1));
    let (run, action) = run_step(run, CmdOutcome::Exited { success: true });
    assert_eq!(action, RunAction::Launch(2));
    let (_, action) = run_step(run, CmdOutcome::Exited { success: true });
    assert_eq!(action, RunAction::Finished);
}

#[test]
fn nonzero_exit_skips_remaining_commands() {
    let (run, action) = run_begin(3, false);
    assert_eq!(action, RunAction::Launch(0));
    let (run, action) = run_step(run, CmdOutcome::Exited { success: false });
    assert_eq!(action, RunAction::Finished);
    let (_, action) = run_step(run, CmdOutcome::Exited { success: true });
    assert_eq!(action, RunAction::Finished);
}

#[test]
fn next_run_starts_from_first_command_again() {
    let (run, _) = run_begin(3, false);
    let (_, action) = run_step(run, CmdOutcome::Exited { success: false });
    assert_eq!(action, RunAction::Finished);
    let (_, action) = run_begin(3, false);
    assert_eq!(action, RunAction::Launch(0));
}

#[test]
fn middle_command_failure_short_circuits() {
    let (run, action) = run_begin(3, false);
    assert_eq!(action, RunAction::Launch(0));
    let (run, action) = run_step(run, CmdOutcome::Exited { success: true });
    assert_eq!(action, RunAction::Launch(1));
    let (_, action) = run_step(run, CmdOutcome::Exited { success: false });
    assert_eq!(action, RunAction::Finished);
}

#[test]
fn dry_run_only_logs() {
    let (run, action) = run_begin(3, true);
    assert_eq!(action, RunAction::LogDryRun);
    let (_, action) = run_step(run, CmdOutcome::Exited { success: true });
    assert_eq!(action, RunAction::Finished);
}

#[test]
fn dry_run_with_no_commands_only_logs() {
    let (_, action) = run_begin(0, true);
    assert_eq!(action, RunAction::LogDryRun);
}

#[test]
fn empty_command_list_finishes_at_once() {
    let (_, action) = run_begin(0, false);
    assert_eq!(action, RunAction::Finished);
}

#[test]
fn launch_failure_aborts_the_cycle() {
    let (run, action) = run_begin(2, false);
    assert_eq!(action, RunAction::Launch(0));
    let (_, action) = run_step(run, CmdOutcome::LaunchFailed);
    assert_eq!(action, RunAction::Abort);
}
