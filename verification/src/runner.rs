//! Command-run sequencing: one run cycle over an entry's command list.
//!
//! The commands themselves are executed by the surrounding process through a
//! shell; this module decides which command to launch next. A run starts
//! with [`run_begin`]; whenever the returned action is a launch, the caller
//! executes that command, observes its outcome and hands it to [`run_step`]
//! for the next action. A non-zero exit ends the cycle early without being
//! an error; a failure to launch at all is fatal to the entry's handler
//! thread. In dry-run mode nothing is ever launched: the one action is to
//! log the command list.

use vstd::prelude::*;

verus! {

/// The state of one run cycle over a command list of length `total`.
#[derive(Clone, Copy, PartialEq, Eq, Structural, Debug)]
pub struct Run {
    /// How many commands the entry has.
    pub total: usize,
    /// The index of the next command to launch, if the cycle goes on.
    pub next: usize,
    /// The cycle is over; no further command is launched.
    pub halted: bool,
}

/// What the caller must do next in a run cycle.
#[derive(Clone, Copy, PartialEq, Eq, Structural, Debug)]
pub enum RunAction {
    /// Launch the command with this index, then report its outcome.
    Launch(usize),
    /// Dry run: log the whole command list as would-run; nothing executes.
    LogDryRun,
    /// The cycle is complete; the handler returns to waiting.
    Finished,
    /// The command could not be launched at all; the handler thread ends.
    Abort,
}

/// What the caller observed for one launched command.
#[derive(Clone, Copy, PartialEq, Eq, Structural, Debug)]
pub enum CmdOutcome {
    /// The process ran; `success` is whether it exited with status zero.
    Exited { success: bool },
    /// The process could not even be spawned.
    LaunchFailed,
}

/// The state and first action of a fresh run cycle.
pub open spec fn spec_run_begin(total: usize, dry_run: bool) -> (Run, RunAction) {
    if dry_run {
        (Run { total, next: 0, halted: true }, RunAction::LogDryRun)
    } else if total == 0 {
        (Run { total, next: 0, halted: true }, RunAction::Finished)
    } else {
        (Run { total, next: 1, halted: false }, RunAction::Launch(0))
    }
}

/// The state and action after one launched command's outcome. A halted run
/// stays halted and asks for nothing further.
pub open spec fn spec_run_step(run: Run, outcome: CmdOutcome) -> (Run, RunAction) {
    if run.halted {
        (run, RunAction::Finished)
    } else {
        match outcome {
            CmdOutcome::LaunchFailed => (
                Run { halted: true, ..run },
                RunAction::Abort,
            ),
            CmdOutcome::Exited { success } => {
                if !success {
                    (Run { halted: true, ..run }, RunAction::Finished)
                } else if run.next < run.total {
                    (
                        Run { next: (run.next + 1) as usize, ..run },
                        RunAction::Launch(run.next),
                    )
                } else {
                    (Run { halted: true, ..run }, RunAction::Finished)
                }
            },
        }
    }
}

/// A run state is well formed when its launch cursor never passes the list.
pub open spec fn spec_run_wf(run: Run) -> bool {
    run.next <= run.total
}

/// Begin one run cycle over `total` commands.
pub fn run_begin(total: usize, dry_run: bool) -> (r: (Run, RunAction))
    ensures
        r == spec_run_begin(total, dry_run),
        spec_run_wf(r.0),
{
    if dry_run {
        (Run { total, next: 0, halted: true }, RunAction::LogDryRun)
    } else if total == 0 {
        (Run { total, next: 0, halted: true }, RunAction::Finished)
    } else {
        (Run { total, next: 1, halted: false }, RunAction::Launch(0))
    }
}

/// Advance one run cycle by the outcome of the command just launched.
pub fn run_step(run: Run, outcome: CmdOutcome) -> (r: (Run, RunAction))
    requires
        spec_run_wf(run),
    ensures
        r == spec_run_step(run, outcome),
        spec_run_wf(r.0),
{
    if run.halted {
        (run, RunAction::Finished)
    } else {
        match outcome {
            CmdOutcome::LaunchFailed => (Run { halted: true, ..run }, RunAction::Abort),
            CmdOutcome::Exited { success } => {
                if !success {
                    (Run { halted: true, ..run }, RunAction::Finished)
                } else if run.next < run.total {
                    (Run { next: run.next + 1, ..run }, RunAction::Launch(run.next))
                } else {
                    (Run { halted: true, ..run }, RunAction::Finished)
                }
            },
        }
    }
}

/// The whole sequence of actions a run cycle asks for, starting from state
/// `run` with `action` just issued, when the launched commands' outcomes are
/// `outcomes` in order. The sequence ends with the first action that is not
/// a launch; outcomes beyond those consumed are ignored.
pub open spec fn spec_run_actions(
    run: Run,
    action: RunAction,
    outcomes: Seq<CmdOutcome>,
) -> Seq<RunAction>
    decreases outcomes.len(),
{
    if !(action is Launch) || outcomes.len() == 0 {
        seq![action]
    } else {
        let stepped = spec_run_step(run, outcomes[0]);
        seq![action] + spec_run_actions(stepped.0, stepped.1, outcomes.skip(1))
    }
}

/// The actions of one whole run cycle over `total` commands.
pub open spec fn spec_cycle_actions(
    total: usize,
    dry_run: bool,
    outcomes: Seq<CmdOutcome>,
) -> Seq<RunAction> {
    let begun = spec_run_begin(total, dry_run);
    spec_run_actions(begun.0, begun.1, outcomes)
}

/// Short-circuit: when the first command of a non-empty list exits non-zero,
/// the cycle launches that command alone and finishes; every later command
/// is skipped for this run. A fresh cycle always starts again from the first
/// command, as `spec_run_begin` states.
pub proof fn lemma_run_short_circuit(total: usize, outcomes: Seq<CmdOutcome>)
    requires
        total >= 1,
        outcomes.len() >= 1,
        outcomes[0] == (CmdOutcome::Exited { success: false }),
    ensures
        spec_cycle_actions(total, false, outcomes)
            == seq![RunAction::Launch(0), RunAction::Finished],
{
    let begun = spec_run_begin(total, false);
    let stepped = spec_run_step(begun.0, outcomes[0]);
    assert(stepped.1 == RunAction::Finished);
    assert(spec_run_actions(stepped.0, stepped.1, outcomes.skip(1))
        == seq![RunAction::Finished]);
    assert(spec_cycle_actions(total, false, outcomes)
        =~= seq![RunAction::Launch(0), RunAction::Finished]);
}

/// In-order execution: when every command exits with status zero, the cycle
/// launches every command once, first to last, and then finishes.
pub proof fn lemma_run_in_order(total: usize, outcomes: Seq<CmdOutcome>)
    requires
        outcomes.len() >= total,
        forall|i: int| 0 <= i < outcomes.len()
            ==> outcomes[i] == (CmdOutcome::Exited { success: true }),
    ensures
        spec_cycle_actions(total, false, outcomes)
            == Seq::new(total as nat, |i: int| RunAction::Launch(i as usize))
                .push(RunAction::Finished),
{
    let launches = Seq::new(total as nat, |i: int| RunAction::Launch(i as usize));
    if total == 0 {
        assert(spec_cycle_actions(total, false, outcomes) =~= launches.push(
            RunAction::Finished,
        ));
    } else {
        let begun = spec_run_begin(total, false);
        lemma_run_in_order_from(begun.0, outcomes);
        assert(spec_cycle_actions(total, false, outcomes) =~= launches.push(
            RunAction::Finished,
        ));
    }
}

/// Helper for [`lemma_run_in_order`]: from a live cursor at `run.next`, all
/// successes launch the commands `run.next - 1` through `total - 1` and
/// finish.
proof fn lemma_run_in_order_from(run: Run, outcomes: Seq<CmdOutcome>)
    requires
        spec_run_wf(run),
        !run.halted,
        1 <= run.next,
        outcomes.len() >= run.total - run.next + 1,
        forall|i: int| 0 <= i < outcomes.len()
            ==> outcomes[i] == (CmdOutcome::Exited { success: true }),
    ensures
        spec_run_actions(run, RunAction::Launch((run.next - 1) as usize), outcomes)
            == Seq::new(
                (run.total - run.next + 1) as nat,
                |i: int| RunAction::Launch((run.next - 1 + i) as usize),
            ).push(RunAction::Finished),
    decreases run.total - run.next,
{
    let action = RunAction::Launch((run.next - 1) as usize);
    let expected = Seq::new(
        (run.total - run.next + 1) as nat,
        |i: int| RunAction::Launch((run.next - 1 + i) as usize),
    ).push(RunAction::Finished);
    let stepped = spec_run_step(run, outcomes[0]);
    assert(forall|i: int| 0 <= i < outcomes.skip(1).len()
        ==> outcomes.skip(1)[i] == outcomes[i + 1]);
    if run.next == run.total {
        assert(stepped.1 == RunAction::Finished);
        assert(spec_run_actions(stepped.0, stepped.1, outcomes.skip(1))
            =~= seq![RunAction::Finished]);
        assert(spec_run_actions(run, action, outcomes)
            =~= seq![action] + seq![RunAction::Finished]);
        assert(spec_run_actions(run, action, outcomes) =~= expected);
    } else {
        assert(stepped.1 == RunAction::Launch(run.next));
        lemma_run_in_order_from(stepped.0, outcomes.skip(1));
        let tail = Seq::new(
            (run.total - run.next) as nat,
            |i: int| RunAction::Launch((run.next + i) as usize),
        ).push(RunAction::Finished);
        assert(spec_run_actions(stepped.0, stepped.1, outcomes.skip(1)) =~= tail);
        assert(spec_run_actions(run, action, outcomes) =~= seq![action] + tail);
        assert(spec_run_actions(run, action, outcomes) =~= expected);
    }
}

/// Dry run: whatever the outcomes, the one action of the cycle is the
/// single would-run log entry; no command is ever launched.
pub proof fn lemma_dry_run_no_launch(total: usize, outcomes: Seq<CmdOutcome>)
    ensures
        spec_cycle_actions(total, true, outcomes) == seq![RunAction::LogDryRun],
        forall|i: int| 0 <= i < spec_cycle_actions(total, true, outcomes).len()
            ==> !(#[trigger] spec_cycle_actions(total, true, outcomes)[i] is Launch),
{
    assert(spec_cycle_actions(total, true, outcomes) =~= seq![RunAction::LogDryRun]);
    assert(seq![RunAction::LogDryRun][0] == RunAction::LogDryRun);
}

} // verus!
