//! Handler state machine: coalescing forwarded events into command runs.
//!
//! One handler serves one configured entry. The surrounding thread blocks on
//! the message channel as the current state's [`HandlerState::action`] says
//! (without a timeout when the entry's delay is zero, with the delay as the
//! timeout otherwise), feeds what it observed to [`HandlerState::next`], and
//! invokes the command runner whenever the machine asks for a run.
//!
//! With a zero delay every surviving event triggers a run at once. With a
//! positive delay the machine keeps waiting while messages keep arriving
//! within the delay of each other, and asks for one run only when a full
//! delay window passes silently: a trailing quiet-period debounce.

use vstd::prelude::*;

use crate::watcher::Message;

verus! {

/// The state of one handler.
#[derive(Clone, Copy, PartialEq, Eq, Structural, Debug)]
pub enum HandlerState {
    /// Blocked on the message channel. `pending` records whether a run is
    /// owed once a quiet delay window passes.
    Waiting { pending: bool },
    /// A run is due now; the thread invokes the command runner and then
    /// reports back with [`HandlerState::run_complete`].
    RunDue,
    /// Cleanly terminated; the thread exits.
    Stopped,
    /// The message transport itself failed; the thread logs critically and
    /// ends.
    Failed,
}

/// What a handler thread observed while blocked on its channel.
pub enum WaitOutcome {
    /// A message arrived.
    Received(Message),
    /// The timeout elapsed with nothing received.
    TimedOut,
    /// The channel itself failed, as opposed to a clean terminate.
    ChannelDown,
}

/// What the handler thread must do next.
#[derive(Clone, Copy, PartialEq, Eq, Structural, Debug)]
pub enum HandlerAction {
    /// Block on the channel with no timeout.
    Block,
    /// Block on the channel with the entry's delay as the timeout.
    BlockTimeout,
    /// Invoke the command runner, then call [`HandlerState::run_complete`].
    Run,
    /// Exit the thread cleanly.
    Exit,
    /// Log at critical severity and end the thread.
    Die,
}

/// The starting state: a run is owed immediately when the daemon starts in
/// init mode, otherwise the handler waits with nothing pending.
pub open spec fn spec_init(init_on_run: bool) -> HandlerState {
    if init_on_run {
        HandlerState::RunDue
    } else {
        HandlerState::Waiting { pending: false }
    }
}

/// The transition taken on one wait outcome. States other than `Waiting`
/// never wait, so they absorb outcomes unchanged.
pub open spec fn spec_next(s: HandlerState, zero_delay: bool, o: WaitOutcome) -> HandlerState {
    match s {
        HandlerState::Waiting { pending } => match o {
            WaitOutcome::Received(m) => match m {
                Message::Changed(_) => {
                    if zero_delay {
                        HandlerState::RunDue
                    } else {
                        HandlerState::Waiting { pending: true }
                    }
                },
                Message::Terminate => HandlerState::Stopped,
            },
            WaitOutcome::TimedOut => {
                if pending {
                    HandlerState::RunDue
                } else {
                    HandlerState::Waiting { pending: false }
                }
            },
            WaitOutcome::ChannelDown => HandlerState::Failed,
        },
        _ => s,
    }
}

/// The state after a due run completed: back to waiting, nothing pending.
pub open spec fn spec_run_complete(s: HandlerState) -> HandlerState {
    if s is RunDue {
        HandlerState::Waiting { pending: false }
    } else {
        s
    }
}

/// What the thread does in state `s`.
pub open spec fn spec_action(s: HandlerState, zero_delay: bool) -> HandlerAction {
    match s {
        HandlerState::Waiting { .. } => {
            if zero_delay {
                HandlerAction::Block
            } else {
                HandlerAction::BlockTimeout
            }
        },
        HandlerState::RunDue => HandlerAction::Run,
        HandlerState::Stopped => HandlerAction::Exit,
        HandlerState::Failed => HandlerAction::Die,
    }
}

impl HandlerState {
    /// The starting state for one entry.
    pub fn init(init_on_run: bool) -> (s: Self)
        ensures
            s == spec_init(init_on_run),
    {
        if init_on_run {
            HandlerState::RunDue
        } else {
            HandlerState::Waiting { pending: false }
        }
    }

    /// What the thread must do in this state, for an entry whose coalescing
    /// delay is `delay_ms` milliseconds.
    pub fn action(&self, delay_ms: u64) -> (a: HandlerAction)
        ensures
            a == spec_action(*self, delay_ms == 0),
    {
        match self {
            HandlerState::Waiting { .. } => {
                if delay_ms == 0 {
                    HandlerAction::Block
                } else {
                    HandlerAction::BlockTimeout
                }
            },
            HandlerState::RunDue => HandlerAction::Run,
            HandlerState::Stopped => HandlerAction::Exit,
            HandlerState::Failed => HandlerAction::Die,
        }
    }

    /// The state after observing `outcome` on the channel.
    pub fn next(self, delay_ms: u64, outcome: &WaitOutcome) -> (s: Self)
        ensures
            s == spec_next(self, delay_ms == 0, *outcome),
    {
        match self {
            HandlerState::Waiting { pending } => match outcome {
                WaitOutcome::Received(m) => match m {
                    Message::Changed(_) => {
                        if delay_ms == 0 {
                            HandlerState::RunDue
                        } else {
                            HandlerState::Waiting { pending: true }
                        }
                    },
                    Message::Terminate => HandlerState::Stopped,
                },
                WaitOutcome::TimedOut => {
                    if pending {
                        HandlerState::RunDue
                    } else {
                        HandlerState::Waiting { pending: false }
                    }
                },
                WaitOutcome::ChannelDown => HandlerState::Failed,
            },
            _ => self,
        }
    }

    /// The state after the command runner returned from a due run.
    pub fn run_complete(self) -> (s: Self)
        ensures
            s == spec_run_complete(self),
    {
        match self {
            HandlerState::RunDue => HandlerState::Waiting { pending: false },
            _ => self,
        }
    }
}

/// 1 if a run fires in state `s` before anything else happens, else 0.
pub open spec fn spec_runs_now(s: HandlerState) -> nat {
    if s is RunDue {
        1nat
    } else {
        0nat
    }
}

/// How many command runs a handler performs when, starting in `s`, it
/// observes `outcomes` on its channel one after the other, running (and
/// completing) the commands whenever a run falls due.
pub open spec fn spec_trace_runs(
    s: HandlerState,
    zero_delay: bool,
    outcomes: Seq<WaitOutcome>,
) -> nat
    decreases outcomes.len(),
{
    if outcomes.len() == 0 {
        spec_runs_now(s)
    } else {
        spec_runs_now(s) + spec_trace_runs(
            spec_next(spec_run_complete(s), zero_delay, outcomes[0]),
            zero_delay,
            outcomes.skip(1),
        )
    }
}

/// The state a handler is left in after the same trace, each due run
/// completed as it fell due.
pub open spec fn spec_trace_state(
    s: HandlerState,
    zero_delay: bool,
    outcomes: Seq<WaitOutcome>,
) -> HandlerState
    decreases outcomes.len(),
{
    if outcomes.len() == 0 {
        spec_run_complete(s)
    } else {
        spec_trace_state(
            spec_next(spec_run_complete(s), zero_delay, outcomes[0]),
            zero_delay,
            outcomes.skip(1),
        )
    }
}

/// Whether every outcome in the trace is a forwarded change message.
pub open spec fn spec_all_changed(outcomes: Seq<WaitOutcome>) -> bool {
    forall|i: int| 0 <= i < outcomes.len() ==>
        ((#[trigger] outcomes[i]) matches WaitOutcome::Received(m) && m is Changed)
}

/// Zero-delay immediacy: with a zero delay, every forwarded event triggers
/// exactly one run before the next wait begins, so a trace of N forwarded
/// events produces exactly N runs (plus the one owed at start, if any).
pub proof fn lemma_zero_delay_immediacy(s: HandlerState, outcomes: Seq<WaitOutcome>)
    requires
        s == (HandlerState::Waiting { pending: false }) || s == HandlerState::RunDue,
        spec_all_changed(outcomes),
    ensures
        spec_trace_runs(s, true, outcomes) == outcomes.len() + spec_runs_now(s),
    decreases outcomes.len(),
{
    if outcomes.len() > 0 {
        let s1 = spec_next(spec_run_complete(s), true, outcomes[0]);
        assert(outcomes[0] matches WaitOutcome::Received(m) && m is Changed);
        assert(s1 == HandlerState::RunDue);
        assert(spec_all_changed(outcomes.skip(1))) by {
            assert(forall|i: int| 0 <= i < outcomes.skip(1).len()
                ==> outcomes.skip(1)[i] == outcomes[i + 1]);
        }
        lemma_zero_delay_immediacy(s1, outcomes.skip(1));
    }
}

/// Coalescing, first half: with a positive delay, forwarded events arriving
/// while the handler waits trigger no run at all; they only leave a run
/// pending.
pub proof fn lemma_coalescing_defers(pending: bool, outcomes: Seq<WaitOutcome>)
    requires
        spec_all_changed(outcomes),
    ensures
        spec_trace_runs((HandlerState::Waiting { pending }), false, outcomes) == 0,
        spec_trace_state((HandlerState::Waiting { pending }), false, outcomes)
            == (HandlerState::Waiting { pending: if outcomes.len() > 0 { true } else { pending } }),
    decreases outcomes.len(),
{
    if outcomes.len() > 0 {
        assert(outcomes[0] matches WaitOutcome::Received(m) && m is Changed);
        assert(spec_all_changed(outcomes.skip(1))) by {
            assert(forall|i: int| 0 <= i < outcomes.skip(1).len()
                ==> outcomes.skip(1)[i] == outcomes[i + 1]);
        }
        lemma_coalescing_defers(true, outcomes.skip(1));
    }
}

/// Coalescing, second half: with a positive delay, a burst of N forwarded
/// events followed by one silent delay window produces exactly one run. The
/// thread observes `TimedOut` only once the full delay has passed with no
/// new message, so the run fires no earlier than a delay after the last
/// event, and (with the first half) not before.
pub proof fn lemma_coalescing_fires(pending: bool, outcomes: Seq<WaitOutcome>)
    requires
        spec_all_changed(outcomes),
        pending || outcomes.len() > 0,
    ensures
        spec_trace_runs(
            (HandlerState::Waiting { pending }),
            false,
            outcomes.push(WaitOutcome::TimedOut),
        ) == 1,
    decreases outcomes.len(),
{
    let trace = outcomes.push(WaitOutcome::TimedOut);
    let s0 = HandlerState::Waiting { pending };
    if outcomes.len() == 0 {
        assert(trace[0] == WaitOutcome::TimedOut);
        let s1 = spec_next(s0, false, trace[0]);
        assert(s1 == HandlerState::RunDue);
        assert(trace.skip(1).len() == 0);
        assert(spec_trace_runs(s1, false, trace.skip(1)) == 1);
        assert(spec_trace_runs(s0, false, trace)
            == spec_runs_now(s0) + spec_trace_runs(s1, false, trace.skip(1)));
    } else {
        assert(trace[0] == outcomes[0]);
        assert(outcomes[0] matches WaitOutcome::Received(m) && m is Changed);
        let s1 = spec_next(s0, false, trace[0]);
        assert(s1 == (HandlerState::Waiting { pending: true }));
        assert(spec_all_changed(outcomes.skip(1))) by {
            assert(forall|i: int| 0 <= i < outcomes.skip(1).len()
                ==> outcomes.skip(1)[i] == outcomes[i + 1]);
        }
        assert(trace.skip(1) =~= outcomes.skip(1).push(WaitOutcome::TimedOut));
        lemma_coalescing_fires(true, outcomes.skip(1));
        assert(spec_trace_runs(s1, false, trace.skip(1)) == 1);
        assert(spec_trace_runs(s0, false, trace)
            == spec_runs_now(s0) + spec_trace_runs(s1, false, trace.skip(1)));
    }
}

/// Termination observed while waiting stops the handler at once, whatever is
/// pending and whatever the delay.
pub proof fn lemma_terminate_stops(pending: bool, zero_delay: bool)
    ensures
        spec_next(
            (HandlerState::Waiting { pending }),
            zero_delay,
            WaitOutcome::Received(Message::Terminate),
        ) == HandlerState::Stopped,
{
}

/// A stopped handler never runs another command, whatever else arrives:
/// termination is clean even if a coalescing timer was armed.
pub proof fn lemma_stopped_runs_nothing(zero_delay: bool, outcomes: Seq<WaitOutcome>)
    ensures
        spec_trace_runs(HandlerState::Stopped, zero_delay, outcomes) == 0,
        spec_trace_state(HandlerState::Stopped, zero_delay, outcomes) == HandlerState::Stopped,
    decreases outcomes.len(),
{
    if outcomes.len() > 0 {
        lemma_stopped_runs_nothing(zero_delay, outcomes.skip(1));
    }
}

/// Termination cleanliness: from any waiting state, a terminate message
/// followed by anything at all produces no further run.
pub proof fn lemma_termination_cleanliness(
    pending: bool,
    zero_delay: bool,
    later: Seq<WaitOutcome>,
)
    ensures
        spec_trace_runs(
            (HandlerState::Waiting { pending }),
            zero_delay,
            seq![WaitOutcome::Received(Message::Terminate)] + later,
        ) == 0,
{
    let trace = seq![WaitOutcome::Received(Message::Terminate)] + later;
    assert(trace[0] == WaitOutcome::Received(Message::Terminate));
    assert(trace.skip(1) =~= later);
    lemma_stopped_runs_nothing(zero_delay, later);
}

} // verus!
