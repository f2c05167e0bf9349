use watchd::handler::{HandlerAction, HandlerState, WaitOutcome};
use watchd::watcher::Message;

fn changed(path: &str) -> WaitOutcome {
    WaitOutcome::Received(Message::Changed(path.to_string()))
}

#[test]
fn zero_delay_runs_once_per_event() {
    let mut state = HandlerState::init(false);
    assert_eq!(state.action(0), HandlerAction::Block);

    state = state.next(0, &changed("/a"));
    assert_eq!(state, HandlerState::RunDue);
    assert_eq!(state.action(0), HandlerAction::Run);
    state = state.run_complete();
    assert_eq!(state, HandlerState::Waiting { pending: false });

    state = state.next(0, &changed("/b"));
    assert_eq!(state, HandlerState::RunDue);
    state = state.run_complete();
    assert_eq!(state, HandlerState::Waiting { pending: false });
}

#[test]
fn positive_delay_coalesces_burst_into_one_run() {
    let mut state = HandlerState::init(false);
    assert_eq!(state.action(500), HandlerAction::BlockTimeout);

    state = state.next(500, &changed("/a"));
    assert_eq!(state, HandlerState::Waiting { pending: true });
    state = state.next(500, &changed("/b"));
    assert_eq!(state, HandlerState::Waiting { pending: true });
    state = state.next(500, &changed("/c"));
    assert_eq!(state, HandlerState::Waiting { pending: true });

    state = state.next(500, &WaitOutcome::TimedOut);
    assert_eq!(state, HandlerState::RunDue);
    state = state.run_complete();
    assert_eq!(state, HandlerState::Waiting { pending: false });
}

#[test]
fn quiet_timeout_without_events_runs_nothing() {
    let mut state = HandlerState::init(false);
    state = state.next(500, &WaitOutcome::TimedOut);
    assert_eq!(state, HandlerState::Waiting { pending: false });
    state = state.next(500, &WaitOutcome::TimedOut);
    assert_eq!(state, HandlerState::Waiting { pending: false });
}

#[test]
fn init_on_run_owes_a_run_at_startup() {
    let state = HandlerState::init(true);
    assert_eq!(state, HandlerState::RunDue);
    assert_eq!(state.action(0), HandlerAction::Run);
    assert_eq!(state.run_complete(), HandlerState::Waiting { pending: false });
}

#[test]
fn terminate_stops_even_with_timer_armed() {
    let mut state = HandlerState::init(false);
    state = state.next(500, &changed("/a"));
    assert_eq!(state, HandlerState::Waiting { pending: true });
    state = state.next(500, &WaitOutcome::Received(Message::Terminate));
    assert_eq!(state, HandlerState::Stopped);
    assert_eq!(state.action(500), HandlerAction::Exit);
    let after = state.next(500, &changed("/b"));
    assert_eq!(after, HandlerState::Stopped);
}

#[test]
fn terminate_stops_with_zero_delay() {
    let state = HandlerState::init(false)
        .next(0, &WaitOutcome::Received(Message::Terminate));
    assert_eq!(state, HandlerState::Stopped);
    assert_eq!(state.action(0), HandlerAction::Exit);
}

#[test]
fn channel_failure_is_fatal() {
    let state = HandlerState::init(false).next(500, &WaitOutcome::ChannelDown);
    assert_eq!(state, HandlerState::Failed);
    assert_eq!(state.action(500), HandlerAction::Die);
}
