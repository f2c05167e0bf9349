//! Signal dispatch: what the supervisor does for each delivered signal.
//!
//! The surrounding process blocks on the operating system's signal stream
//! and asks [`dispatch`] what each delivered signal means: a hangup asks for
//! a configuration reload, every other handled signal asks for shutdown.
//! The reload itself is [`crate::config::Config::reload`]; the supervisor
//! first terminates every watcher/handler pair, then reloads, then rebuilds
//! one pair per entry of whatever configuration stands afterwards — the new
//! one when the reload succeeded, the previous one when it was rolled back.

use vstd::prelude::*;

verus! {

/// A signal the daemon handles.
#[derive(Clone, Copy, PartialEq, Eq, Structural, Debug)]
pub enum Signal {
    /// Reload the configuration.
    Hangup,
    /// Shut down.
    Interrupt,
    /// Shut down.
    Quit,
    /// Shut down.
    Terminate,
}

/// What the supervisor does for one signal.
#[derive(Clone, Copy, PartialEq, Eq, Structural, Debug)]
pub enum SupervisorAction {
    /// Terminate every pair, reload the configuration, rebuild every pair.
    Reload,
    /// Leave the main loop; the process ends.
    Shutdown,
}

/// A hangup reloads; interrupt, quit and terminate shut down.
pub fn dispatch(signal: Signal) -> (a: SupervisorAction)
    ensures
        a == (if signal is Hangup {
            SupervisorAction::Reload
        } else {
            SupervisorAction::Shutdown
        }),
{
    match signal {
        Signal::Hangup => SupervisorAction::Reload,
        Signal::Interrupt => SupervisorAction::Shutdown,
        Signal::Quit => SupervisorAction::Shutdown,
        Signal::Terminate => SupervisorAction::Shutdown,
    }
}

} // verus!
