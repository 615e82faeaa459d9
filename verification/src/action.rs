//! What the interface does in answer to input, and which screen it shows.
use vstd::prelude::*;
use crate::recover::RecoveryEvent;
use crate::status::HostStatus;

verus! {

/// The screens of the interface.
#[derive(Debug, Clone, Copy, PartialEq, Eq, Structural)]
pub enum Screen {
    Build,
    Config,
    Monitor,
    Debug,
}

/// What input asks the interface to do.
pub enum Action {
    Quit,
    SwitchScreen(Screen),
    FocusNext,
    FocusPrev,
    ScrollUp,
    ScrollDown,
    StartBuild,
    StartRecovery,
    RefreshStatus,
    /// A status poll finished.
    UpdateStatus(Box<HostStatus>),
    /// Recovery made progress.
    RecoveryProgress(RecoveryEvent),
}

/// Whether a component consumed a key, and what it asks for.
pub enum EventResult {
    /// Not handled: routing goes on.
    Ignored,
    /// Handled: routing stops, with an action perhaps.
    Consumed(Option<Action>),
}

} // verus!
