//! Component lifecycle states and their legal transitions.
//!
//! A component moves `Created → Starting → Running → Draining → Stopped`, and may fail
//! from `Starting`, `Running` or `Draining`. `Stopped` and `Failed` are final; no
//! transition ever leads back to an earlier state.

use vstd::prelude::*;

mod shutdown;

pub use shutdown::{timed_wait_outcome, ShutdownGuard, ShutdownSignal, WaitTimeoutError};


verus! {

/// The state of a component.
#[derive(Debug, Clone, Copy, PartialEq, Eq, Structural, Hash)]
pub enum ComponentState {
    /// Built, not yet started.
    Created,
    /// Starting up.
    Starting,
    /// Running.
    Running,
    /// Draining in-flight work before stopping.
    Draining,
    /// Stopped (final).
    Stopped,
    /// Failed (final).
    Failed,
}

/// An illegal lifecycle transition, with both of its ends.
#[derive(Debug, Clone, Copy, PartialEq, Eq, Structural, Hash)]
pub struct LifecycleError {
    /// The state the component was in.
    pub from: ComponentState,
    /// The state it was asked to move to.
    pub to: ComponentState,
}

/// Whether a component may move from `from` to `to` in one step.
pub open spec fn transition_allowed(from: ComponentState, to: ComponentState) -> bool {
    match (from, to) {
        (ComponentState::Created, ComponentState::Starting) => true,
        (ComponentState::Starting, ComponentState::Running) => true,
        (ComponentState::Starting, ComponentState::Failed) => true,
        (ComponentState::Running, ComponentState::Draining) => true,
        (ComponentState::Running, ComponentState::Failed) => true,
        (ComponentState::Draining, ComponentState::Stopped) => true,
        (ComponentState::Draining, ComponentState::Failed) => true,
        _ => false,
    }
}

/// The position of a state along the lifecycle.
pub open spec fn lifecycle_rank(s: ComponentState) -> nat {
    match s {
        ComponentState::Created => 0,
        ComponentState::Starting => 1,
        ComponentState::Running => 2,
        ComponentState::Draining => 3,
        ComponentState::Stopped => 4,
        ComponentState::Failed => 5,
    }
}

/// The name of a state, as it appears in error descriptions.
pub open spec fn state_name_text(s: ComponentState) -> Seq<char> {
    match s {
        ComponentState::Created => "Created"@,
        ComponentState::Starting => "Starting"@,
        ComponentState::Running => "Running"@,
        ComponentState::Draining => "Draining"@,
        ComponentState::Stopped => "Stopped"@,
        ComponentState::Failed => "Failed"@,
    }
}

/// The description of an illegal transition.
pub open spec fn lifecycle_error_text(e: LifecycleError) -> Seq<char> {
    "非法的生命周期转换: "@ + state_name_text(e.from) + " -> "@ + state_name_text(e.to)
}

fn state_name(s: ComponentState) -> (t: &'static str)
    ensures
        t@ == state_name_text(s),
{
    match s {
        ComponentState::Created => "Created",
        ComponentState::Starting => "Starting",
        ComponentState::Running => "Running",
        ComponentState::Draining => "Draining",
        ComponentState::Stopped => "Stopped",
        ComponentState::Failed => "Failed",
    }
}

impl ComponentState {
    /// Whether the component may move from this state to `to` in one step.
    pub fn can_transition_to(self, to: ComponentState) -> (b: bool)
        ensures
            b == transition_allowed(self, to),
    {
        match (self, to) {
            (ComponentState::Created, ComponentState::Starting) => true,
            (ComponentState::Starting, ComponentState::Running) => true,
            (ComponentState::Starting, ComponentState::Failed) => true,
            (ComponentState::Running, ComponentState::Draining) => true,
            (ComponentState::Running, ComponentState::Failed) => true,
            (ComponentState::Draining, ComponentState::Stopped) => true,
            (ComponentState::Draining, ComponentState::Failed) => true,
            _ => false,
        }
    }

    /// Moves to `to` where that transition is legal; otherwise a [`LifecycleError`] naming
    /// both states.
    pub fn try_transition(self, to: ComponentState) -> (r: Result<ComponentState, LifecycleError>)
        ensures
            transition_allowed(self, to) ==> r == Ok::<ComponentState, LifecycleError>(to),
            !transition_allowed(self, to) ==> r == Err::<ComponentState, LifecycleError>(
                LifecycleError { from: self, to },
            ),
    {
        if self.can_transition_to(to) {
            Ok(to)
        } else {
            Err(LifecycleError { from: self, to })
        }
    }
}

impl LifecycleError {
    /// The human-readable description of this error.
    pub fn to_message(&self) -> (s: String)
        ensures
            s@ == lifecycle_error_text(*self),
    {
        let mut s = "非法的生命周期转换: ".to_owned();
        s.append(state_name(self.from));
        s.append(" -> ");
        s.append(state_name(self.to));
        assert(s@ =~= lifecycle_error_text(*self));
        s
    }
}

/// Every legal transition moves strictly forward along the lifecycle, so no sequence of
/// transitions returns to an earlier state, and no state moves to itself.
pub proof fn lemma_transitions_move_forward(from: ComponentState, to: ComponentState)
    ensures
        transition_allowed(from, to) ==> lifecycle_rank(from) < lifecycle_rank(to),
        !transition_allowed(from, from),
{
}

/// `Stopped` and `Failed` are final: no transition leaves them. Every state that is
/// neither final nor `Created` can fail.
pub proof fn lemma_final_states(s: ComponentState, to: ComponentState)
    ensures
        (s == ComponentState::Stopped || s == ComponentState::Failed) ==> !transition_allowed(
            s,
            to,
        ),
        (s == ComponentState::Starting || s == ComponentState::Running || s
            == ComponentState::Draining) ==> transition_allowed(s, ComponentState::Failed),
{
}

} // verus!
