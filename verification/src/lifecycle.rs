use vstd::prelude::*;

verus! {

/// The lifecycle controller's two states: accepting new connections, or
/// draining after the interrupt signal.
#[derive(Debug, Clone, Copy, PartialEq, Eq, Structural)]
pub enum LifecycleState {
    Running,
    Draining,
}

/// The controller's only transition: an interrupt moves it to draining, and
/// nothing else changes the state.
pub open spec fn step_spec(s: LifecycleState, interrupted: bool) -> LifecycleState {
    if interrupted {
        LifecycleState::Draining
    } else {
        s
    }
}

/// Advances the controller: Running becomes Draining on an interrupt; no
/// transition leaves Draining.
pub fn lifecycle_step(s: LifecycleState, interrupted: bool) -> (r: LifecycleState)
    ensures
        r == step_spec(s, interrupted),
{
    if interrupted {
        LifecycleState::Draining
    } else {
        s
    }
}

/// Whether the controller still accepts new connections: only while running.
pub fn accepts_new_connections(s: LifecycleState) -> (b: bool)
    ensures
        b <==> s is Running,
{
    match s {
        LifecycleState::Running => true,
        LifecycleState::Draining => false,
    }
}

/// Draining is terminal: once the controller drains, no later event returns
/// it to running, so no new connection is ever accepted after the interrupt.
pub proof fn lemma_draining_is_terminal(s: LifecycleState, interrupted: bool)
    requires
        s is Draining,
    ensures
        step_spec(s, interrupted) is Draining,
        !(step_spec(s, interrupted) is Running),
{
}

} // verus!
