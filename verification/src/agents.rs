//! The interface an agent offers to a control loop: choose an action
//! for a state, and learn from an observed transition.

use vstd::prelude::*;

use crate::domain::Transition;

verus! {

/// An agent over states of type `S` choosing among discretely indexed
/// actions.
pub trait Agent<S> {
    /// Chooses the index of the action to take in state `s`.
    fn act(&mut self, s: &S) -> usize;

    /// Learns from a transition and returns the index of the next action.
    fn handle(&mut self, t: &Transition<S, usize>) -> usize;
}

} // verus!
