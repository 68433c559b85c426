//! The state-transition machine: what happens to an actor incarnation
//! after it stops looping.
//!
//! A concrete actor supplies one [`ApplyCmd`] implementation per outcome
//! type it accepts; dispatch from the outcome value to that implementation
//! is static, resolved by the pair (actor type, outcome type). The
//! transition consumes the old incarnation and yields either exactly one
//! successor from the actor's declared state family, or nothing, which
//! ends the task.

use vstd::prelude::*;

use crate::actor::Actor;
use std::convert::Infallible;

verus! {

/// Transition of an actor consuming a stop outcome of type `Cmd`.
pub trait ApplyCmd<Cmd> where Self: Actor {
    /// The transition as a pure function of (incarnation, outcome).
    spec fn transition_spec(self, cmd: Cmd) -> Option<Self::States>;

    /// Consume the incarnation and the outcome; yield the successor
    /// incarnation, or `None` to end the task.
    fn change_state(self, cmd: Cmd) -> (r: Option<Self::States>)
        ensures
            r == self.transition_spec(cmd),
    ;
}

/// The same transition, dispatched from the outcome value's side: lets the
/// driver write `outcome.change_state(actor)` for any outcome type.
pub trait WithApplyCmd<Akt, States = Akt> where Self: Sized {
    /// The transition as a pure function of (outcome, incarnation).
    spec fn change_state_spec(self, actor: Akt) -> Option<States>;

    /// Consume the outcome and the incarnation; yield the successor
    /// incarnation, or `None` to end the task.
    fn change_state(self, actor: Akt) -> (r: Option<States>)
        ensures
            r == self.change_state_spec(actor),
    ;
}

impl<Act, States, Cmd> WithApplyCmd<Act, States> for Cmd where Act: Actor<States = States> + ApplyCmd<Cmd> {
    open spec fn change_state_spec(self, actor: Act) -> Option<States> {
        actor.transition_spec(self)
    }

    fn change_state(self, actor: Act) -> (r: Option<States>) {
        actor.change_state(self)
    }
}

/// An actor whose command type admits no values can never reach this
/// transition at runtime; it is still defined, deterministically, to end
/// the task.
impl<Act> ApplyCmd<Infallible> for Act where Act: Actor {
    open spec fn transition_spec(self, cmd: Infallible) -> Option<Self::States> {
        None
    }

    fn change_state(self, _cmd: Infallible) -> (r: Option<Self::States>) {
        None
    }
}

/// Law: the state transition is deterministic. Given one incarnation and
/// one outcome value, any two results that `change_state` may return are
/// equal: an equivalent successor, or equally the absence of one.
pub proof fn lemma_transition_deterministic<Act, Cmd>(
    actor: Act,
    cmd: Cmd,
    r1: Option<Act::States>,
    r2: Option<Act::States>,
) where Act: ApplyCmd<Cmd>
    requires
        call_ensures(Act::change_state, (actor, cmd), r1),
        call_ensures(Act::change_state, (actor, cmd), r2),
    ensures
        r1 == r2,
{
}

} // verus!
