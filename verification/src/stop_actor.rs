//! The reduced-capability transition: finalize and stop, or hand back an
//! incarnation of the same concrete type.
//!
//! Unlike the full machine in `change_state`, whose successor may be any
//! member of the actor's state family, this variant never changes the
//! incarnation's type. It suits actors that only ever stop.

use vstd::prelude::*;

use crate::actor::Actor;
use std::convert::Infallible;

verus! {

/// Transition of an actor consuming a stop outcome of type `Cmd`, with no
/// type-changing freedom: the successor, if any, is the same type.
pub trait ApplyCmd<Cmd> where Self: Actor {
    /// The transition as a pure function of (incarnation, outcome).
    spec fn apply_cmd_spec(self, cmd: Cmd) -> Option<Self>;

    /// Consume the incarnation and the outcome; yield the successor, or
    /// `None` to end the task.
    fn apply_cmd(self, cmd: Cmd) -> (r: Option<Self>)
        ensures
            r == self.apply_cmd_spec(cmd),
    ;
}

/// The same transition, dispatched from the outcome value's side.
pub trait WithApplyCmd<Act> where Act: Actor, Self: Sized {
    /// The transition as a pure function of (outcome, incarnation).
    spec fn apply_cmd_spec(self, actor: Act) -> Option<Act>;

    /// Consume the outcome and the incarnation; yield the successor, or
    /// `None` to end the task.
    fn apply_cmd(self, actor: Act) -> (r: Option<Act>)
        ensures
            r == self.apply_cmd_spec(actor),
    ;
}

impl<Act, Cmd> WithApplyCmd<Act> for Cmd where Act: Actor + ApplyCmd<Cmd> {
    open spec fn apply_cmd_spec(self, actor: Act) -> Option<Act> {
        actor.apply_cmd_spec(self)
    }

    fn apply_cmd(self, actor: Act) -> (r: Option<Act>) {
        actor.apply_cmd(self)
    }
}

/// An actor whose command type admits no values never reaches this
/// transition at runtime; it is still defined, deterministically, to end
/// the task.
impl<Act> ApplyCmd<Infallible> for Act where Act: Actor {
    open spec fn apply_cmd_spec(self, cmd: Infallible) -> Option<Self> {
        None
    }

    fn apply_cmd(self, _cmd: Infallible) -> (r: Option<Self>) {
        None
    }
}

} // verus!
