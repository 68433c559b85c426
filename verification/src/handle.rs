//! Handler contracts: for each payload type an actor accepts, one
//! function from (state, payload) to a command-algebra outcome.

use vstd::prelude::*;

use crate::actor::Actor;
use crate::actor_command::ActorCommand;
use std::convert::Infallible;

verus! {

/// An actor's handler for payloads of type `T`. `Cmd` is the command
/// type the handler's outcomes carry — for an actor it is the same type
/// its step loop stops with.
pub trait Handle<T> where Self: Sized {
    type Cmd;

    /// What one handler run admits of (state before, payload, state after,
    /// outcome). An implementation pins its handler down by defining this
    /// relation; a deterministic handler makes it a function graph.
    spec fn handle_rel(pre: Self, value: T, post: Self, outcome: ActorCommand<Self::Cmd>) -> bool;

    /// Process one payload, mutating the actor's state and concluding in a
    /// command-algebra outcome.
    fn handle(&mut self, value: T) -> (r: ActorCommand<Self::Cmd>)
        ensures
            Self::handle_rel(*old(self), value, *final(self), r),
    ;
}

/// The same handler run, dispatched from the payload's side: lets generic
/// code write `value.with_handle(actor)` for any payload type.
pub trait WithHandle<Act> where Self: Sized {
    type Cmd;

    /// What one handler run admits of; see [`Handle::handle_rel`].
    spec fn with_handle_rel(self, pre: Act, post: Act, outcome: ActorCommand<Self::Cmd>) -> bool;

    /// Hand the payload to the actor's matching handler.
    fn with_handle(self, actor: &mut Act) -> (r: ActorCommand<Self::Cmd>)
        ensures
            self.with_handle_rel(*old(actor), *final(actor), r),
    ;
}

impl<Act, T> WithHandle<Act> for T where Act: Handle<T> {
    type Cmd = <Act as Handle<T>>::Cmd;

    open spec fn with_handle_rel(self, pre: Act, post: Act, outcome: ActorCommand<Self::Cmd>) -> bool {
        Act::handle_rel(pre, self, post, outcome)
    }

    fn with_handle(self, actor: &mut Act) -> (r: ActorCommand<Self::Cmd>) {
        actor.handle(self)
    }
}

/// Some listeners carry no message payload, only a command: their payload
/// type admits no values, so this handler can never actually run. It is
/// still defined, deterministically, to leave the state alone and keep
/// looping.
impl<Act> Handle<Infallible> for Act where Act: Actor {
    type Cmd = <Act as Actor>::Cmd;

    open spec fn handle_rel(pre: Self, value: Infallible, post: Self, outcome: ActorCommand<Self::Cmd>) -> bool {
        post == pre && outcome == ActorCommand::<Self::Cmd>(Ok(()))
    }

    fn handle(&mut self, _value: Infallible) -> (r: ActorCommand<Self::Cmd>) {
        ActorCommand(Ok(()))
    }
}

} // verus!
