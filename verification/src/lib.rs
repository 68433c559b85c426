//! A small actor runtime: actors own private state, process events from
//! asynchronous sources one at a time, and stop or morph into another
//! incarnation according to a typed command they produce.

use vstd::prelude::*;

mod actor;
mod actor_command;
mod actor_ref;
mod change_state;
pub mod first_test_actor;
mod handle;
mod init_actor;
mod listener;
mod mailbox;
pub mod stop_actor;
pub mod two_phase;

pub use actor::Actor;
pub use actor::ActorWrap;
pub use actor::lifecycle_runs;
pub use actor::round_rel;
pub use actor::run_actor;
pub use actor::run_named_actor;
pub use change_state::ApplyCmd;
pub use change_state::WithApplyCmd;
pub use change_state::lemma_transition_deterministic;
pub use init_actor::InitActor;
pub use init_actor::WithInitActor;
pub use actor_ref::ActorMsg;
pub use actor_ref::ActorRef;
pub use actor_command::lemma_exactly_one_outcome;
pub use handle::Handle;
pub use handle::WithHandle;
pub use listener::ActorListener;
pub use listener::Listener;
pub use listener::ScriptListener;
pub use listener::decide;
pub use listener::decision_of;
pub use listener::fair_pick;
pub use listener::fair_pick_spec;
pub use listener::lemma_fair_pick_no_starvation;
pub use listener::step_on_event;
pub use mailbox::MailboxState;
pub use mailbox::ReplySlot;
pub use mailbox::ReplyState;
pub use actor_command::Break;
pub use actor_command::Cmd;
pub use actor_command::ActorCommand;
pub use actor_command::Continue;

verus! {

/// A ready-made command payload for actors that only need a plain
/// "shut down" signal.
pub struct MyActorShutdown;

impl From<std::convert::Infallible> for MyActorShutdown {
    /// A command type must absorb the never-possible command of a
    /// command-less listener; no value can ever arrive here.
    fn from(_value: std::convert::Infallible) -> (r: Self) {
        MyActorShutdown
    }
}

impl vstd::std_specs::convert::FromSpecImpl<std::convert::Infallible> for MyActorShutdown {
    open spec fn obeys_from_spec() -> bool {
        true
    }

    open spec fn from_spec(_value: std::convert::Infallible) -> Self {
        MyActorShutdown
    }
}

} // verus!
