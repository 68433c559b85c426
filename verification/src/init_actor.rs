//! Initialization: external callers hand in typed initializer data, and
//! the actor type builds its first incarnation from it.

use vstd::prelude::*;

use crate::actor::Actor;

verus! {

/// Build the first incarnation of an actor from initializer data of type
/// `Init`.
pub trait InitActor<Init> where Self: Actor {
    /// What constructing the first incarnation admits of (initializer
    /// data, incarnation built from it).
    spec fn init_rel(init: Init, actor: Self) -> bool;

    fn init_actor(init: Init) -> (r: Self)
        ensures
            Self::init_rel(init, r),
    ;
}

/// The same construction, dispatched from the initializer's side: lets the
/// driver write `init_data.init_actor()` for any initializer type.
pub trait WithInitActor<Act> where Act: Actor, Self: Sized {
    /// What constructing the first incarnation admits of.
    spec fn init_rel(self, actor: Act) -> bool;

    fn init_actor(self) -> (r: Act)
        ensures
            self.init_rel(r),
    ;
}

impl<Act, Init> WithInitActor<Act> for Init where Act: Actor + InitActor<Init> {
    open spec fn init_rel(self, actor: Act) -> bool {
        Act::init_rel(self, actor)
    }

    fn init_actor(self) -> (r: Act) {
        <Act as InitActor<Init>>::init_actor(self)
    }
}

} // verus!
