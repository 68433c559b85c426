//! Listeners and the multiplexing protocol.
//!
//! A listener adapts one event source to a uniform "next event or
//! end-of-stream" interface. An actor's step loop multiplexes over its
//! listeners: it serves whichever source has an event, consumes exactly
//! that one event per step, and turns it into a loop decision — keep
//! waiting, stop gracefully, or stop with a command.

use vstd::prelude::*;

use crate::actor_command::ActorCommand;
use crate::actor_command::Break;
use crate::actor_ref::ActorMsg;
use crate::handle::Handle;
use std::convert::Infallible;
use std::marker::PhantomData;

verus! {

/// A uniform adapter over one asynchronous event source: produce the next
/// envelope, or `None` for end-of-stream.
pub trait ActorListener<Msg, Shutdown = Infallible> where Self: Sized {
    /// What one poll of the source admits of (source before, source
    /// after, delivered event).
    spec fn next_rel(pre: Self, post: Self, event: Option<ActorMsg<Msg, Shutdown>>) -> bool;

    /// Produce the next envelope, or `None` once the source is exhausted.
    fn next_msg(&mut self) -> (r: Option<ActorMsg<Msg, Shutdown>>)
        ensures
            Self::next_rel(*old(self), *final(self), r),
    ;
}

/// A typed field wrapper that marks an event source as one of an actor's
/// listeners and fixes the envelope type it is read under.
pub struct Listener<T, Msg, Shutdown = Infallible>(pub T, pub PhantomData<(Msg, Shutdown)>) where T: ActorListener<Msg, Shutdown>;

impl<T, Msg, Shutdown> Listener<T, Msg, Shutdown> where T: ActorListener<Msg, Shutdown> {
    pub fn new(listener: T) -> (r: Self)
        ensures
            r.0 == listener,
    {
        Listener(listener, PhantomData)
    }

    /// Produce the next envelope from the wrapped source.
    pub fn next_msg(&mut self) -> (r: Option<ActorMsg<Msg, Shutdown>>)
        ensures
            T::next_rel(old(self).0, final(self).0, r),
    {
        self.0.next_msg()
    }
}

/// A deterministic event source: a scripted queue of envelopes delivered
/// in order, then end-of-stream. It stands in for a live source wherever a
/// run must be reproducible.
pub struct ScriptListener<Msg, Shutdown = Infallible> {
    /// The envelopes still to deliver; the next one is at index 0.
    pub events: Vec<ActorMsg<Msg, Shutdown>>,
}

impl<Msg, Shutdown> ScriptListener<Msg, Shutdown> {
    pub fn new(events: Vec<ActorMsg<Msg, Shutdown>>) -> (r: Self)
        ensures
            r.events == events,
    {
        ScriptListener { events }
    }

    /// Whether an event is available right now.
    pub fn is_ready(&self) -> (r: bool)
        ensures
            r == (self.events@.len() > 0),
    {
        self.events.len() > 0
    }
}

impl<Msg, Shutdown> ActorListener<Msg, Shutdown> for ScriptListener<Msg, Shutdown> {
    open spec fn next_rel(pre: Self, post: Self, event: Option<ActorMsg<Msg, Shutdown>>) -> bool {
        if pre.events@.len() == 0 {
            post == pre && event is None
        } else {
            event == Some(pre.events@[0]) && post.events@ == pre.events@.subrange(
                1,
                pre.events@.len() as int,
            )
        }
    }

    fn next_msg(&mut self) -> (r: Option<ActorMsg<Msg, Shutdown>>) {
        if self.events.len() == 0 {
            None
        } else {
            Some(self.events.remove(0))
        }
    }
}

/// The loop decision that one canonical outcome dictates: `None` fetches
/// the next event, `Some(Ok(Break))` stops gracefully, `Some(Err(c))`
/// stops carrying command `c`.
pub open spec fn decision_of<C>(outcome: ActorCommand<C>) -> Option<Result<Break, C>> {
    match outcome.0 {
        Ok(_) => None,
        Err(Ok(_)) => Some(Ok(Break)),
        Err(Err(c)) => Some(Err(c)),
    }
}

/// Turn one canonical outcome into the step loop's decision.
pub fn decide<C>(outcome: ActorCommand<C>) -> (r: Option<Result<Break, C>>)
    ensures
        r == decision_of(outcome),
{
    match outcome.0 {
        Result::Ok(_) => None,
        Result::Err(Result::Ok(_)) => Some(Result::Ok(Break)),
        Result::Err(Result::Err(c)) => Some(Result::Err(c)),
    }
}

/// One multiplexer step after a listener delivered `event`: end-of-stream
/// stops the loop gracefully; a command envelope stops it at once with
/// that command, widened into the actor's command type, and no handler
/// runs; a message envelope runs the matching handler, and the handler's
/// outcome dictates the decision.
pub fn step_on_event<Act, T, S>(actor: &mut Act, event: Option<ActorMsg<T, S>>) -> (r: Option<
    Result<Break, Act::Cmd>,
>) where Act: Handle<T>, Act::Cmd: From<S>
    ensures
        event is None ==> *final(actor) == *old(actor) && r == Some(Result::<Break, Act::Cmd>::Ok(
            Break,
        )),
        event matches Some(ActorMsg::Shutdown(s)) ==> *final(actor) == *old(actor) && (
        r matches Some(Result::Err(c)) && call_ensures(<Act::Cmd as From<S>>::from, (s,), c)),
        event matches Some(ActorMsg::Msg(m)) ==> exists|out: ActorCommand<Act::Cmd>|
            Act::handle_rel(*old(actor), m, *final(actor), out) && r == decision_of(out),
{
    match event {
        Option::None => Some(Result::Ok(Break)),
        Option::Some(ActorMsg::Shutdown(s)) => Some(Result::Err(<Act::Cmd as From<S>>::from(s))),
        Option::Some(ActorMsg::Msg(m)) => {
            let out = actor.handle(m);
            let r = decide(out);
            proof {
                assert(Act::handle_rel(*old(actor), m, *actor, out) && r == decision_of(out));
            }
            r
        },
    }
}

/// Which of two listeners the multiplexer serves next, given which are
/// ready and which was served last (`last0` means listener 0 was). Two
/// ready listeners take turns; a lone ready listener is served; `None`
/// when neither is ready.
pub open spec fn fair_pick_spec(ready0: bool, ready1: bool, last0: bool) -> Option<usize> {
    if ready0 && ready1 {
        if last0 {
            Some(1usize)
        } else {
            Some(0usize)
        }
    } else if ready0 {
        Some(0usize)
    } else if ready1 {
        Some(1usize)
    } else {
        None
    }
}

/// Serve-next selection over two listeners; see [`fair_pick_spec`].
pub fn fair_pick(ready0: bool, ready1: bool, last0: bool) -> (r: Option<usize>)
    ensures
        r == fair_pick_spec(ready0, ready1, last0),
{
    if ready0 && ready1 {
        if last0 {
            Some(1)
        } else {
            Some(0)
        }
    } else if ready0 {
        Some(0)
    } else if ready1 {
        Some(1)
    } else {
        None
    }
}

/// Law: over two always-ready listeners, neither is starved — any two
/// consecutive picks serve both listeners, whichever was served before.
pub proof fn lemma_fair_pick_no_starvation(last0: bool)
    ensures
        ({
            let first = fair_pick_spec(true, true, last0);
            let second = fair_pick_spec(true, true, first == Some(0usize));
            &&& first is Some
            &&& second is Some
            &&& first != second
            &&& first == Some(0usize) || first == Some(1usize)
            &&& second == Some(0usize) || second == Some(1usize)
        }),
{
}

} // verus!
