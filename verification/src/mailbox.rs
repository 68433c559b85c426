//! The mailbox channel's shared core, written out as an explicit state:
//! the FIFO queue of envelopes, the strong and weak counts on the sending
//! side, and the liveness of the receiving end.
//!
//! The runtime realization of this protocol — many producers enqueueing
//! concurrently through reference-counted handles — lives in `actor_ref`
//! on top of the scheduler's own channels. This module pins down what
//! every operation on the shared state does, and so carries the channel's
//! laws: FIFO delivery, failure only on a dead peer with the envelope
//! handed back, silent absorption by the fire-and-forget forms, and the
//! strong/weak liveness rules.

use vstd::prelude::*;

use crate::actor_ref::ActorMsg;

verus! {

/// The state shared by one mailbox channel: its queue, the counts on its
/// sending side, and whether the receiving end still exists.
pub struct MailboxState<Msg, Command> {
    /// Envelopes sent and not yet received, oldest first.
    pub queue: Vec<ActorMsg<Msg, Command>>,
    /// Send handles keeping the channel open.
    pub strong: usize,
    /// Non-owning handles, counted for liveness inspection only.
    pub weak: usize,
    /// Whether the receiving end still exists.
    pub receiver_live: bool,
}

impl<Msg, Command> MailboxState<Msg, Command> {
    /// A fresh channel: one send handle, no weak handles, an empty queue,
    /// and a live receiver.
    pub fn new() -> (r: Self)
        ensures
            r.queue@ == Seq::<ActorMsg<Msg, Command>>::empty(),
            r.strong == 1,
            r.weak == 0,
            r.receiver_live,
    {
        MailboxState { queue: Vec::new(), strong: 1, weak: 0, receiver_live: true }
    }

    /// The channel is closed exactly when the receiving end is gone.
    pub open spec fn is_closed_spec(self) -> bool {
        !self.receiver_live
    }

    /// Whether sends can still be delivered.
    pub fn is_closed(&self) -> (r: bool)
        ensures
            r == self.is_closed_spec(),
    {
        !self.receiver_live
    }

    /// Non-blocking enqueue. Fails only when no receiver remains, and then
    /// hands the rejected envelope back unchanged; nothing else about the
    /// channel moves on failure.
    pub fn try_send(&mut self, envelope: ActorMsg<Msg, Command>) -> (r: Result<
        (),
        ActorMsg<Msg, Command>,
    >)
        ensures
            old(self).receiver_live ==> r is Ok && *final(self) == (MailboxState {
                queue: final(self).queue,
                ..*old(self)
            }) && final(self).queue@ == old(self).queue@.push(envelope),
            !old(self).receiver_live ==> r == Err::<(), ActorMsg<Msg, Command>>(envelope)
                && *final(self) == *old(self),
    {
        if self.receiver_live {
            self.queue.push(envelope);
            Ok(())
        } else {
            Err(envelope)
        }
    }

    /// Fire-and-forget enqueue: as [`Self::try_send`], but a dead peer is
    /// silently absorbed — the call reports nothing and has no observable
    /// effect.
    pub fn send(&mut self, envelope: ActorMsg<Msg, Command>)
        ensures
            old(self).receiver_live ==> *final(self) == (MailboxState {
                queue: final(self).queue,
                ..*old(self)
            }) && final(self).queue@ == old(self).queue@.push(envelope),
            !old(self).receiver_live ==> *final(self) == *old(self),
    {
        let _ = self.try_send(envelope);
    }

    /// Resolve one receive. The oldest envelope, if any, is delivered:
    /// delivery within one channel is first-in, first-out. With the queue
    /// drained and every send handle dropped the source is exhausted and
    /// signals end-of-stream. (With send handles still live the receiver
    /// would keep waiting instead; that waiting state is the one this
    /// operation requires to have been left.)
    pub fn recv(&mut self) -> (r: Option<ActorMsg<Msg, Command>>)
        requires
            old(self).receiver_live,
            old(self).queue@.len() > 0 || old(self).strong == 0,
        ensures
            old(self).queue@.len() > 0 ==> r == Some(old(self).queue@[0]) && *final(self)
                == (MailboxState { queue: final(self).queue, ..*old(self) }) && final(self).queue@
                == old(self).queue@.subrange(1, old(self).queue@.len() as int),
            old(self).queue@.len() == 0 ==> r is None && *final(self) == *old(self),
    {
        if self.queue.len() > 0 {
            Some(self.queue.remove(0))
        } else {
            None
        }
    }

    /// Cloning a send handle: one more strong count, nothing else moves.
    pub fn clone_ref(&mut self)
        requires
            old(self).strong >= 1,
            old(self).strong < usize::MAX,
        ensures
            *final(self) == (MailboxState { strong: (old(self).strong + 1) as usize, ..*old(self) }),
    {
        self.strong = self.strong + 1;
    }

    /// Dropping a send handle: one less strong count. Once the count
    /// reaches zero, no envelope can arrive any more and [`Self::recv`]
    /// reports end-of-stream after the queue drains.
    pub fn drop_ref(&mut self)
        requires
            old(self).strong >= 1,
        ensures
            *final(self) == (MailboxState { strong: (old(self).strong - 1) as usize, ..*old(self) }),
    {
        self.strong = self.strong - 1;
    }

    /// Producing a weak handle: one more weak count; weak handles do not
    /// keep the channel open and grant no send capability.
    pub fn downgrade(&mut self)
        requires
            old(self).weak < usize::MAX,
        ensures
            *final(self) == (MailboxState { weak: (old(self).weak + 1) as usize, ..*old(self) }),
    {
        self.weak = self.weak + 1;
    }

    /// Dropping a weak handle: one less weak count.
    pub fn drop_weak(&mut self)
        requires
            old(self).weak >= 1,
        ensures
            *final(self) == (MailboxState { weak: (old(self).weak - 1) as usize, ..*old(self) }),
    {
        self.weak = self.weak - 1;
    }

    /// Upgrading a weak handle: once every strong reference is dropped it
    /// yields nothing and moves nothing; before that it yields a usable
    /// strong reference, observably raising the strong count by one.
    pub fn upgrade(&mut self) -> (r: bool)
        requires
            old(self).strong < usize::MAX,
        ensures
            old(self).strong == 0 ==> r == false && *final(self) == *old(self),
            old(self).strong > 0 ==> r == true && *final(self) == (MailboxState {
                strong: (old(self).strong + 1) as usize,
                ..*old(self)
            }),
    {
        if self.strong == 0 {
            false
        } else {
            self.strong = self.strong + 1;
            true
        }
    }

    /// How many send handles keep the channel open.
    pub fn strong_count(&self) -> (r: usize)
        ensures
            r == self.strong,
    {
        self.strong
    }

    /// How many non-owning handles observe the channel.
    pub fn weak_count(&self) -> (r: usize)
        ensures
            r == self.weak,
    {
        self.weak
    }
}

/// One request–response exchange: the ephemeral reply slot an `ask`
/// creates, which the asked actor may fill exactly once.
pub enum ReplyState<Resp> {
    /// No resolution yet: the asker is still waiting.
    Waiting,
    /// The actor replied with this value.
    Replied(Resp),
    /// The actor's incarnation ended without replying.
    Closed,
}

/// The reply slot's shared state.
pub struct ReplySlot<Resp> {
    pub state: ReplyState<Resp>,
}

impl<Resp> ReplySlot<Resp> {
    /// A fresh slot, waiting for the actor's side.
    pub fn new() -> (r: Self)
        ensures
            r.state is Waiting,
    {
        ReplySlot { state: ReplyState::Waiting }
    }

    /// The actor's side replies. It succeeds exactly when the slot was
    /// still waiting; otherwise the value comes back to the caller and the
    /// slot does not move.
    pub fn reply(&mut self, value: Resp) -> (r: Result<(), Resp>)
        ensures
            old(self).state is Waiting ==> r is Ok && final(self).state == ReplyState::Replied(
                value,
            ),
            !(old(self).state is Waiting) ==> r == Err::<(), Resp>(value) && *final(self) == *old(
                self,
            ),
    {
        match self.state {
            ReplyState::Waiting => {
                self.state = ReplyState::Replied(value);
                Ok(())
            },
            _ => Err(value),
        }
    }

    /// The actor's incarnation ends without replying: a waiting slot
    /// closes; a resolved slot keeps its resolution.
    pub fn close(&mut self)
        ensures
            old(self).state is Waiting ==> final(self).state is Closed,
            !(old(self).state is Waiting) ==> *final(self) == *old(self),
    {
        match self.state {
            ReplyState::Waiting => {
                self.state = ReplyState::Closed;
            },
            _ => {},
        }
    }

    /// What the asker observes once the exchange resolved — and it always
    /// resolves, since ending without a reply closes the slot: the actor's
    /// exact reply, or `None` when the actor ended without one.
    pub fn take(self) -> (r: Option<Resp>)
        requires
            !(self.state is Waiting),
        ensures
            self.state matches ReplyState::Replied(v) ==> r == Some(v),
            self.state is Closed ==> r is None,
    {
        match self.state {
            ReplyState::Replied(v) => Some(v),
            _ => None,
        }
    }

    /// As [`Self::take`], but an exchange the actor abandoned resolves to
    /// the caller's fallback value instead of failing: the asker never
    /// hangs and never errors.
    pub fn take_or(self, fallback: Resp) -> (r: Resp)
        requires
            !(self.state is Waiting),
        ensures
            self.state matches ReplyState::Replied(v) ==> r == v,
            self.state is Closed ==> r == fallback,
    {
        match self.state {
            ReplyState::Replied(v) => v,
            _ => fallback,
        }
    }
}

} // verus!
