//! Envelopes and the actor reference: the cloneable, send-capable
//! front-end to an actor's mailbox channel.
//!
//! The channel itself is the scheduler runtime's unbounded queue. The
//! sending face stands here, behind a declared contract: a failed enqueue
//! hands the envelope back unchanged, which is all the opaque concurrent
//! handle lets one state. The channel's full semantics — FIFO delivery,
//! liveness counts, the reply slot — is stated and verified on the
//! explicit state in `mailbox`; the handles that only observe that shared
//! state (weak references, counts, the request–response plumbing) admit
//! no contract at all over the opaque handle and live with the rest of
//! the runtime plumbing, outside the verified core.

use vstd::prelude::*;

use std::convert::Infallible;

verus! {

/// An envelope carried through a mailbox channel: an ordinary message for
/// the actor's handlers, or an out-of-band command routed straight into
/// the state-transition machinery.
pub enum ActorMsg<Msg, Command = Infallible> {
    Msg(Msg),
    Shutdown(Command),
}

impl<Msg, Command> From<Msg> for ActorMsg<Msg, Command> {
    /// A bare payload wraps into an ordinary message envelope.
    fn from(msg: Msg) -> (r: Self) {
        ActorMsg::Msg(msg)
    }
}

impl<Msg, Command> vstd::std_specs::convert::FromSpecImpl<Msg> for ActorMsg<Msg, Command> {
    open spec fn obeys_from_spec() -> bool {
        true
    }

    open spec fn from_spec(msg: Msg) -> Self {
        ActorMsg::Msg(msg)
    }
}

/// The sending half of the runtime's unbounded channel.
#[verifier::external_type_specification]
#[verifier::external_body]
#[verifier::reject_recursive_types(T)]
pub struct ExUnboundedSender<T>(tokio::sync::mpsc::UnboundedSender<T>);

/// The error a failed enqueue hands back; its one public field is the
/// rejected value.
#[verifier::external_type_specification]
#[verifier::reject_recursive_types(T)]
pub struct ExSendError<T>(tokio::sync::mpsc::error::SendError<T>);

/// Relies on tokio::sync::mpsc::UnboundedSender::send: it never blocks,
/// and it fails exactly when the receiving half is gone — the error then
/// carries the rejected value back unchanged.
pub assume_specification<T>[ tokio::sync::mpsc::UnboundedSender::<T>::send ](
    tx: &tokio::sync::mpsc::UnboundedSender<T>,
    message: T,
) -> (r: Result<(), tokio::sync::mpsc::error::SendError<T>>)
    ensures
        r matches Err(e) ==> e == tokio::sync::mpsc::error::SendError(message),
;

/// Relies on the Clone impl of tokio::sync::mpsc::UnboundedSender:
/// another handle to the same channel.
pub assume_specification<T>[ <tokio::sync::mpsc::UnboundedSender<T> as Clone>::clone ](
    tx: &tokio::sync::mpsc::UnboundedSender<T>,
) -> tokio::sync::mpsc::UnboundedSender<T>;

/// A cloneable, send-capable handle to one actor's mailbox channel. The
/// raw sending half is public, so that runtime-only plumbing (weak
/// references, liveness counts, request–response) can build on the same
/// handle.
#[verifier::reject_recursive_types(Msg)]
#[verifier::reject_recursive_types(Command)]
pub struct ActorRef<Msg, Command = Infallible> {
    pub inner: tokio::sync::mpsc::UnboundedSender<ActorMsg<Msg, Command>>,
}

impl<Msg, Command> Clone for ActorRef<Msg, Command> {
    /// Cloning yields one more handle to the same channel, raising the
    /// strong count. Of the opaque handle that comes back nothing more
    /// can be stated; the counting law itself is verified on the
    /// explicit channel state.
    fn clone(&self) -> Self {
        ActorRef { inner: self.inner.clone() }
    }
}

impl<Msg, Command> ActorRef<Msg, Command> {
    /// Wrap a raw sending half into an actor reference.
    pub fn new(inner: tokio::sync::mpsc::UnboundedSender<ActorMsg<Msg, Command>>) -> (r: Self)
        ensures
            r.inner == inner,
    {
        ActorRef { inner }
    }

    /// Non-blocking enqueue of a message envelope. It fails only when no
    /// receiver remains, and the failure hands the rejected envelope back
    /// unchanged so the caller can recover it.
    pub fn try_send<M>(&self, msg: M) -> (r: Result<
        (),
        tokio::sync::mpsc::error::SendError<ActorMsg<Msg, Command>>,
    >) where Msg: From<M>
        ensures
            <Msg as vstd::std_specs::convert::FromSpec<M>>::obeys_from_spec() ==> (
            r matches Err(e) ==> e == tokio::sync::mpsc::error::SendError(
                ActorMsg::<Msg, Command>::Msg(
                    <Msg as vstd::std_specs::convert::FromSpec<M>>::from_spec(msg),
                ),
            )),
    {
        self.inner.send(ActorMsg::Msg(Msg::from(msg)))
    }

    /// Fire-and-forget enqueue of a message envelope: a dead peer is
    /// silently absorbed, and the call never blocks (the channel is
    /// unbounded).
    pub fn send<M>(&self, msg: M) where Msg: From<M> {
        let _ = self.inner.send(ActorMsg::Msg(Msg::from(msg)));
    }

    /// Non-blocking enqueue of a command envelope, delivered through the
    /// same FIFO channel as messages but routed by the actor's dispatcher
    /// straight into the transition machinery. It fails only when no
    /// receiver remains, handing the envelope back unchanged.
    pub fn try_command(&self, msg: Command) -> (r: Result<
        (),
        tokio::sync::mpsc::error::SendError<ActorMsg<Msg, Command>>,
    >)
        ensures
            r matches Err(e) ==> e == tokio::sync::mpsc::error::SendError(
                ActorMsg::<Msg, Command>::Shutdown(msg),
            ),
    {
        self.inner.send(ActorMsg::Shutdown(msg))
    }

    /// Fire-and-forget enqueue of a command envelope: a dead peer is
    /// silently absorbed.
    pub fn command<IntoCommand>(&self, shutdown: IntoCommand) where Command: From<IntoCommand> {
        let _ = self.inner.send(ActorMsg::Shutdown(Command::from(shutdown)));
    }
}

} // verus!
