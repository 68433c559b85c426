//! The actor reference over the live runtime channel: send failures hand
//! the envelope back unchanged, the silent forms stay silent, envelopes
//! arrive in order, and the request–response pattern resolves through
//! the verified send.

use pupactor::ActorMsg;
use pupactor::ActorRef;
use std::convert::Infallible;
use std::mem::size_of;
use tokio::sync::mpsc::error::SendError;
use tokio::sync::mpsc::error::TryRecvError;
use tokio::sync::oneshot;

fn channel<Msg, Command>() -> (
    ActorRef<Msg, Command>,
    tokio::sync::mpsc::UnboundedReceiver<ActorMsg<Msg, Command>>,
) {
    let (sender, receiver) = tokio::sync::mpsc::unbounded_channel();
    (ActorRef::new(sender), receiver)
}

#[test]
fn test() {
    assert_eq!(1, size_of::<Result<(), SendError<()>>>());
}

#[test]
fn try_send_delivers_in_fifo_order() {
    let (aref, mut rx) = channel::<u32, u64>();
    assert!(aref.try_send(1u32).is_ok());
    aref.send(2u32);
    assert!(matches!(rx.try_recv(), Ok(ActorMsg::Msg(1))));
    assert!(matches!(rx.try_recv(), Ok(ActorMsg::Msg(2))));
    assert!(rx.try_recv().is_err());
}

#[test]
fn try_send_after_receiver_dropped_returns_envelope() {
    let (aref, rx) = channel::<u32, u64>();
    drop(rx);
    match aref.try_send(42u32) {
        Err(SendError(ActorMsg::Msg(v))) => assert_eq!(v, 42),
        _ => panic!("expected the rejected envelope back"),
    }
}

#[test]
fn send_after_receiver_dropped_is_silent() {
    let (aref, rx) = channel::<u32, u64>();
    drop(rx);
    aref.send(42u32);
    aref.send(43u32);
}

#[test]
fn try_command_after_receiver_dropped_returns_envelope() {
    let (aref, rx) = channel::<u32, u64>();
    drop(rx);
    match aref.try_command(9u64) {
        Err(SendError(ActorMsg::Shutdown(c))) => assert_eq!(c, 9),
        _ => panic!("expected the rejected command back"),
    }
}

#[test]
fn command_is_routed_as_shutdown_envelope() {
    let (aref, mut rx) = channel::<u32, u64>();
    aref.command(7u32);
    assert!(matches!(rx.try_recv(), Ok(ActorMsg::Shutdown(7))));
}

#[test]
fn cloned_references_feed_the_same_channel() {
    let (aref, mut rx) = channel::<u32, u64>();
    let cloned = aref.clone();
    aref.send(1u32);
    cloned.send(2u32);
    assert!(matches!(rx.try_recv(), Ok(ActorMsg::Msg(1))));
    assert!(matches!(rx.try_recv(), Ok(ActorMsg::Msg(2))));
}

#[test]
fn mailbox_reports_end_of_stream_once_senders_drop() {
    let (aref, mut rx) = channel::<u32, u64>();
    aref.send(1u32);
    drop(aref);
    assert!(matches!(rx.try_recv(), Ok(ActorMsg::Msg(1))));
    assert!(matches!(rx.try_recv(), Err(TryRecvError::Disconnected)));
}

#[test]
fn request_response_returns_the_actors_exact_reply() {
    let (aref, mut rx) = channel::<oneshot::Sender<u32>, Infallible>();
    let (reply_tx, reply_rx) = oneshot::channel::<u32>();
    aref.send(reply_tx);
    match rx.try_recv() {
        Ok(ActorMsg::Msg(reply_to)) => {
            reply_to.send(654).unwrap();
        },
        _ => panic!("expected the reply slot"),
    }
    assert_eq!(reply_rx.blocking_recv().unwrap(), 654);
}

#[test]
fn abandoned_request_resolves_to_the_default() {
    let (aref, rx) = channel::<oneshot::Sender<u32>, Infallible>();
    let (reply_tx, reply_rx) = oneshot::channel::<u32>();
    aref.send(reply_tx);
    drop(rx);
    assert_eq!(reply_rx.blocking_recv().unwrap_or_default(), u32::default());
}
