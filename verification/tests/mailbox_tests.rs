//! The explicit channel state: FIFO delivery, failure semantics, the
//! strong/weak liveness rules, and the reply slot's resolutions.

use pupactor::ActorMsg;
use pupactor::MailboxState;
use pupactor::ReplySlot;

#[test]
fn model_fifo_order_is_kept() {
    let mut m: MailboxState<u32, u64> = MailboxState::new();
    m.send(ActorMsg::Msg(1));
    m.send(ActorMsg::Msg(2));
    assert!(m.try_send(ActorMsg::Msg(3)).is_ok());
    m.strong = 0;
    assert!(matches!(m.recv(), Some(ActorMsg::Msg(1))));
    assert!(matches!(m.recv(), Some(ActorMsg::Msg(2))));
    assert!(matches!(m.recv(), Some(ActorMsg::Msg(3))));
    assert!(m.recv().is_none());
}

#[test]
fn model_try_send_on_closed_returns_envelope_unchanged() {
    let mut m: MailboxState<u32, u64> = MailboxState::new();
    m.receiver_live = false;
    match m.try_send(ActorMsg::Msg(42)) {
        Err(ActorMsg::Msg(v)) => assert_eq!(v, 42),
        _ => panic!("expected the rejected envelope back"),
    }
    assert_eq!(m.queue.len(), 0);
}

#[test]
fn model_send_on_closed_has_no_effect() {
    let mut m: MailboxState<u32, u64> = MailboxState::new();
    m.receiver_live = false;
    m.send(ActorMsg::Msg(42));
    assert_eq!(m.queue.len(), 0);
    assert_eq!(m.strong, 1);
    assert!(m.is_closed());
}

#[test]
fn model_upgrade_fails_once_strong_reaches_zero() {
    let mut m: MailboxState<u32, u64> = MailboxState::new();
    m.downgrade();
    assert_eq!(m.weak_count(), 1);
    m.drop_ref();
    assert_eq!(m.strong_count(), 0);
    assert!(!m.upgrade());
    assert_eq!(m.strong_count(), 0);
}

#[test]
fn model_upgrade_before_that_bumps_strong_count() {
    let mut m: MailboxState<u32, u64> = MailboxState::new();
    m.downgrade();
    assert!(m.upgrade());
    assert_eq!(m.strong_count(), 2);
    m.clone_ref();
    assert_eq!(m.strong_count(), 3);
    m.drop_weak();
    assert_eq!(m.weak_count(), 0);
}

#[test]
fn reply_slot_returns_exact_reply() {
    let mut slot: ReplySlot<u32> = ReplySlot::new();
    assert!(slot.reply(99).is_ok());
    assert_eq!(slot.take(), Some(99));
}

#[test]
fn reply_slot_replies_only_once() {
    let mut slot: ReplySlot<u32> = ReplySlot::new();
    assert!(slot.reply(1).is_ok());
    assert_eq!(slot.reply(2), Err(2));
    assert_eq!(slot.take(), Some(1));
}

#[test]
fn reply_slot_closed_resolves_to_fallback() {
    let mut slot: ReplySlot<u32> = ReplySlot::new();
    slot.close();
    assert_eq!(slot.take_or(u32::default()), 0);
    let mut slot2: ReplySlot<u32> = ReplySlot::new();
    slot2.close();
    assert_eq!(slot2.take(), None);
}
