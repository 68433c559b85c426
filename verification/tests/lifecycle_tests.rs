//! End-to-end lifecycles of the concrete actor: the timer-driven stop,
//! the degenerate no-event stop, mailbox dispatch, command envelopes,
//! transitions, and the driver's rounds.

use pupactor::ActorMsg;
use pupactor::ActorWrap;
use pupactor::ApplyCmd;
use pupactor::Break;
use pupactor::Handle;
use pupactor::InitActor;
use pupactor::Listener;
use pupactor::ScriptListener;
use pupactor::fair_pick;
use pupactor::first_test_actor::MyFirstTestActor;
use pupactor::first_test_actor::MyFirstTestActorInit;
use pupactor::first_test_actor::Tick;
use pupactor::first_test_actor::Value;
use pupactor::run_actor;
use pupactor::run_named_actor;
use pupactor::step_on_event;
use pupactor::MyActorShutdown;
use pupactor::WithHandle;
use pupactor::stop_actor::ApplyCmd as StopApplyCmd;
use pupactor::two_phase::Steady;
use pupactor::two_phase::TwoPhase;
use pupactor::two_phase::Warmup;
use pupactor::two_phase::advance;
use std::convert::Infallible;

fn ticks(n: usize) -> Vec<ActorMsg<Tick, Infallible>> {
    let mut v = Vec::new();
    for _ in 0..n {
        v.push(ActorMsg::Msg(Tick));
    }
    v
}

#[test]
fn timer_run_stops_after_threshold_plus_one_ticks() {
    let init = MyFirstTestActorInit { ticks: ticks(10), mailbox: Vec::new(), threshold: 2 };
    let mut actor = MyFirstTestActor::init_actor(init);
    let outcome = pupactor::Actor::infinite_loop(&mut actor);
    assert!(matches!(outcome, Err(MyActorShutdown)));
    assert_eq!(actor.some_other_data, 3);
    assert_eq!(actor.interval.0.events.len(), 7);
    assert_eq!(actor.channel.0.events.len(), 0);
    let next = actor.change_state(MyActorShutdown);
    assert!(next.is_none());
}

#[test]
fn whole_lifecycle_terminates_with_no_new_incarnation() {
    let init = MyFirstTestActorInit { ticks: ticks(6), mailbox: Vec::new(), threshold: 5 };
    let left = run_actor::<MyFirstTestActor>(init, 8);
    assert!(left.is_none());
}

#[test]
fn named_run_behaves_like_the_plain_one() {
    let init = MyFirstTestActorInit { ticks: ticks(4), mailbox: Vec::new(), threshold: 3 };
    let left = run_named_actor::<MyFirstTestActor>(init, "counter", 8);
    assert!(left.is_none());
}

#[test]
fn zero_round_budget_hands_the_live_actor_back() {
    let init = MyFirstTestActorInit { ticks: ticks(3), mailbox: Vec::new(), threshold: 2 };
    let left = run_actor::<MyFirstTestActor>(init, 0);
    let actor = left.expect("no round ran, so the incarnation is still live");
    assert_eq!(actor.some_other_data, 0);
}

#[test]
fn no_events_means_immediate_graceful_stop() {
    let init = MyFirstTestActorInit { ticks: Vec::new(), mailbox: Vec::new(), threshold: 5 };
    let mut actor = MyFirstTestActor::init_actor(init);
    let outcome = pupactor::Actor::infinite_loop(&mut actor);
    assert!(matches!(outcome, Ok(Break)));
    assert_eq!(actor.some_other_data, 0);
}

#[test]
fn mailbox_kill_payload_stops_the_actor() {
    let init = MyFirstTestActorInit {
        ticks: Vec::new(),
        mailbox: vec![ActorMsg::Msg(Value::U32(5)), ActorMsg::Msg(Value::U64(9))],
        threshold: 100,
    };
    let mut actor = MyFirstTestActor::init_actor(init);
    let outcome = pupactor::Actor::infinite_loop(&mut actor);
    assert!(matches!(outcome, Err(MyActorShutdown)));
    assert_eq!(actor.channel.0.events.len(), 0);
}

#[test]
fn mailbox_exhaustion_stops_gracefully() {
    let init = MyFirstTestActorInit {
        ticks: Vec::new(),
        mailbox: vec![
            ActorMsg::Msg(Value::U32(5)),
            ActorMsg::Msg(Value::String(String::from("hello"))),
        ],
        threshold: 100,
    };
    let mut actor = MyFirstTestActor::init_actor(init);
    let outcome = pupactor::Actor::infinite_loop(&mut actor);
    assert!(matches!(outcome, Ok(Break)));
    assert_eq!(actor.some_other_data, 0);
}

#[test]
fn command_envelope_skips_handlers_and_stops() {
    let init = MyFirstTestActorInit {
        ticks: Vec::new(),
        mailbox: vec![ActorMsg::Shutdown(MyActorShutdown), ActorMsg::Msg(Value::U64(9))],
        threshold: 100,
    };
    let mut actor = MyFirstTestActor::init_actor(init);
    let outcome = pupactor::Actor::infinite_loop(&mut actor);
    assert!(matches!(outcome, Err(MyActorShutdown)));
    assert_eq!(actor.channel.0.events.len(), 1);
}

#[test]
fn both_sources_take_turns() {
    let init = MyFirstTestActorInit {
        ticks: ticks(2),
        mailbox: vec![ActorMsg::Msg(Value::U32(1)), ActorMsg::Msg(Value::U32(2))],
        threshold: 100,
    };
    let mut actor = MyFirstTestActor::init_actor(init);
    let outcome = pupactor::Actor::infinite_loop(&mut actor);
    assert!(matches!(outcome, Ok(Break)));
    assert_eq!(actor.some_other_data, 2);
    assert_eq!(actor.interval.0.events.len(), 0);
    assert_eq!(actor.channel.0.events.len(), 0);
}

#[test]
fn fair_pick_alternates_between_two_ready_listeners() {
    assert_eq!(fair_pick(true, true, false), Some(0));
    assert_eq!(fair_pick(true, true, true), Some(1));
    assert_eq!(fair_pick(true, false, true), Some(0));
    assert_eq!(fair_pick(false, true, false), Some(1));
    assert_eq!(fair_pick(false, false, false), None);
    let mut last0 = false;
    let mut served = [0usize, 0usize];
    for _ in 0..10 {
        let pick = fair_pick(true, true, last0).unwrap();
        served[pick] += 1;
        last0 = pick == 0;
    }
    assert_eq!(served, [5, 5]);
}

#[test]
fn transition_is_deterministic_on_equal_inputs() {
    let make = || {
        MyFirstTestActor::init_actor(MyFirstTestActorInit {
            ticks: ticks(1),
            mailbox: Vec::new(),
            threshold: 0,
        })
    };
    let a = make().change_state(MyActorShutdown);
    let b = make().change_state(MyActorShutdown);
    assert!(a.is_none() && b.is_none());
    let c = make().change_state(Break);
    assert!(c.is_none());
}

#[test]
fn actor_wrap_runs_one_round() {
    let init = MyFirstTestActorInit { ticks: ticks(2), mailbox: Vec::new(), threshold: 1 };
    let actor = MyFirstTestActor::init_actor(init);
    let next = ActorWrap::<MyFirstTestActor, MyFirstTestActor>::new(actor).infinite_loop();
    assert!(next.is_none());
}

#[test]
fn step_on_event_end_of_stream_is_break() {
    let init = MyFirstTestActorInit { ticks: Vec::new(), mailbox: Vec::new(), threshold: 0 };
    let mut actor = MyFirstTestActor::init_actor(init);
    let d = step_on_event::<MyFirstTestActor, Value, MyActorShutdown>(&mut actor, None);
    assert!(matches!(d, Some(Ok(Break))));
}

#[test]
fn step_on_event_dispatches_to_the_matching_handler() {
    let init = MyFirstTestActorInit { ticks: Vec::new(), mailbox: Vec::new(), threshold: 5 };
    let mut actor = MyFirstTestActor::init_actor(init);
    let keep = step_on_event::<MyFirstTestActor, Value, MyActorShutdown>(
        &mut actor,
        Some(ActorMsg::Msg(Value::U32(7))),
    );
    assert!(keep.is_none());
    let stop = step_on_event::<MyFirstTestActor, Value, MyActorShutdown>(
        &mut actor,
        Some(ActorMsg::Msg(Value::U64(7))),
    );
    assert!(matches!(stop, Some(Err(MyActorShutdown))));
}

#[test]
fn handlers_conclude_in_the_documented_outcomes() {
    let init = MyFirstTestActorInit { ticks: Vec::new(), mailbox: Vec::new(), threshold: 1 };
    let mut actor = MyFirstTestActor::init_actor(init);
    let keep = Handle::<u32>::handle(&mut actor, 3);
    assert!(matches!(keep.0, Ok(())));
    let quiet = Handle::<String>::handle(&mut actor, String::from("x"));
    assert!(matches!(quiet.0, Ok(())));
    let first_tick = Handle::<Tick>::handle(&mut actor, Tick);
    assert!(matches!(first_tick.0, Ok(())));
    assert_eq!(actor.some_other_data, 1);
    let second_tick = Handle::<Tick>::handle(&mut actor, Tick);
    assert!(matches!(second_tick.0, Err(Err(MyActorShutdown))));
    assert_eq!(actor.some_other_data, 2);
    let kill = Handle::<u64>::handle(&mut actor, 3);
    assert!(matches!(kill.0, Err(Err(MyActorShutdown))));
}

#[test]
fn listener_wrapper_delegates_to_its_source() {
    let mut listener: Listener<ScriptListener<u32>, u32> =
        Listener::new(ScriptListener::new(vec![ActorMsg::Msg(4u32)]));
    assert!(listener.0.is_ready());
    assert!(matches!(listener.next_msg(), Some(ActorMsg::Msg(4))));
    assert!(!listener.0.is_ready());
    assert!(listener.next_msg().is_none());
}

#[test]
fn state_family_changes_incarnation_type() {
    let first = advance(TwoPhase::Warm(Warmup { seed: 7 }));
    let next = match first {
        Some(TwoPhase::Steady(Steady { level })) => {
            assert_eq!(level, 7);
            TwoPhase::Steady(Steady { level })
        },
        _ => panic!("a warm-up must hand on a steady incarnation"),
    };
    assert!(advance(next).is_none());
}

#[test]
fn actor_wrap_drives_a_type_changing_round() {
    let next = ActorWrap::<Warmup, TwoPhase>::new(Warmup { seed: 3 }).infinite_loop();
    assert!(matches!(next, Some(TwoPhase::Steady(Steady { level: 3 }))));
    let done = ActorWrap::<Steady, TwoPhase>::new(Steady { level: 3 }).infinite_loop();
    assert!(done.is_none());
}

#[test]
fn reduced_transition_also_ends_the_task() {
    let init = MyFirstTestActorInit { ticks: ticks(1), mailbox: Vec::new(), threshold: 0 };
    let actor = MyFirstTestActor::init_actor(init);
    assert!(StopApplyCmd::apply_cmd(actor, MyActorShutdown).is_none());
}

#[test]
fn payload_dispatches_itself_through_with_handle() {
    let init = MyFirstTestActorInit { ticks: Vec::new(), mailbox: Vec::new(), threshold: 5 };
    let mut actor = MyFirstTestActor::init_actor(init);
    let keep = WithHandle::with_handle(Value::U32(5), &mut actor);
    assert!(matches!(keep.0, Ok(())));
    let stop = WithHandle::with_handle(Value::U64(5), &mut actor);
    assert!(matches!(stop.0, Err(Err(MyActorShutdown))));
}
