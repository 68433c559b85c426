//! A small concrete actor: one timer listener and one mailbox listener,
//! a counter bumped on every tick, and a command stop once the counter
//! passes a threshold.
//!
//! Its dispatch impl (routing each payload variant to the matching
//! single-type handler) and its step loop (the two-listener multiplexer)
//! are written out by hand; they are the reference realization of the
//! boilerplate contracts that a code generator would otherwise emit.

use vstd::prelude::*;

use crate::MyActorShutdown;
use crate::actor::Actor;
use crate::actor_command::ActorCommand;
use crate::actor_command::Break;
use crate::actor_ref::ActorMsg;
use crate::change_state::ApplyCmd;
use crate::handle::Handle;
use crate::init_actor::InitActor;
use crate::listener::Listener;
use crate::listener::ScriptListener;
use crate::listener::decide;
use crate::listener::fair_pick;
use std::convert::Infallible;

verus! {

/// One firing of the actor's timer.
pub struct Tick;

/// The payloads this actor accepts through its mailbox.
pub enum Value {
    U32(u32),
    U64(u64),
    String(String),
}

/// The actor: private state plus its two listeners.
pub struct MyFirstTestActor {
    pub some_data: bool,
    /// The tick counter.
    pub some_other_data: usize,
    /// Once the counter passes this, a tick stops the actor.
    pub threshold: usize,
    /// The timer source.
    pub interval: Listener<ScriptListener<Tick>, Tick>,
    /// The mailbox source.
    pub channel: Listener<ScriptListener<Value, MyActorShutdown>, Value, MyActorShutdown>,
}

/// The initializer data the actor's first incarnation consumes.
pub struct MyFirstTestActorInit {
    /// The timer's scripted firings.
    pub ticks: Vec<ActorMsg<Tick, Infallible>>,
    /// The mailbox's scripted envelopes.
    pub mailbox: Vec<ActorMsg<Value, MyActorShutdown>>,
    /// The counter threshold.
    pub threshold: usize,
}

impl MyFirstTestActor {
    /// Timer firings still scripted.
    pub open spec fn ticks_left(self) -> nat {
        self.interval.0.events@.len()
    }

    /// Mailbox envelopes still scripted.
    pub open spec fn mail_left(self) -> nat {
        self.channel.0.events@.len()
    }

    /// The timer-driven scenario: a fresh counter, a silent mailbox, and
    /// enough scripted ticks to pass the threshold.
    pub open spec fn timer_driven_run(self) -> bool {
        &&& self.mail_left() == 0
        &&& self.some_other_data == 0
        &&& self.threshold < usize::MAX
        &&& self.threshold + 1 <= self.ticks_left()
        &&& forall|i: int|
            0 <= i < self.interval.0.events@.len() ==> (#[trigger] self.interval.0.events@[i])
                is Msg
    }
}

impl InitActor<MyFirstTestActorInit> for MyFirstTestActor {
    open spec fn init_rel(init: MyFirstTestActorInit, actor: Self) -> bool {
        &&& actor.some_data == true
        &&& actor.some_other_data == 0
        &&& actor.threshold == init.threshold
        &&& actor.interval.0.events == init.ticks
        &&& actor.channel.0.events == init.mailbox
    }

    fn init_actor(init: MyFirstTestActorInit) -> (r: Self) {
        MyFirstTestActor {
            some_data: true,
            some_other_data: 0,
            threshold: init.threshold,
            interval: Listener::new(ScriptListener::new(init.ticks)),
            channel: Listener::new(ScriptListener::new(init.mailbox)),
        }
    }
}

impl Handle<u32> for MyFirstTestActor {
    type Cmd = MyActorShutdown;

    open spec fn handle_rel(pre: Self, value: u32, post: Self, outcome: ActorCommand<
        MyActorShutdown,
    >) -> bool {
        post == pre && outcome == ActorCommand::<MyActorShutdown>(Ok(()))
    }

    /// Accept the number and keep looping.
    fn handle(&mut self, value: u32) -> (r: ActorCommand<MyActorShutdown>) {
        let _ = value;
        ActorCommand::from(())
    }
}

impl Handle<u64> for MyFirstTestActor {
    type Cmd = MyActorShutdown;

    open spec fn handle_rel(pre: Self, value: u64, post: Self, outcome: ActorCommand<
        MyActorShutdown,
    >) -> bool {
        post == pre && outcome == ActorCommand::<MyActorShutdown>(Err(Err(MyActorShutdown)))
    }

    /// A big number kills the actor: stop carrying the shutdown payload.
    fn handle(&mut self, value: u64) -> (r: ActorCommand<MyActorShutdown>) {
        let _ = value;
        ActorCommand(Err(Err(MyActorShutdown)))
    }
}

impl Handle<String> for MyFirstTestActor {
    type Cmd = MyActorShutdown;

    open spec fn handle_rel(pre: Self, value: String, post: Self, outcome: ActorCommand<
        MyActorShutdown,
    >) -> bool {
        post == pre && outcome == ActorCommand::<MyActorShutdown>(Ok(()))
    }

    /// Accept the text and keep looping; a handler may answer with an
    /// optional break marker, and this one never does.
    fn handle(&mut self, value: String) -> (r: ActorCommand<MyActorShutdown>) {
        let _ = value;
        ActorCommand::from(None::<Break>)
    }
}

impl Handle<Tick> for MyFirstTestActor {
    type Cmd = MyActorShutdown;

    open spec fn handle_rel(pre: Self, value: Tick, post: Self, outcome: ActorCommand<
        MyActorShutdown,
    >) -> bool {
        let bumped = if pre.some_other_data < usize::MAX {
            (pre.some_other_data + 1) as usize
        } else {
            pre.some_other_data
        };
        &&& post == (MyFirstTestActor { some_other_data: bumped, ..pre })
        &&& outcome == (if bumped > pre.threshold {
            ActorCommand::<MyActorShutdown>(Err(Err(MyActorShutdown)))
        } else {
            ActorCommand::<MyActorShutdown>(Ok(()))
        })
    }

    /// Count the tick; past the threshold, stop carrying the shutdown
    /// payload, else keep looping.
    fn handle(&mut self, _value: Tick) -> (r: ActorCommand<MyActorShutdown>) {
        if self.some_other_data < usize::MAX {
            self.some_other_data = self.some_other_data + 1;
        }
        if self.some_other_data > self.threshold {
            ActorCommand(Err(Err(MyActorShutdown)))
        } else {
            ActorCommand::from(())
        }
    }
}

/// The dispatch over the actor's enumerated payload: each variant routes
/// to the matching single-type handler, whose outcome is lifted into the
/// actor's own command type.
impl Handle<Value> for MyFirstTestActor {
    type Cmd = MyActorShutdown;

    open spec fn handle_rel(pre: Self, value: Value, post: Self, outcome: ActorCommand<
        MyActorShutdown,
    >) -> bool {
        match value {
            Value::U32(v) => <Self as Handle<u32>>::handle_rel(pre, v, post, outcome),
            Value::U64(v) => <Self as Handle<u64>>::handle_rel(pre, v, post, outcome),
            Value::String(v) => <Self as Handle<String>>::handle_rel(pre, v, post, outcome),
        }
    }

    fn handle(&mut self, value: Value) -> (r: ActorCommand<MyActorShutdown>) {
        match value {
            Value::U32(v) => Handle::<u32>::handle(self, v),
            Value::U64(v) => Handle::<u64>::handle(self, v),
            Value::String(v) => Handle::<String>::handle(self, v),
        }
    }
}

impl Actor for MyFirstTestActor {
    type States = MyFirstTestActor;

    type Cmd = MyActorShutdown;

    /// What the step loop guarantees: the threshold and flag never move,
    /// the counter never shrinks, a run with nothing scripted stops
    /// gracefully and untouched, and a timer-driven run stops with the
    /// shutdown command after consuming exactly threshold-plus-one ticks.
    open spec fn loop_rel(pre: Self, post: Self, outcome: Result<Break, MyActorShutdown>) -> bool {
        &&& post.threshold == pre.threshold
        &&& post.some_data == pre.some_data
        &&& post.some_other_data >= pre.some_other_data
        &&& (pre.ticks_left() == 0 && pre.mail_left() == 0 ==> outcome is Ok && post == pre)
        &&& (pre.timer_driven_run() ==> outcome is Err && post.some_other_data == pre.threshold
            + 1 && post.ticks_left() == pre.ticks_left() - (pre.threshold + 1) && post.mail_left()
            == 0)
    }

    /// The two-listener multiplexer: serve whichever source is ready,
    /// taking turns when both are, one event per step, until an event's
    /// decision stops the loop or both sources are exhausted.
    fn infinite_loop(&mut self) -> (r: Result<Break, MyActorShutdown>) {
        let mut last0: bool = false;
        let mut done: Option<Result<Break, MyActorShutdown>> = None;
        while done.is_none()
            invariant
                self.threshold == old(self).threshold,
                self.some_data == old(self).some_data,
                self.some_other_data >= old(self).some_other_data,
                old(self).ticks_left() == 0 && old(self).mail_left() == 0 ==> *self == *old(self)
                    && (done is None || done == Some(Result::<Break, MyActorShutdown>::Ok(Break))),
                old(self).timer_driven_run() ==> self.mail_left() == 0,
                old(self).timer_driven_run() ==> forall|i: int|
                    0 <= i < self.interval.0.events@.len() ==> (
                    #[trigger] self.interval.0.events@[i]) is Msg,
                old(self).timer_driven_run() ==> self.some_other_data + self.ticks_left() == old(
                    self,
                ).ticks_left(),
                old(self).timer_driven_run() && done is None ==> self.some_other_data
                    <= self.threshold,
                old(self).timer_driven_run() ==> (done matches Some(d) ==> d is Err
                    && self.some_other_data == self.threshold + 1),
            decreases (if done.is_some() {
                0int
            } else {
                1int
            }), self.interval.0.events@.len() + self.channel.0.events@.len(),
        {
            let tick_ready = self.interval.0.is_ready();
            let mail_ready = self.channel.0.is_ready();
            match fair_pick(tick_ready, mail_ready, last0) {
                Option::None => {
                    done = Some(Ok(Break));
                },
                Option::Some(which) => {
                    if which == 0 {
                        let ghost pre = *self;
                        let event = self.interval.next_msg();
                        last0 = true;
                        match event {
                            Option::None => {
                                done = Some(Ok(Break));
                            },
                            Option::Some(ActorMsg::Shutdown(_s)) => {
                                done = Some(Err(MyActorShutdown));
                            },
                            Option::Some(ActorMsg::Msg(m)) => {
                                let out = self.handle(m);
                                let d = decide(out);
                                if d.is_some() {
                                    done = d;
                                }
                                proof {
                                    if old(self).timer_driven_run() {
                                        assert forall|i: int|
                                            0 <= i < self.interval.0.events@.len() implies (
                                        #[trigger] self.interval.0.events@[i]) is Msg by {
                                            assert(self.interval.0.events@[i]
                                                == pre.interval.0.events@[i + 1]);
                                        }
                                    }
                                }
                            },
                        }
                    } else {
                        let event = self.channel.next_msg();
                        last0 = false;
                        match event {
                            Option::None => {
                                done = Some(Ok(Break));
                            },
                            Option::Some(ActorMsg::Shutdown(s)) => {
                                done = Some(Err(s));
                            },
                            Option::Some(ActorMsg::Msg(m)) => {
                                let out = self.handle(m);
                                let d = decide(out);
                                if d.is_some() {
                                    done = d;
                                }
                            },
                        }
                    }
                },
            }
        }
        match done {
            Option::Some(d) => d,
            Option::None => Ok(Break),
        }
    }
}

/// Transition for the shutdown payload: finalize and end the task, never
/// a successor incarnation.
impl ApplyCmd<MyActorShutdown> for MyFirstTestActor {
    open spec fn transition_spec(self, cmd: MyActorShutdown) -> Option<Self> {
        None
    }

    fn change_state(self, _cmd: MyActorShutdown) -> (r: Option<Self>) {
        None
    }
}

/// Transition for the graceful stop: likewise finalize and end the task.
impl ApplyCmd<Break> for MyFirstTestActor {
    open spec fn transition_spec(self, cmd: Break) -> Option<Self> {
        None
    }

    fn change_state(self, _cmd: Break) -> (r: Option<Self>) {
        None
    }
}

/// The reduced-form transitions mirror the full ones: finalize and end
/// the task, whichever outcome stopped the loop.
impl crate::stop_actor::ApplyCmd<MyActorShutdown> for MyFirstTestActor {
    open spec fn apply_cmd_spec(self, cmd: MyActorShutdown) -> Option<Self> {
        None
    }

    fn apply_cmd(self, _cmd: MyActorShutdown) -> (r: Option<Self>) {
        None
    }
}

impl crate::stop_actor::ApplyCmd<Break> for MyFirstTestActor {
    open spec fn apply_cmd_spec(self, cmd: Break) -> Option<Self> {
        None
    }

    fn apply_cmd(self, _cmd: Break) -> (r: Option<Self>) {
        None
    }
}

} // verus!
