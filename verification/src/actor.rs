//! The actor trait and the lifecycle driver.
//!
//! The driver owns the loop: it builds the first incarnation from
//! initializer data, repeatedly runs the incarnation's step loop until it
//! yields a stop outcome, and applies the state transition, which either
//! hands back a successor incarnation (looping again) or ends the task.

use vstd::prelude::*;

use crate::actor_command::Break;
use crate::change_state::WithApplyCmd;
use crate::init_actor::WithInitActor;
use std::marker::PhantomData;

verus! {

/// A user-defined unit of state with its step loop.
///
/// `States` is the actor's declared state family: the set of concrete
/// incarnations one task may take on over its lifetime. `Cmd` is the
/// actor's command type, carried by a `Command` stop outcome.
pub trait Actor where Self: Sized {
    type States;

    type Cmd;

    /// What one run of the step loop admits of (state at entry, state at
    /// the stop, stop outcome). An implementation pins its loop down by
    /// defining this relation.
    spec fn loop_rel(pre: Self, post: Self, outcome: Result<Break, Self::Cmd>) -> bool;

    /// Process events one at a time until one step yields a stop outcome:
    /// `Ok(Break)` for a graceful stop, `Err(cmd)` for a stop carrying a
    /// command payload.
    fn infinite_loop(&mut self) -> (r: Result<Break, Self::Cmd>)
        ensures
            Self::loop_rel(*old(self), *final(self), r),
    ;
}

/// One lifecycle round: the step loop runs from `pre` to some stopped
/// state, and the transition that the stop outcome selects yields the
/// next member of the state family, or `None`, ending the task.
pub open spec fn round_rel<Act, V>(pre: Act, next: Option<V>) -> bool where
    Act: Actor<States = V>,
    Break: WithApplyCmd<Act, V>,
    Act::Cmd: WithApplyCmd<Act, V>,
{
    exists|mid: Act, outcome: Result<Break, Act::Cmd>|
        #[trigger] Act::loop_rel(pre, mid, outcome) && next == (match outcome {
            Result::Ok(b) => b.change_state_spec(mid),
            Result::Err(c) => c.change_state_spec(mid),
        })
}

/// Running exactly `rounds` lifecycle rounds from `start` leaves `end`,
/// within one state family equal to the actor type itself. A task that
/// ended stays ended: `None` absorbs the remaining rounds.
pub open spec fn lifecycle_runs<Act>(
    start: Option<Act>,
    end: Option<Act>,
    rounds: nat,
) -> bool where
    Act: Actor<States = Act>,
    Break: WithApplyCmd<Act>,
    Act::Cmd: WithApplyCmd<Act>,
    decreases rounds,
{
    if rounds == 0 {
        end == start
    } else {
        match start {
            Option::None => end is None,
            Option::Some(a) => exists|next: Option<Act>|
                #[trigger] round_rel(a, next) && lifecycle_runs(next, end, (rounds - 1) as nat),
        }
    }
}

/// A task that has ended stays ended through any further rounds.
proof fn lemma_lifecycle_ended<Act>(start: Option<Act>, rounds: nat, more: nat) where
    Act: Actor<States = Act>,
    Break: WithApplyCmd<Act>,
    Act::Cmd: WithApplyCmd<Act>,
    requires
        lifecycle_runs(start, None::<Act>, rounds),
        rounds <= more,
    ensures
        lifecycle_runs(start, None::<Act>, more),
    decreases more,
{
    if rounds == 0 {
        assert(start is None);
        if more > 0 {
            lemma_lifecycle_ended::<Act>(start, 0, (more - 1) as nat);
        }
    } else {
        match start {
            Option::Some(a) => {
                let next = choose|next: Option<Act>|
                    #[trigger] round_rel(a, next) && lifecycle_runs(
                        next,
                        None::<Act>,
                        (rounds - 1) as nat,
                    );
                lemma_lifecycle_ended(next, (rounds - 1) as nat, (more - 1) as nat);
            },
            Option::None => {
                lemma_lifecycle_ended(start, (rounds - 1) as nat, (more - 1) as nat);
            },
        }
    }
}

/// One more round after an exact run is an exact run one round longer.
proof fn lemma_lifecycle_step<Act>(
    start: Option<Act>,
    mid: Act,
    next: Option<Act>,
    rounds: nat,
) where
    Act: Actor<States = Act>,
    Break: WithApplyCmd<Act>,
    Act::Cmd: WithApplyCmd<Act>,
    requires
        lifecycle_runs(start, Some(mid), rounds),
        round_rel(mid, next),
    ensures
        lifecycle_runs(start, next, rounds + 1),
    decreases rounds,
{
    if rounds == 0 {
        assert(lifecycle_runs(next, next, 0));
    } else {
        let step = choose|step: Option<Act>|
            #[trigger] round_rel(start->0, step) && lifecycle_runs(
                step,
                Some(mid),
                (rounds - 1) as nat,
            );
        lemma_lifecycle_step(step, mid, next, (rounds - 1) as nat);
    }
}

/// One incarnation bundled with its state family, ready to be run for one
/// lifecycle round: step loop, then transition.
pub struct ActorWrap<Act, ActorVariants>(pub Act, pub PhantomData<ActorVariants>);

impl<Act, ActorVariants> ActorWrap<Act, ActorVariants> where
    Act: Actor<States = ActorVariants>,
    Break: WithApplyCmd<Act, ActorVariants>,
    Act::Cmd: WithApplyCmd<Act, ActorVariants>,
 {
    pub fn new(actor: Act) -> (r: Self)
        ensures
            r.0 == actor,
    {
        ActorWrap(actor, PhantomData)
    }

    /// Run the incarnation's step loop to its stop outcome, then apply the
    /// matching transition: the result is the successor member of the
    /// state family, or `None` when the task is over.
    pub fn infinite_loop(self) -> (r: Option<ActorVariants>)
        ensures
            round_rel(self.0, r),
    {
        let ActorWrap(mut actor, _) = self;
        let cmd: Result<Break, Act::Cmd> = actor.infinite_loop();
        match cmd {
            Result::Ok(cmd) => cmd.change_state(actor),
            Result::Err(cmd) => cmd.change_state(actor),
        }
    }
}

/// Run an actor's lifecycle: initialize, then loop through step and
/// transition rounds until a transition yields no successor, or until
/// `max_rounds` rounds have run. Returns `None` when the task terminated
/// by itself, and `Some(actor)` with the still-live incarnation when the
/// round budget ran out first; a self-perpetuating actor can be driven on
/// by calling again. What comes back is what running the lifecycle rounds
/// on the initialized incarnation leaves: the budget's worth of rounds, or
/// fewer where the task ended first.
pub fn run_actor<Act>(init_data: impl WithInitActor<Act>, max_rounds: usize) -> (r: Option<
    Act,
>) where
    Act: Actor<States = Act>,
    Break: WithApplyCmd<Act>,
    Act::Cmd: WithApplyCmd<Act>,
    ensures
        exists|first: Act|
            init_data.init_rel(first) && #[trigger] lifecycle_runs(
                Some(first),
                r,
                max_rounds as nat,
            ),
{
    run_actor_internal(init_data, max_rounds)
}

/// As [`run_actor`]; the name is a diagnostic label for schedulers that
/// support naming tasks, and plays no part in the lifecycle itself.
pub fn run_named_actor<Act>(init_data: impl WithInitActor<Act>, _name: &str, max_rounds: usize) -> (r:
    Option<Act>) where
    Act: Actor<States = Act>,
    Break: WithApplyCmd<Act>,
    Act::Cmd: WithApplyCmd<Act>,
    ensures
        exists|first: Act|
            init_data.init_rel(first) && #[trigger] lifecycle_runs(
                Some(first),
                r,
                max_rounds as nat,
            ),
{
    run_actor_internal(init_data, max_rounds)
}

fn run_actor_internal<Act>(init_data: impl WithInitActor<Act>, max_rounds: usize) -> (r: Option<
    Act,
>) where
    Act: Actor<States = Act>,
    Break: WithApplyCmd<Act>,
    Act::Cmd: WithApplyCmd<Act>,
    ensures
        exists|first: Act|
            init_data.init_rel(first) && #[trigger] lifecycle_runs(
                Some(first),
                r,
                max_rounds as nat,
            ),
{
    let mut opt_actor: Option<Act> = Some(init_data.init_actor());
    let ghost first: Act = opt_actor->0;
    let mut rounds: usize = 0;
    while rounds < max_rounds && opt_actor.is_some()
        invariant
            rounds <= max_rounds,
            init_data.init_rel(first),
            lifecycle_runs(Some(first), opt_actor, rounds as nat),
        decreases max_rounds - rounds,
    {
        let mut actor = opt_actor.unwrap();
        let ghost before_round = actor;
        let cmd: Result<Break, Act::Cmd> = actor.infinite_loop();
        opt_actor = match cmd {
            Result::Ok(cmd) => cmd.change_state(actor),
            Result::Err(cmd) => cmd.change_state(actor),
        };
        proof {
            assert(round_rel(before_round, opt_actor));
            lemma_lifecycle_step(Some(first), before_round, opt_actor, rounds as nat);
        }
        rounds = rounds + 1;
    }
    proof {
        if opt_actor is None {
            lemma_lifecycle_ended(Some(first), rounds as nat, max_rounds as nat);
        }
    }
    opt_actor
}

} // verus!
