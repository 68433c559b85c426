//! A minimal state family of two structurally different incarnations.
//!
//! One actor task may morph across concrete implementations: the family
//! is a closed sum over every allowed incarnation, and each transition is
//! dispatched statically on the pair (current incarnation type, outcome
//! type). Here a warm-up incarnation hands its seed to a steady one,
//! which then stops for good — the smallest run that changes type.

use vstd::prelude::*;

use crate::actor::Actor;
use crate::actor_command::Break;
use crate::change_state::ApplyCmd;
use crate::change_state::WithApplyCmd;

verus! {

/// The warm-up incarnation: it exists only to hand its seed on.
pub struct Warmup {
    pub seed: usize,
}

/// The steady incarnation a warm-up turns into.
pub struct Steady {
    pub level: usize,
}

/// The closed state family: the set of incarnations one task may run.
pub enum TwoPhase {
    Warm(Warmup),
    Steady(Steady),
}

/// The command a warm-up stops with, carrying what the successor needs.
pub struct Switch(pub usize);

impl Actor for Warmup {
    type States = TwoPhase;

    type Cmd = Switch;

    open spec fn loop_rel(pre: Self, post: Self, outcome: Result<Break, Switch>) -> bool {
        post == pre && outcome == Err::<Break, Switch>(Switch(pre.seed))
    }

    /// A warm-up processes no events: it stops at once, carrying its seed.
    fn infinite_loop(&mut self) -> (r: Result<Break, Switch>) {
        Err(Switch(self.seed))
    }
}

/// The type-changing transition: a warm-up consumed with a switch command
/// becomes a steady incarnation at the carried level.
impl ApplyCmd<Switch> for Warmup {
    open spec fn transition_spec(self, cmd: Switch) -> Option<TwoPhase> {
        Some(TwoPhase::Steady(Steady { level: cmd.0 }))
    }

    fn change_state(self, cmd: Switch) -> (r: Option<TwoPhase>) {
        Some(TwoPhase::Steady(Steady { level: cmd.0 }))
    }
}

/// A warm-up stopped gracefully ends the task.
impl ApplyCmd<Break> for Warmup {
    open spec fn transition_spec(self, cmd: Break) -> Option<TwoPhase> {
        None
    }

    fn change_state(self, _cmd: Break) -> (r: Option<TwoPhase>) {
        None
    }
}

impl Actor for Steady {
    type States = TwoPhase;

    type Cmd = Switch;

    open spec fn loop_rel(pre: Self, post: Self, outcome: Result<Break, Switch>) -> bool {
        post == pre && outcome == Ok::<Break, Switch>(Break)
    }

    /// A steady incarnation has nothing left to wait on: it stops
    /// gracefully at once.
    fn infinite_loop(&mut self) -> (r: Result<Break, Switch>) {
        Ok(Break)
    }
}

/// A steady incarnation never hands the task on: either stop outcome ends
/// it.
impl ApplyCmd<Switch> for Steady {
    open spec fn transition_spec(self, cmd: Switch) -> Option<TwoPhase> {
        None
    }

    fn change_state(self, _cmd: Switch) -> (r: Option<TwoPhase>) {
        None
    }
}

impl ApplyCmd<Break> for Steady {
    open spec fn transition_spec(self, cmd: Break) -> Option<TwoPhase> {
        None
    }

    fn change_state(self, _cmd: Break) -> (r: Option<TwoPhase>) {
        None
    }
}

/// One lifecycle round of the family: run the current incarnation's step
/// loop to its stop outcome, then apply the transition that the pair
/// (incarnation tag, outcome type) selects. A warm-up always hands on a
/// steady incarnation carrying its seed; a steady incarnation always ends
/// the task.
pub fn advance(phase: TwoPhase) -> (r: Option<TwoPhase>)
    ensures
        phase matches TwoPhase::Warm(w) ==> r == Some(
            TwoPhase::Steady(Steady { level: w.seed }),
        ),
        phase is Steady ==> r is None,
{
    match phase {
        TwoPhase::Warm(mut warm) => {
            let cmd = warm.infinite_loop();
            match cmd {
                Result::Ok(cmd) => cmd.change_state(warm),
                Result::Err(cmd) => cmd.change_state(warm),
            }
        },
        TwoPhase::Steady(mut steady) => {
            let cmd = steady.infinite_loop();
            match cmd {
                Result::Ok(cmd) => cmd.change_state(steady),
                Result::Err(cmd) => cmd.change_state(steady),
            }
        },
    }
}

} // verus!
