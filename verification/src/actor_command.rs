//! The command algebra: the three-way outcome of processing one event.
//!
//! Every handler run concludes, directly or through a conversion, in an
//! [`ActorCommand`]: keep looping (`Continue`), stop gracefully (`Break`),
//! or stop carrying a typed payload (`Command`). Handlers may return the
//! most natural shape — nothing, a marker, an option, a result — and the
//! conversions below canonicalize it.

use vstd::prelude::*;

verus! {

/// Marker for an unconditional graceful stop, independent of any
/// user-defined command type.
pub struct Break;

/// Outcome of a handler that asks the loop to fetch the next event.
pub type Continue = ();

/// Wrapper that distinguishes a command payload: the actor stops looping
/// and the payload is handed to the state-transition machinery.
pub struct Cmd<T = ()>(pub T);

/// The canonical three-way outcome: `Ok(())` is *continue*,
/// `Err(Ok(Break))` is *graceful stop*, `Err(Err(c))` is *stop with
/// command payload `c`*.
pub struct ActorCommand<Command>(pub Result<Continue, Result<Break, Command>>);

impl<Command> ActorCommand<Command> {
    /// The outcome asks the loop to fetch the next event.
    pub open spec fn is_continue(self) -> bool {
        self.0 is Ok
    }

    /// The outcome is an unconditional graceful stop.
    pub open spec fn is_break(self) -> bool {
        self.0 matches Err(Ok(Break))
    }

    /// The outcome stops the actor and carries a command payload.
    pub open spec fn is_command(self) -> bool {
        self.0 matches Err(Err(_))
    }

    /// The carried payload, when the outcome is a command.
    pub open spec fn payload(self) -> Command
        recommends
            self.is_command(),
    {
        self.0->Err_0->Err_0
    }
}

/// Law: every command-algebra value is exactly one of *continue*,
/// *break*, *command* — never zero of them and never more than one — and
/// a command is nothing but its carried payload.
pub proof fn lemma_exactly_one_outcome<Command>(c: ActorCommand<Command>)
    ensures
        c.is_continue() || c.is_break() || c.is_command(),
        !(c.is_continue() && c.is_break()),
        !(c.is_continue() && c.is_command()),
        !(c.is_break() && c.is_command()),
        c.is_command() ==> c == ActorCommand::<Command>(Err(Err(c.payload()))),
{
}

impl<Command> From<()> for ActorCommand<Command> {
    /// A handler that returns nothing means: keep looping.
    fn from(_value: ()) -> (r: Self) {
        ActorCommand(Ok(()))
    }
}

impl<Command> vstd::std_specs::convert::FromSpecImpl<()> for ActorCommand<Command> {
    open spec fn obeys_from_spec() -> bool {
        true
    }

    open spec fn from_spec(_value: ()) -> Self {
        ActorCommand(Ok(()))
    }
}

impl<Command> From<Break> for ActorCommand<Command> {
    /// The break marker means: stop gracefully.
    fn from(_value: Break) -> (r: Self) {
        ActorCommand(Err(Ok(Break)))
    }
}

impl<Command> vstd::std_specs::convert::FromSpecImpl<Break> for ActorCommand<Command> {
    open spec fn obeys_from_spec() -> bool {
        true
    }

    open spec fn from_spec(_value: Break) -> Self {
        ActorCommand(Err(Ok(Break)))
    }
}

impl<Command, C> From<Cmd<C>> for ActorCommand<Command> where Command: From<C> {
    /// A wrapped payload means: stop, carrying the payload widened into
    /// the actor's full command type.
    fn from(value: Cmd<C>) -> (r: Self) {
        let Cmd(payload) = value;
        ActorCommand(Err(Err(Command::from(payload))))
    }
}

impl<Command, C> vstd::std_specs::convert::FromSpecImpl<Cmd<C>> for ActorCommand<Command> where Command: From<C> {
    open spec fn obeys_from_spec() -> bool {
        <Command as vstd::std_specs::convert::FromSpec<C>>::obeys_from_spec()
    }

    open spec fn from_spec(value: Cmd<C>) -> Self {
        ActorCommand(Err(Err(<Command as vstd::std_specs::convert::FromSpec<C>>::from_spec(value.0))))
    }
}

impl<Command, C> From<Option<C>> for ActorCommand<Command> where ActorCommand<Command>: From<C> {
    /// `None` means: keep looping; `Some` recurses on the inner value's
    /// own conversion.
    fn from(value: Option<C>) -> (r: Self) {
        match value {
            Option::Some(inner) => ActorCommand::from(inner),
            Option::None => ActorCommand(Ok(())),
        }
    }
}

impl<Command, C> vstd::std_specs::convert::FromSpecImpl<Option<C>> for ActorCommand<Command> where ActorCommand<Command>: From<C> {
    open spec fn obeys_from_spec() -> bool {
        <ActorCommand<Command> as vstd::std_specs::convert::FromSpec<C>>::obeys_from_spec()
    }

    open spec fn from_spec(value: Option<C>) -> Self {
        match value {
            Option::Some(inner) => <ActorCommand<Command> as vstd::std_specs::convert::FromSpec<
                C,
            >>::from_spec(inner),
            Option::None => ActorCommand(Ok(())),
        }
    }
}

impl<Command, C1, C2> From<Result<C1, C2>> for ActorCommand<Command> where ActorCommand<Command>: From<C1> + From<C2> {
    /// A result recurses on whichever side is populated.
    fn from(value: Result<C1, C2>) -> (r: Self) {
        match value {
            Result::Ok(inner) => ActorCommand::from(inner),
            Result::Err(inner) => ActorCommand::from(inner),
        }
    }
}

impl<Command, C1, C2> vstd::std_specs::convert::FromSpecImpl<Result<C1, C2>> for ActorCommand<Command> where ActorCommand<Command>: From<C1> + From<C2> {
    open spec fn obeys_from_spec() -> bool {
        &&& <ActorCommand<Command> as vstd::std_specs::convert::FromSpec<C1>>::obeys_from_spec()
        &&& <ActorCommand<Command> as vstd::std_specs::convert::FromSpec<C2>>::obeys_from_spec()
    }

    open spec fn from_spec(value: Result<C1, C2>) -> Self {
        match value {
            Result::Ok(inner) => <ActorCommand<Command> as vstd::std_specs::convert::FromSpec<
                C1,
            >>::from_spec(inner),
            Result::Err(inner) => <ActorCommand<Command> as vstd::std_specs::convert::FromSpec<
                C2,
            >>::from_spec(inner),
        }
    }
}

} // verus!
