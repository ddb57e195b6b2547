//! The two buses that the autoplay manager follows, and when it ends.

use vstd::prelude::*;

verus! {

/// A bus that the manager follows.
#[derive(Clone, Copy, Debug, PartialEq, Eq, Structural)]
pub enum Bus {
    /// The decisions of the bot.
    Responses,
    /// The events of the game.
    Games,
}

/// What came off a bus.
#[derive(Clone, Copy, Debug, PartialEq, Eq, Structural)]
pub enum BusOutcome {
    /// A message came.
    Message,
    /// So many messages were lost.
    Lagged(u64),
    /// No more messages will come.
    Closed,
}

/// What the manager does about what came off a bus.
#[derive(Clone, Copy, Debug, PartialEq, Eq, Structural)]
pub enum BusStep {
    Handle,
    /// Warn of so many lost messages and go on.
    Skip(u64),
}

/// Why the manager ended: this bus was closed.
#[derive(Clone, Copy, Debug, PartialEq, Eq, Structural)]
pub struct BusError {
    pub bus: Bus,
}

/// What the manager does about what came off a bus. A message is handled, a gap
/// is only warned of, and a closed bus ends the manager with an error.
pub open spec fn bus_stepped(bus: Bus, outcome: BusOutcome) -> Result<BusStep, BusError> {
    match outcome {
        BusOutcome::Message => Ok(BusStep::Handle),
        BusOutcome::Lagged(n) => Ok(BusStep::Skip(n)),
        BusOutcome::Closed => Err(BusError { bus }),
    }
}

/// What the manager does about what came off a bus.
pub fn bus_step(bus: Bus, outcome: BusOutcome) -> (step: Result<BusStep, BusError>)
    ensures
        step == bus_stepped(bus, outcome),
{
    match outcome {
        BusOutcome::Message => Ok(BusStep::Handle),
        BusOutcome::Lagged(n) => Ok(BusStep::Skip(n)),
        BusOutcome::Closed => Err(BusError { bus }),
    }
}

/// How a run of the manager ended over what came off the buses, one after the
/// other; nothing while it is still running.
pub open spec fn run_ended(outcomes: Seq<(Bus, BusOutcome)>) -> Option<BusError>
    decreases outcomes.len(),
{
    if outcomes.len() == 0 {
        None
    } else {
        match run_ended(outcomes.drop_last()) {
            Some(error) => Some(error),
            None => match bus_stepped(outcomes.last().0, outcomes.last().1) {
                Ok(_) => None,
                Err(error) => Some(error),
            },
        }
    }
}

/// Whether a bus was found closed.
pub open spec fn found_closed(outcomes: Seq<(Bus, BusOutcome)>, bus: Bus) -> bool {
    exists|i: int| 0 <= i < outcomes.len() && #[trigger] outcomes[i] == (bus, BusOutcome::Closed)
}

/// The manager runs on as long as both buses are open, whatever is lost on them,
/// and ends with an error as soon as one of them is closed: the error names that
/// bus.
pub proof fn only_a_closed_bus_ends_the_manager(outcomes: Seq<(Bus, BusOutcome)>)
    ensures
        run_ended(outcomes) is Some <==> found_closed(outcomes, Bus::Responses) || found_closed(
            outcomes,
            Bus::Games,
        ),
        run_ended(outcomes) matches Some(error) ==> found_closed(outcomes, error.bus),
    decreases outcomes.len(),
{
    if outcomes.len() > 0 {
        let before = outcomes.drop_last();
        let last = outcomes.len() - 1;
        only_a_closed_bus_ends_the_manager(before);
        assert forall|bus: Bus| found_closed(before, bus) implies found_closed(outcomes, bus) by {
            let i = choose|i: int|
                0 <= i < before.len() && #[trigger] before[i] == (bus, BusOutcome::Closed);
            assert(outcomes[i] == before[i]);
        }
        assert forall|bus: Bus|
            found_closed(outcomes, bus) && outcomes[last] != (bus, BusOutcome::Closed) implies found_closed(
            before,
            bus,
        ) by {
            let i = choose|i: int|
                0 <= i < outcomes.len() && #[trigger] outcomes[i] == (bus, BusOutcome::Closed);
            assert(before[i] == outcomes[i]);
        }
        assert(outcomes.last() == outcomes[last]);
    }
}

/// A message and nothing else is handled, and a gap is skipped with the number of
/// messages that were lost in it, on either bus alike.
pub proof fn messages_are_handled(bus: Bus, outcome: BusOutcome, n: u64)
    ensures
        bus_stepped(bus, outcome) == Ok::<BusStep, BusError>(BusStep::Handle) <==> outcome
            is Message,
        bus_stepped(bus, outcome) == Ok::<BusStep, BusError>(BusStep::Skip(n)) <==> outcome
            == BusOutcome::Lagged(n),
        bus_stepped(bus, outcome) matches Err(error) ==> error.bus == bus && outcome is Closed,
{
}

} // verus!
