//! Waiting for the client, one look at a time.

use vstd::prelude::*;

use crate::clock::{after_ms, clock_ok, later};

verus! {

/// The pause between two looks at the page, in milliseconds.
pub const PAGE_POLL_MS: u32 = 120;

/// How long a button may take to be offered, in milliseconds.
pub const OFFER_BUDGET_MS: u32 = 2_400;

/// The pause between two looks at the client's input counter, in milliseconds.
pub const INPUT_POLL_MS: u32 = 20;

/// What one look found.
#[derive(Clone, Copy, Debug, PartialEq, Eq, Structural)]
pub enum Look {
    /// What was waited for.
    Hit,
    /// Not there yet.
    Miss,
    /// The look itself failed.
    Fault,
}

/// How a wait goes on.
#[derive(Clone, Copy, Debug, PartialEq, Eq, Structural)]
pub enum PollStep {
    /// The wait is over; did it succeed?
    Done(bool),
    /// Look again after this many milliseconds.
    Sleep(u32),
}

/// A bounded wait.
#[derive(Clone, Copy, Debug, PartialEq, Eq, Structural)]
pub struct Poll {
    /// When to give up.
    pub deadline: u64,
    /// The pause between two looks, in milliseconds.
    pub pause_ms: u32,
}

/// How `poll` goes on after `look` was taken at `now`.
pub open spec fn poll_step(poll: Poll, look: Look, now: u64) -> PollStep {
    match look {
        Look::Hit => PollStep::Done(true),
        Look::Fault => PollStep::Done(false),
        Look::Miss => if now >= poll.deadline {
            PollStep::Done(false)
        } else {
            PollStep::Sleep(poll.pause_ms)
        },
    }
}

impl Poll {
    /// The wait for the client to start its clock.
    pub fn await_turn_ready(now: u64, timeout_ms: u32) -> (p: Poll)
        requires
            clock_ok(now),
        ensures
            p.deadline == later(now, timeout_ms as int),
            p.pause_ms == PAGE_POLL_MS,
            p == ready_poll(now, timeout_ms),
    {
        Poll { deadline: after_ms(now, timeout_ms), pause_ms: PAGE_POLL_MS }
    }

    /// The wait for the client to offer a button.
    pub fn press_when_offered(now: u64) -> (p: Poll)
        requires
            clock_ok(now),
        ensures
            p.deadline == later(now, OFFER_BUDGET_MS as int),
            p.pause_ms == PAGE_POLL_MS,
            p == offer_poll(now),
    {
        Poll { deadline: after_ms(now, OFFER_BUDGET_MS), pause_ms: PAGE_POLL_MS }
    }

    /// The wait for the client to send an input command.
    pub fn wait_for_input(now: u64, timeout_ms: u32) -> (p: Poll)
        requires
            clock_ok(now),
        ensures
            p.deadline == later(now, timeout_ms as int),
            p.pause_ms == INPUT_POLL_MS,
            p == input_poll(now, timeout_ms),
    {
        Poll { deadline: after_ms(now, timeout_ms), pause_ms: INPUT_POLL_MS }
    }

    /// How the wait goes on after `look` was taken at `now`.
    pub fn step(&self, look: Look, now: u64) -> (s: PollStep)
        ensures
            s == poll_step(*self, look, now),
    {
        match look {
            Look::Hit => PollStep::Done(true),
            Look::Fault => PollStep::Done(false),
            Look::Miss => {
                if now >= self.deadline {
                    PollStep::Done(false)
                } else {
                    PollStep::Sleep(self.pause_ms)
                }
            },
        }
    }
}

/// What the client's input counters say, as a look. Where a plain discard is no
/// proof of the press (`require_non_discard`), only other inputs count.
pub fn input_look(require_non_discard: bool, non_discard_sent: bool, any_sent: bool) -> (look: Look)
    ensures
        look is Hit <==> (if require_non_discard { non_discard_sent } else { any_sent }),
        look is Hit || look is Miss,
        look is Hit <==> proves_a_press(require_non_discard, non_discard_sent, any_sent),
{
    let seen = if require_non_discard { non_discard_sent } else { any_sent };
    if seen {
        Look::Hit
    } else {
        Look::Miss
    }
}

/// How a wait ended over the looks taken, each with its time; nothing while it
/// goes on.
pub open spec fn waited(poll: Poll, looks: Seq<(Look, u64)>) -> Option<bool>
    decreases looks.len(),
{
    if looks.len() == 0 {
        None
    } else {
        match waited(poll, looks.drop_last()) {
            Some(result) => Some(result),
            None => match poll_step(poll, looks.last().0, looks.last().1) {
                PollStep::Done(result) => Some(result),
                PollStep::Sleep(_) => None,
            },
        }
    }
}

/// A whole wait is over once a look was taken at its deadline or later, and it
/// succeeds only if some look hit.
pub proof fn waits_come_to_an_end(poll: Poll, looks: Seq<(Look, u64)>)
    ensures
        (exists|i: int| 0 <= i < looks.len() && (#[trigger] looks[i]).1 >= poll.deadline) ==> waited(
            poll,
            looks,
        ) is Some,
        waited(poll, looks) == Some(true) ==> exists|i: int|
            0 <= i < looks.len() && (#[trigger] looks[i]).0 is Hit,
    decreases looks.len(),
{
    if looks.len() > 0 {
        let before = looks.drop_last();
        let last = looks.len() - 1;
        waits_come_to_an_end(poll, before);
        assert(looks[last] == looks.last());
        assert forall|i: int| 0 <= i < before.len() implies #[trigger] before[i] == looks[i] by {}
        if waited(poll, before) == Some(true) {
            let i = choose|i: int| 0 <= i < before.len() && (#[trigger] before[i]).0 is Hit;
            assert(looks[i].0 is Hit);
        }
        if exists|i: int| 0 <= i < looks.len() && (#[trigger] looks[i]).1 >= poll.deadline {
            let i = choose|i: int| 0 <= i < looks.len() && (#[trigger] looks[i]).1 >= poll.deadline;
            if i < last {
                assert(before[i].1 >= poll.deadline);
            }
        }
    }
}

/// A wait ends at its deadline at the latest, whatever is seen then, and it
/// succeeds only on a hit.
pub proof fn waits_are_bounded(poll: Poll, look: Look, now: u64)
    ensures
        now >= poll.deadline ==> poll_step(poll, look, now) is Done,
        poll_step(poll, look, now) == PollStep::Done(true) <==> look is Hit,
{
}

/// The wait for the client to start its clock.
pub open spec fn ready_poll(now: u64, timeout_ms: u32) -> Poll {
    Poll { deadline: later(now, timeout_ms as int) as u64, pause_ms: PAGE_POLL_MS }
}

/// The wait for the client to offer a button.
pub open spec fn offer_poll(now: u64) -> Poll {
    Poll { deadline: later(now, OFFER_BUDGET_MS as int) as u64, pause_ms: PAGE_POLL_MS }
}

/// The wait for the client to send an input command.
pub open spec fn input_poll(now: u64, timeout_ms: u32) -> Poll {
    Poll { deadline: later(now, timeout_ms as int) as u64, pause_ms: INPUT_POLL_MS }
}

/// After a miss, a wait goes on for as long as its time has not run out, counted
/// from its beginning, and after no other look: with a pause of 120 milliseconds
/// between two looks at the page, and of 20 between two at the input counter. A
/// hit ends it well and a fault badly at any time.
pub proof fn waits_go_on_until_their_time_is_up(began: u64, timeout_ms: u32, look: Look, now: u64)
    requires
        clock_ok(began),
    ensures
        poll_step(ready_poll(began, timeout_ms), look, now) == if look is Miss && now - began
            < timeout_ms * 1_000_000 {
            PollStep::Sleep(120)
        } else {
            PollStep::Done(look is Hit)
        },
        poll_step(offer_poll(began), look, now) == if look is Miss && now - began < 2_400_000_000 {
            PollStep::Sleep(120)
        } else {
            PollStep::Done(look is Hit)
        },
        poll_step(input_poll(began, timeout_ms), look, now) == if look is Miss && now - began
            < timeout_ms * 1_000_000 {
            PollStep::Sleep(20)
        } else {
            PollStep::Done(look is Hit)
        },
{
}

/// Whether the client's input counters prove a press.
pub open spec fn proves_a_press(require_non_discard: bool, non_discard_sent: bool, any_sent: bool) -> bool {
    if require_non_discard {
        non_discard_sent
    } else {
        any_sent
    }
}

/// Where a discard would be no proof, only another input is; elsewhere any input
/// is proof, whether it is a discard or not.
pub proof fn the_right_counter_is_asked(non_discard_sent: bool, any_sent: bool)
    ensures
        proves_a_press(true, non_discard_sent, any_sent) == non_discard_sent,
        proves_a_press(false, non_discard_sent, any_sent) == any_sent,
{
}

} // verus!
