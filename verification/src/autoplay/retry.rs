//! Pressing again when the client took no notice.
//!
//! A canvas swallows a click without a word, so the proof that a press landed
//! is the client's own input command. [`RetryFlow`] waits for that command and
//! presses again when it does not come: a bounded number of times, each press
//! held longer, and only while the decision is still open.

use vstd::prelude::*;

use crate::autoplay::window::{window_moved, window_still_open};

verus! {

/// The longest hold of a retried press, in milliseconds.
pub const MAX_HOLD_MS: u32 = 2_000;

/// Which clicks to press again on retry `attempt`, counted from zero.
///
/// The last click of a plan is the one that commits the action and the one most
/// likely to have been swallowed, so the first retry presses only that. Later
/// retries replay the whole sequence.
pub fn retry_slice<T>(clicks: &[T], attempt: u32) -> (again: &[T])
    ensures
        again@ == clicks@.skip(retry_from(clicks@.len(), attempt) as int),
{
    if attempt == 0 && clicks.len() > 1 {
        clicks.split_at(clicks.len() - 1).1
    } else {
        assert(clicks@.skip(0) =~= clicks@);
        clicks
    }
}

/// The position of the first click that retry `attempt` presses again.
pub open spec fn retry_from(clicks: nat, attempt: u32) -> nat {
    if attempt == 0 && clicks > 1 {
        (clicks - 1) as nat
    } else {
        0
    }
}

/// The hold of retry press number `attempt`, counted from zero, for a first
/// press that was held `base` milliseconds.
pub open spec fn retry_hold(base: int, attempt: int) -> int {
    if base * (attempt + 2) <= MAX_HOLD_MS {
        base * (attempt + 2)
    } else {
        MAX_HOLD_MS as int
    }
}

/// The hold of retry press number `attempt`, counted from zero: the first retry
/// is the second press and holds twice as long as the first press did, up to
/// two seconds.
pub fn retry_hold_ms(base: u32, attempt: u32) -> (ms: u32)
    ensures
        ms == retry_hold(base as int, attempt as int),
{
    let times: u64 = attempt as u64 + 2;
    assert(base * times <= 0xffff_ffff * 0x1_0000_0001) by (nonlinear_arith)
        requires
            base <= 0xffff_ffff,
            times <= 0x1_0000_0001,
    ;
    let hold: u64 = base as u64 * times;
    if hold <= MAX_HOLD_MS as u64 {
        hold as u32
    } else {
        MAX_HOLD_MS
    }
}

/// What happened while a press was being verified.
#[derive(Clone, Copy, Debug, PartialEq, Eq, Structural)]
pub enum RetryEvent {
    /// The wait for an input command is over: was one `seen`, and which
    /// decision window is live now?
    Waited { seen: bool, window: Option<u64> },
    /// The presses of a retry are out, unless the page was gone.
    Pressed { page: bool },
}

/// What to do next while a press is being verified.
#[derive(Clone, Copy, Debug, PartialEq, Eq, Structural)]
pub enum RetryAction {
    /// Wait for an input command.
    Wait,
    /// Press the clicks from position `from` on again, each held for `hold_ms`,
    /// with a nudge of the cursor in mid-press if `jiggle`.
    Press { from: usize, hold_ms: u32, jiggle: bool },
    /// Verification is over: did the press register?
    Done(bool),
}

/// Where the verification of a press stands.
#[derive(Clone, Copy, Debug, PartialEq, Eq, Structural)]
pub enum RetryStage {
    Waiting,
    Pressing,
    Over(bool),
}

/// The verification of the presses of one plan.
#[derive(Clone, Copy, Debug, PartialEq, Eq, Structural)]
pub struct RetryFlow {
    /// How many clicks the plan holds.
    pub clicks: usize,
    /// How many retries are allowed.
    pub retries: u32,
    /// How long the first press was held, in milliseconds.
    pub hold_ms: u32,
    /// The decision window that the plan was made against.
    pub planned: Option<u64>,
    /// The retries made so far.
    pub attempt: u32,
    pub stage: RetryStage,
}

/// Where verification stands after `ev`, and what to do next.
pub open spec fn retry_step(flow: RetryFlow, ev: RetryEvent) -> (RetryFlow, RetryAction) {
    match (flow.stage, ev) {
        (RetryStage::Waiting, RetryEvent::Waited { seen, window }) => {
            if seen {
                retry_over(flow, true)
            } else if flow.attempt == flow.retries {
                retry_over(flow, false)
            } else if window_moved(flow.planned, window) {
                // The answer was merely slow: the decision is behind us.
                retry_over(flow, true)
            } else {
                (
                    RetryFlow { stage: RetryStage::Pressing, ..flow },
                    RetryAction::Press {
                        from: retry_from(flow.clicks as nat, flow.attempt) as usize,
                        hold_ms: retry_hold(flow.hold_ms as int, flow.attempt as int) as u32,
                        jiggle: flow.attempt >= 1,
                    },
                )
            }
        },
        (RetryStage::Pressing, RetryEvent::Pressed { page }) => {
            if page {
                (
                    RetryFlow {
                        attempt: (flow.attempt + 1) as u32,
                        stage: RetryStage::Waiting,
                        ..flow
                    },
                    RetryAction::Wait,
                )
            } else {
                retry_over(flow, false)
            }
        },
        (RetryStage::Over(registered), _) => retry_over(flow, registered),
        _ => retry_over(flow, false),
    }
}

/// Verification over, with this result.
pub open spec fn retry_over(flow: RetryFlow, registered: bool) -> (RetryFlow, RetryAction) {
    (RetryFlow { stage: RetryStage::Over(registered), ..flow }, RetryAction::Done(registered))
}

impl RetryFlow {
    /// The retries made never exceed those allowed, and a press is only under
    /// way while one is left.
    pub open spec fn wf(self) -> bool {
        &&& self.attempt <= self.retries
        &&& self.stage is Pressing ==> self.attempt < self.retries
    }

    /// Starts verifying a plan of `clicks` clicks. A plan without clicks needs
    /// no proof.
    pub fn start(clicks: usize, retries: u32, hold_ms: u32, planned: Option<u64>) -> (res: (
        RetryFlow,
        RetryAction,
    ))
        ensures
            res.0.wf(),
            res.0.clicks == clicks,
            res.0.retries == retries,
            res.0.hold_ms == hold_ms,
            res.0.planned == planned,
            res.0.attempt == 0,
            clicks == 0 ==> res.0.stage == RetryStage::Over(true) && res.1 == RetryAction::Done(
                true,
            ),
            clicks > 0 ==> res.0.stage is Waiting && res.1 is Wait,
            res == retry_start(clicks, retries, hold_ms, planned),
    {
        if clicks == 0 {
            (
                RetryFlow {
                    clicks,
                    retries,
                    hold_ms,
                    planned,
                    attempt: 0,
                    stage: RetryStage::Over(true),
                },
                RetryAction::Done(true),
            )
        } else {
            (
                RetryFlow {
                    clicks,
                    retries,
                    hold_ms,
                    planned,
                    attempt: 0,
                    stage: RetryStage::Waiting,
                },
                RetryAction::Wait,
            )
        }
    }

    /// Takes in what happened and says what to do next.
    pub fn verify_and_retry(&mut self, ev: RetryEvent) -> (action: RetryAction)
        requires
            old(self).wf(),
        ensures
            final(self).wf(),
            (*final(self), action) == retry_step(*old(self), ev),
    {
        let result: bool = match (self.stage, ev) {
            (RetryStage::Waiting, RetryEvent::Waited { seen, window }) => {
                if seen {
                    true
                } else if self.attempt == self.retries {
                    false
                } else if !window_still_open(self.planned, window) {
                    true
                } else {
                    let from: usize = if self.attempt == 0 && self.clicks > 1 {
                        self.clicks - 1
                    } else {
                        0
                    };
                    let hold_ms: u32 = retry_hold_ms(self.hold_ms, self.attempt);
                    let jiggle = self.attempt >= 1;
                    self.stage = RetryStage::Pressing;
                    return RetryAction::Press { from, hold_ms, jiggle };
                }
            },
            (RetryStage::Pressing, RetryEvent::Pressed { page }) => {
                if page {
                    self.attempt = self.attempt + 1;
                    self.stage = RetryStage::Waiting;
                    return RetryAction::Wait;
                }
                false
            },
            (RetryStage::Over(registered), _) => registered,
            _ => false,
        };
        self.stage = RetryStage::Over(result);
        RetryAction::Done(result)
    }
}

/// Where verification stands after a whole sequence of events.
pub open spec fn retry_flow_after(flow: RetryFlow, evs: Seq<RetryEvent>) -> RetryFlow
    decreases evs.len(),
{
    if evs.len() == 0 {
        flow
    } else {
        retry_step(retry_flow_after(flow, evs.drop_last()), evs.last()).0
    }
}

/// How many retries were pressed in the course of a sequence of events.
pub open spec fn presses(flow: RetryFlow, evs: Seq<RetryEvent>) -> nat
    decreases evs.len(),
{
    if evs.len() == 0 {
        0
    } else {
        presses(flow, evs.drop_last()) + if retry_step(
            retry_flow_after(flow, evs.drop_last()),
            evs.last(),
        ).1 is Press {
            1nat
        } else {
            0
        }
    }
}

/// Whatever happens, no plan is pressed again more often than is allowed.
pub proof fn retries_are_bounded(flow: RetryFlow, evs: Seq<RetryEvent>)
    requires
        flow.wf(),
        flow.attempt == 0,
        !(flow.stage is Pressing),
    ensures
        presses(flow, evs) <= flow.retries,
{
    presses_are_counted(flow, evs);
}

/// The retries pressed so far are those counted, and the one under way.
proof fn presses_are_counted(flow: RetryFlow, evs: Seq<RetryEvent>)
    requires
        flow.wf(),
        flow.attempt == 0,
        !(flow.stage is Pressing),
    ensures
        retry_flow_after(flow, evs).wf(),
        retry_flow_after(flow, evs).retries == flow.retries,
        presses(flow, evs) <= flow.retries,
        retry_flow_after(flow, evs).stage is Waiting ==> presses(flow, evs) == retry_flow_after(
            flow,
            evs,
        ).attempt,
        retry_flow_after(flow, evs).stage is Pressing ==> presses(flow, evs) == retry_flow_after(
            flow,
            evs,
        ).attempt + 1,
    decreases evs.len(),
{
    if evs.len() > 0 {
        presses_are_counted(flow, evs.drop_last());
    }
}

/// A retry is pressed only when no input command was seen and the decision is
/// still open.
pub proof fn retries_never_reach_the_next_decision(
    flow: RetryFlow,
    seen: bool,
    window: Option<u64>,
)
    ensures
        retry_step(flow, RetryEvent::Waited { seen, window }).1 is Press ==> !seen && !window_moved(
            flow.planned,
            window,
        ),
{
}

/// A wait that ends the verification ends it for a reason: the press registered
/// if an input command was seen or the decision is behind us, and it failed only
/// after a miss with no retry left.
pub proof fn a_result_has_its_reason(flow: RetryFlow, seen: bool, window: Option<u64>)
    requires
        flow.wf(),
        flow.stage is Waiting,
    ensures
        retry_step(flow, RetryEvent::Waited { seen, window }).1 == RetryAction::Done(true) <==> seen
            || (flow.attempt < flow.retries && window_moved(flow.planned, window)),
        retry_step(flow, RetryEvent::Waited { seen, window }).1 == RetryAction::Done(false)
            <==> !seen && flow.attempt == flow.retries,
{
}

/// Every press holds at least as long as the one before it, from the very first
/// retry on, unless the hold is already at its limit; no retry exceeds it.
pub proof fn holds_escalate(base: u32, attempt: u32)
    ensures
        retry_hold(base as int, attempt as int) <= MAX_HOLD_MS,
        retry_hold(base as int, attempt as int) <= retry_hold(base as int, attempt + 1),
        base <= MAX_HOLD_MS / 2 ==> retry_hold(base as int, 0) == 2 * base,
{
    assert(base * (attempt + 2) <= base * (attempt + 1 + 2)) by (nonlinear_arith)
        requires
            0 <= base,
            0 <= attempt,
    ;
    assert(base * (0int + 2) == 2 * base) by (nonlinear_arith);
}

/// The click that commits an action is part of every retry. It is the only one of
/// the first retry, and every later retry begins with the first click.
pub proof fn the_committing_click_is_always_pressed_again(clicks: nat, attempt: u32)
    requires
        clicks > 0,
    ensures
        retry_from(clicks, attempt) < clicks,
        attempt == 0 ==> retry_from(clicks, attempt) == clicks - 1,
        attempt > 0 ==> retry_from(clicks, attempt) == 0,
{
}

/// A retry holds a press as many times as long as it is the press of that number,
/// counting the first, but two seconds at most: the hold is never longer than
/// either, and it is always one of them.
pub proof fn a_hold_is_a_multiple_or_the_limit(base: u32, attempt: u32)
    ensures
        retry_hold(base as int, attempt as int) <= 2_000,
        retry_hold(base as int, attempt as int) <= base * (attempt + 2),
        retry_hold(base as int, attempt as int) == 2_000 || retry_hold(base as int, attempt as int)
            == base * (attempt + 2),
{
}

/// The verification of a plan, before anything has happened.
pub open spec fn retry_start(
    clicks: usize,
    retries: u32,
    hold_ms: u32,
    planned: Option<u64>,
) -> (RetryFlow, RetryAction) {
    let stage = if clicks == 0 {
        RetryStage::Over(true)
    } else {
        RetryStage::Waiting
    };
    let action = if clicks == 0 {
        RetryAction::Done(true)
    } else {
        RetryAction::Wait
    };
    (RetryFlow { clicks, retries, hold_ms, planned, attempt: 0, stage }, action)
}

/// The first thing to do is to wait for the client, unless there is nothing to
/// prove. The first miss then presses the committing click again, held twice as
/// long and steady, if a retry is allowed and the planned window is still live.
pub proof fn the_first_miss_presses_again(
    clicks: usize,
    retries: u32,
    hold_ms: u32,
    planned: Option<u64>,
)
    ensures
        retry_start(clicks, retries, hold_ms, planned).1 == if clicks == 0 {
            RetryAction::Done(true)
        } else {
            RetryAction::Wait
        },
        clicks > 0 && retries > 0 && hold_ms <= 1_000 ==> retry_step(
            retry_start(clicks, retries, hold_ms, planned).0,
            RetryEvent::Waited { seen: false, window: planned },
        ).1 == (RetryAction::Press {
            from: (clicks - 1) as usize,
            hold_ms: (2 * hold_ms) as u32,
            jiggle: false,
        }),
{
    assert(hold_ms * (0int + 2) == 2 * hold_ms) by (nonlinear_arith);
}

/// A miss with a retry left and the decision still open presses again, from the
/// click and with the hold that belong to the retry, and with a nudge from the
/// second retry on. Presses that are out are waited for like the first, as one
/// retry more; a page that is gone ends it as a failure. What the plan was stays
/// what it was.
pub proof fn retries_follow_their_plan(flow: RetryFlow, ev: RetryEvent)
    requires
        flow.wf(),
    ensures
        ({
            let (after, action) = retry_step(flow, ev);
            &&& after.clicks == flow.clicks && after.retries == flow.retries
            &&& after.hold_ms == flow.hold_ms && after.planned == flow.planned
            &&& flow.stage is Waiting && ev is Waited ==> after.attempt == flow.attempt
            &&& action matches RetryAction::Press { from, hold_ms, jiggle } ==> {
                &&& flow.stage is Waiting && ev is Waited && after.stage is Pressing
                &&& from == retry_from(flow.clicks as nat, flow.attempt)
                &&& hold_ms == retry_hold(flow.hold_ms as int, flow.attempt as int)
                &&& jiggle <==> flow.attempt != 0
            }
            &&& flow.stage is Waiting && ev is Waited && !ev->seen && flow.attempt < flow.retries
                && (flow.planned is None || ev->window == flow.planned) ==> action is Press
            &&& flow.stage is Pressing && ev == (RetryEvent::Pressed { page: true }) ==> {
                &&& action is Wait
                &&& after.stage is Waiting
                &&& after.attempt == flow.attempt + 1
            }
            &&& flow.stage is Pressing && ev == (RetryEvent::Pressed { page: false }) ==> action
                == RetryAction::Done(false)
            &&& action is Wait ==> flow.stage is Pressing
            &&& action matches RetryAction::Done(registered) ==> after.stage == RetryStage::Over(
                registered,
            )
            &&& flow.stage matches RetryStage::Over(registered) ==> (after, action) == (
                flow,
                RetryAction::Done(registered),
            )
            &&& flow.stage is Waiting && ev is Pressed || flow.stage is Pressing && ev is Waited
                ==> action == RetryAction::Done(false)
        }),
{
}

} // verus!
