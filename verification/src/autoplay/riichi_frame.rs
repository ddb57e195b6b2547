//! Sending one Riichi City decision into the window it was made for.
//!
//! A decision is a protocol frame that is sent on its own, beside the plan
//! loop. Several may be under way at once, so each is tied to the identity of
//! one decision window: the one that was open when the plan was made, or else
//! the first to open after it. The frame goes out once that window is up and
//! has been looked at for a human length of time. No send, the first or a later
//! one, is made once the window is gone.

use vstd::prelude::*;

use crate::clock::{after_ms, clock_ok, elapsed_ms, elapsed_ms_spec, later, NANOS_PER_MS};

verus! {

/// The shortest visible thinking time, in milliseconds.
pub const MIN_VISIBLE_THINK_MS: u32 = 2_000;

/// The longest thinking time, in milliseconds.
pub const THINK_CAP_MS: u32 = 10_000;

/// The pause between two looks for the window, in milliseconds.
pub const WINDOW_POLL_MS: u32 = 150;

/// How long our window may take to be open, in milliseconds.
pub const WINDOW_WAIT_MS: u32 = 15_000;

/// The pause between two looks for the server's answer, in milliseconds.
pub const ANSWER_POLL_MS: u32 = 50;

/// The shortest wait for the server's answer, in milliseconds.
pub const MIN_ANSWER_WAIT_MS: u32 = 500;

/// What was planned.
#[derive(Clone, Copy, Debug, PartialEq, Eq, Structural)]
pub struct FramePlan {
    /// The thinking time that the delay model asked for, in milliseconds.
    pub sleep_ms: u64,
    /// How long the server may take to answer, in milliseconds.
    pub verify_input_ms: u32,
    /// How often the frame may be sent again.
    pub retries: u32,
    /// Whether a window was open when the plan was made.
    pub window_open_at_plan: bool,
    /// The window that the plan was made against, if any.
    pub window_at_plan: Option<u64>,
    /// When the plan was made.
    pub plan_created: u64,
    /// How long the action may wait for its window to open, in milliseconds.
    pub grace_ms: u32,
}

/// The state of the connection at one moment.
#[derive(Clone, Copy, Debug, PartialEq, Eq, Structural)]
pub struct Moment {
    pub now: u64,
    /// Whether a game is in progress.
    pub in_game: bool,
    /// Whether a decision window is open.
    pub open: bool,
    /// When the latest window opened.
    pub opened_at: Option<u64>,
    /// Whether the server has answered since the first send.
    pub answered: bool,
    /// Whether the frame just handed over found a relay to take it.
    pub relayed: bool,
}

/// What to do next.
#[derive(Clone, Copy, Debug, PartialEq, Eq, Structural)]
pub enum FrameAction {
    /// Look again after this many milliseconds.
    Sleep(u64),
    /// Hand the frame to the relay and look again.
    Send,
    /// The decision is over without the frame having been sent.
    Drop,
    /// No relay took the frame.
    NoRelay,
    /// The server answered.
    Answered,
    /// The server never answered.
    Unanswered,
}

/// Where a decision stands.
#[derive(Clone, Copy, Debug, PartialEq, Eq, Structural)]
pub enum FrameStage {
    /// Nothing looked at yet.
    Fresh,
    /// Waiting for the first window after the plan.
    Opening { deadline: u64 },
    /// Waiting for our window to be the open one.
    Ours { id: u64, deadline: u64 },
    /// Letting the thinking time pass.
    Thinking { id: u64 },
    /// The frame has been handed over; was it taken?
    Handed { id: u64, attempt: u32 },
    /// Waiting for the server's answer.
    Answering { id: u64, attempt: u32, deadline: u64 },
    Over(FrameAction),
}

/// One Riichi City decision.
#[derive(Clone, Copy, Debug, PartialEq, Eq, Structural)]
pub struct FrameFlow {
    pub plan: FramePlan,
    pub stage: FrameStage,
}

/// Whether the window that opened at `id` is the open one.
pub open spec fn is_open(m: Moment, id: u64) -> bool {
    m.open && m.opened_at == Some(id)
}

/// Whether another window than `id` is open.
pub open spec fn other_open(m: Moment, id: u64) -> bool {
    m.open && m.opened_at != Some(id)
}

/// The thinking time of a decision: what was asked for, within its limits.
pub open spec fn think_ms(sleep_ms: u64) -> int {
    if sleep_ms < MIN_VISIBLE_THINK_MS {
        MIN_VISIBLE_THINK_MS as int
    } else if sleep_ms > THINK_CAP_MS {
        THINK_CAP_MS as int
    } else {
        sleep_ms as int
    }
}

/// How much of the thinking time is left at `now`, in milliseconds. It counts
/// from the opening of the window: that is when the server put the question.
pub open spec fn rest_of_think(sleep_ms: u64, id: u64, now: u64) -> int {
    let elapsed = elapsed_ms_spec(id, now);
    if elapsed < think_ms(sleep_ms) {
        think_ms(sleep_ms) - elapsed
    } else {
        0
    }
}

/// How long each send waits for its answer.
pub open spec fn answer_wait_ms(verify_input_ms: u32) -> u32 {
    if verify_input_ms < MIN_ANSWER_WAIT_MS {
        MIN_ANSWER_WAIT_MS
    } else {
        verify_input_ms
    }
}

/// A decision that is over.
pub open spec fn frame_over(plan: FramePlan, action: FrameAction) -> (FrameFlow, FrameAction) {
    (FrameFlow { plan, stage: FrameStage::Over(action) }, action)
}

/// The first look, before anything is waited for.
pub open spec fn frame_begin(plan: FramePlan, m: Moment) -> (FrameFlow, FrameAction) {
    if !m.in_game {
        frame_over(plan, FrameAction::Drop)
    } else if plan.window_open_at_plan {
        match plan.window_at_plan {
            None => frame_over(plan, FrameAction::Drop),
            Some(id) => frame_ours(plan, id, later(m.now, WINDOW_WAIT_MS as int) as u64, m),
        }
    } else {
        frame_opening(plan, later(plan.plan_created, plan.grace_ms as int) as u64, m)
    }
}

/// A look while no window of ours has opened yet.
pub open spec fn frame_opening(plan: FramePlan, deadline: u64, m: Moment) -> (
    FrameFlow,
    FrameAction,
) {
    if m.open && m.opened_at is Some && m.opened_at->0 >= plan.plan_created {
        frame_ours(plan, m.opened_at->0, later(m.now, WINDOW_WAIT_MS as int) as u64, m)
    } else if m.now >= deadline {
        frame_over(plan, FrameAction::Drop)
    } else {
        (
            FrameFlow { plan, stage: FrameStage::Opening { deadline } },
            FrameAction::Sleep(WINDOW_POLL_MS as u64),
        )
    }
}

/// A look while our window, known by now, is waited for.
pub open spec fn frame_ours(plan: FramePlan, id: u64, deadline: u64, m: Moment) -> (
    FrameFlow,
    FrameAction,
) {
    if is_open(m, id) {
        (
            FrameFlow { plan, stage: FrameStage::Thinking { id } },
            FrameAction::Sleep(rest_of_think(plan.sleep_ms, id, m.now) as u64),
        )
    } else if m.now >= deadline || other_open(m, id) {
        frame_over(plan, FrameAction::Drop)
    } else {
        (
            FrameFlow { plan, stage: FrameStage::Ours { id, deadline } },
            FrameAction::Sleep(WINDOW_POLL_MS as u64),
        )
    }
}

/// A look for the server's answer to send number `attempt`. The frame is sent
/// again only into the window it is for.
pub open spec fn frame_answering(
    plan: FramePlan,
    id: u64,
    attempt: u32,
    deadline: u64,
    m: Moment,
) -> (FrameFlow, FrameAction) {
    if m.answered {
        frame_over(plan, FrameAction::Answered)
    } else if m.now < deadline {
        (
            FrameFlow { plan, stage: FrameStage::Answering { id, attempt, deadline } },
            FrameAction::Sleep(ANSWER_POLL_MS as u64),
        )
    } else if attempt < plan.retries && is_open(m, id) {
        (
            FrameFlow { plan, stage: FrameStage::Handed { id, attempt: (attempt + 1) as u32 } },
            FrameAction::Send,
        )
    } else {
        frame_over(plan, FrameAction::Unanswered)
    }
}

/// Where a decision stands after a look at `m`, and what to do next.
pub open spec fn frame_step(flow: FrameFlow, m: Moment) -> (FrameFlow, FrameAction) {
    let plan = flow.plan;
    match flow.stage {
        FrameStage::Fresh => frame_begin(plan, m),
        FrameStage::Opening { deadline } => frame_opening(plan, deadline, m),
        FrameStage::Ours { id, deadline } => frame_ours(plan, id, deadline, m),
        FrameStage::Thinking { id } => if is_open(m, id) {
            (FrameFlow { plan, stage: FrameStage::Handed { id, attempt: 0 } }, FrameAction::Send)
        } else {
            frame_over(plan, FrameAction::Drop)
        },
        FrameStage::Handed { id, attempt } => if m.relayed {
            frame_answering(
                plan,
                id,
                attempt,
                later(m.now, answer_wait_ms(plan.verify_input_ms) as int) as u64,
                m,
            )
        } else {
            frame_over(plan, FrameAction::NoRelay)
        },
        FrameStage::Answering { id, attempt, deadline } => frame_answering(
            plan,
            id,
            attempt,
            deadline,
            m,
        ),
        FrameStage::Over(action) => (flow, action),
    }
}

/// The thinking time of a decision: what was asked for, within its limits.
pub fn think_time(sleep_ms: u64) -> (ms: u64)
    ensures
        ms == think_ms(sleep_ms),
{
    if sleep_ms < MIN_VISIBLE_THINK_MS as u64 {
        MIN_VISIBLE_THINK_MS as u64
    } else if sleep_ms > THINK_CAP_MS as u64 {
        THINK_CAP_MS as u64
    } else {
        sleep_ms
    }
}

impl Moment {
    fn shows(&self, id: u64) -> (res: bool)
        ensures
            res == (self.opened_at == Some(id)),
    {
        match self.opened_at {
            Some(at) => at == id,
            None => false,
        }
    }
}

impl FrameFlow {
    pub open spec fn wf(self) -> bool {
        &&& clock_ok(self.plan.plan_created)
        &&& match self.stage {
            FrameStage::Handed { attempt, .. } => attempt <= self.plan.retries,
            FrameStage::Answering { attempt, .. } => attempt <= self.plan.retries,
            FrameStage::Over(action) => !(action is Send) && !(action is Sleep),
            _ => true,
        }
    }

    /// A decision that nothing has been done about yet.
    pub fn new(plan: FramePlan) -> (flow: FrameFlow)
        requires
            clock_ok(plan.plan_created),
        ensures
            flow.wf(),
            flow.plan == plan,
            flow.stage is Fresh,
    {
        FrameFlow { plan, stage: FrameStage::Fresh }
    }

    /// Ends the decision.
    fn over(&mut self, action: FrameAction) -> (res: FrameAction)
        ensures
            (*final(self), res) == frame_over(old(self).plan, action),
    {
        self.stage = FrameStage::Over(action);
        action
    }

    fn look_opening(&mut self, deadline: u64, m: Moment) -> (action: FrameAction)
        requires
            clock_ok(m.now),
            clock_ok(old(self).plan.plan_created),
        ensures
            (*final(self), action) == frame_opening(old(self).plan, deadline, m),
            final(self).wf(),
    {
        if m.open {
            if let Some(id) = m.opened_at {
                if id >= self.plan.plan_created {
                    return self.look_ours(id, after_ms(m.now, WINDOW_WAIT_MS), m);
                }
            }
        }
        if m.now >= deadline {
            return self.over(FrameAction::Drop);
        }
        self.stage = FrameStage::Opening { deadline };
        FrameAction::Sleep(WINDOW_POLL_MS as u64)
    }

    fn look_ours(&mut self, id: u64, deadline: u64, m: Moment) -> (action: FrameAction)
        requires
            clock_ok(old(self).plan.plan_created),
        ensures
            (*final(self), action) == frame_ours(old(self).plan, id, deadline, m),
            final(self).wf(),
    {
        if m.open && m.shows(id) {
            let target: u64 = think_time(self.plan.sleep_ms);
            let elapsed: u64 = elapsed_ms(id, m.now);
            self.stage = FrameStage::Thinking { id };
            return FrameAction::Sleep(if elapsed < target { target - elapsed } else { 0 });
        }
        if m.now >= deadline || m.open {
            return self.over(FrameAction::Drop);
        }
        self.stage = FrameStage::Ours { id, deadline };
        FrameAction::Sleep(WINDOW_POLL_MS as u64)
    }

    fn look_answering(&mut self, id: u64, attempt: u32, deadline: u64, m: Moment) -> (action:
        FrameAction)
        requires
            clock_ok(old(self).plan.plan_created),
            attempt <= old(self).plan.retries,
        ensures
            (*final(self), action) == frame_answering(old(self).plan, id, attempt, deadline, m),
            final(self).wf(),
    {
        if m.answered {
            return self.over(FrameAction::Answered);
        }
        if m.now < deadline {
            self.stage = FrameStage::Answering { id, attempt, deadline };
            return FrameAction::Sleep(ANSWER_POLL_MS as u64);
        }
        if attempt < self.plan.retries && m.open && m.shows(id) {
            self.stage = FrameStage::Handed { id, attempt: attempt + 1 };
            return FrameAction::Send;
        }
        self.over(FrameAction::Unanswered)
    }

    /// Takes in a look at the connection and says what to do next.
    pub fn execute_riichi_frame(&mut self, m: Moment) -> (action: FrameAction)
        requires
            old(self).wf(),
            clock_ok(m.now),
        ensures
            final(self).wf(),
            (*final(self), action) == frame_step(*old(self), m),
    {
        match self.stage {
            FrameStage::Fresh => {
                if !m.in_game {
                    return self.over(FrameAction::Drop);
                }
                if self.plan.window_open_at_plan {
                    match self.plan.window_at_plan {
                        None => self.over(FrameAction::Drop),
                        Some(id) => self.look_ours(id, after_ms(m.now, WINDOW_WAIT_MS), m),
                    }
                } else {
                    let deadline: u64 = after_ms(self.plan.plan_created, self.plan.grace_ms);
                    self.look_opening(deadline, m)
                }
            },
            FrameStage::Opening { deadline } => self.look_opening(deadline, m),
            FrameStage::Ours { id, deadline } => self.look_ours(id, deadline, m),
            FrameStage::Thinking { id } => {
                if m.open && m.shows(id) {
                    self.stage = FrameStage::Handed { id, attempt: 0 };
                    FrameAction::Send
                } else {
                    self.over(FrameAction::Drop)
                }
            },
            FrameStage::Handed { id, attempt } => {
                if !m.relayed {
                    return self.over(FrameAction::NoRelay);
                }
                let wait: u32 = if self.plan.verify_input_ms < MIN_ANSWER_WAIT_MS {
                    MIN_ANSWER_WAIT_MS
                } else {
                    self.plan.verify_input_ms
                };
                self.look_answering(id, attempt, after_ms(m.now, wait), m)
            },
            FrameStage::Answering { id, attempt, deadline } => self.look_answering(
                id,
                attempt,
                deadline,
                m,
            ),
            FrameStage::Over(action) => action,
        }
    }
}

/// Where a decision stands after a whole sequence of looks.
pub open spec fn frame_flow_after(flow: FrameFlow, looks: Seq<Moment>) -> FrameFlow
    decreases looks.len(),
{
    if looks.len() == 0 {
        flow
    } else {
        frame_step(frame_flow_after(flow, looks.drop_last()), looks.last()).0
    }
}

/// How often the frame was sent in the course of a sequence of looks.
pub open spec fn sends(flow: FrameFlow, looks: Seq<Moment>) -> nat
    decreases looks.len(),
{
    if looks.len() == 0 {
        0
    } else {
        sends(flow, looks.drop_last()) + if frame_step(
            frame_flow_after(flow, looks.drop_last()),
            looks.last(),
        ).1 is Send {
            1nat
        } else {
            0
        }
    }
}

/// A decision that nothing has been done about yet.
pub open spec fn fresh(plan: FramePlan) -> FrameFlow {
    FrameFlow { plan, stage: FrameStage::Fresh }
}

/// Whether the window that opened at `id` may be the one a plan was made for:
/// the one open at the time of planning, or else one that opened later.
pub open spec fn answers(plan: FramePlan, id: u64) -> bool {
    if plan.window_open_at_plan {
        plan.window_at_plan == Some(id)
    } else {
        id >= plan.plan_created
    }
}

/// What holds of a decision at every moment of its life.
pub open spec fn frame_inv(plan: FramePlan, flow: FrameFlow, sent: nat) -> bool {
    &&& flow.plan == plan
    &&& match flow.stage {
        FrameStage::Opening { .. } => sent == 0 && !plan.window_open_at_plan,
        FrameStage::Ours { id, .. } => sent == 0 && answers(plan, id),
        FrameStage::Thinking { id } => sent == 0 && answers(plan, id),
        FrameStage::Handed { id, attempt } => {
            &&& sent == attempt + 1
            &&& attempt <= plan.retries
            &&& answers(plan, id)
        },
        FrameStage::Answering { id, attempt, .. } => {
            &&& sent == attempt + 1
            &&& attempt <= plan.retries
            &&& answers(plan, id)
        },
        FrameStage::Over(action) => {
            &&& sent <= plan.retries + 1
            &&& !(action is Send) && !(action is Sleep)
            &&& action is Drop ==> sent == 0
        },
        _ => sent == 0,
    }
}

proof fn frame_inv_step(plan: FramePlan, flow: FrameFlow, sent: nat, m: Moment)
    requires
        frame_inv(plan, flow, sent),
    ensures
        frame_inv(
            plan,
            frame_step(flow, m).0,
            sent + if frame_step(flow, m).1 is Send {
                1nat
            } else {
                0
            },
        ),
{
}

proof fn frame_inv_holds(plan: FramePlan, looks: Seq<Moment>)
    ensures
        frame_inv(plan, frame_flow_after(fresh(plan), looks), sends(fresh(plan), looks)),
    decreases looks.len(),
{
    if looks.len() > 0 {
        frame_inv_holds(plan, looks.drop_last());
        frame_inv_step(
            plan,
            frame_flow_after(fresh(plan), looks.drop_last()),
            sends(fresh(plan), looks.drop_last()),
            looks.last(),
        );
    }
}

/// A frame is sent at most once more than there are retries, and never by a
/// decision that is dropped.
pub proof fn sends_are_bounded(plan: FramePlan, looks: Seq<Moment>)
    ensures
        sends(fresh(plan), looks) <= plan.retries + 1,
        frame_flow_after(fresh(plan), looks).stage == FrameStage::Over(FrameAction::Drop) ==> sends(
            fresh(plan),
            looks,
        ) == 0,
{
    frame_inv_holds(plan, looks);
}

/// Every send of a decision, the first and the later ones, goes into a window
/// that the plan may be for and that the very look before it shows open.
pub proof fn a_frame_goes_into_its_own_window(plan: FramePlan, looks: Seq<Moment>, m: Moment)
    requires
        frame_step(frame_flow_after(fresh(plan), looks), m).1 is Send,
    ensures
        exists|id: u64| #[trigger] is_open(m, id) && answers(plan, id),
{
    frame_inv_holds(plan, looks);
    match frame_flow_after(fresh(plan), looks).stage {
        FrameStage::Thinking { id } => {
            assert(is_open(m, id) && answers(plan, id));
        },
        FrameStage::Handed { id, .. } => {
            assert(is_open(m, id) && answers(plan, id));
        },
        FrameStage::Answering { id, .. } => {
            assert(is_open(m, id) && answers(plan, id));
        },
        _ => {},
    }
}

/// The window that a decision is tied to, once it is tied to one.
pub open spec fn window_of(stage: FrameStage) -> Option<u64> {
    match stage {
        FrameStage::Ours { id, .. } => Some(id),
        FrameStage::Thinking { id } => Some(id),
        FrameStage::Handed { id, .. } => Some(id),
        FrameStage::Answering { id, .. } => Some(id),
        _ => None,
    }
}

/// A decision that is tied to a window stays tied to it until it is over, and
/// sends only while that window is the open one. So no two sends of a decision
/// go into different windows.
pub proof fn a_decision_keeps_its_window(flow: FrameFlow, m: Moment, id: u64)
    requires
        window_of(flow.stage) == Some(id),
    ensures
        frame_step(flow, m).0.stage is Over || window_of(frame_step(flow, m).0.stage) == Some(id),
        frame_step(flow, m).1 is Send ==> is_open(m, id),
{
}

/// No frame is sent when no game is in progress at the first look.
pub proof fn no_game_no_frame(plan: FramePlan, m: Moment)
    requires
        !m.in_game,
    ensures
        frame_step(fresh(plan), m) == frame_over(plan, FrameAction::Drop),
{
}

/// The server never sees an answer sooner than the thinking time after its
/// window opened: a decision that found its window open at `before` and slept
/// as long as it was told to sends no earlier than that.
pub proof fn the_server_sees_the_thinking_time(
    flow: FrameFlow,
    id: u64,
    ms: u64,
    before: Moment,
    m: Moment,
)
    requires
        frame_step(flow, before).0.stage == (FrameStage::Thinking { id }),
        frame_step(flow, before).1 == FrameAction::Sleep(ms),
        id <= before.now,
        m.now >= later(before.now, ms as int),
        frame_step(frame_step(flow, before).0, m).1 is Send,
    ensures
        m.now >= later(id, think_ms(flow.plan.sleep_ms)),
        MIN_VISIBLE_THINK_MS <= think_ms(flow.plan.sleep_ms) <= THINK_CAP_MS,
{
    assert(ms == rest_of_think(flow.plan.sleep_ms, id, before.now));
    let elapsed = elapsed_ms_spec(id, before.now);
    assert(elapsed * NANOS_PER_MS <= before.now - id);
}

/// A thinking time between two and ten seconds is kept as it is asked for; any
/// other is brought to the nearer end. What is left of it and what has elapsed of
/// it make it up.
pub proof fn thinking_is_kept_within_limits(sleep_ms: u64, id: u64, now: u64)
    ensures
        2_000 <= think_ms(sleep_ms) <= 10_000,
        2_000 <= sleep_ms <= 10_000 ==> think_ms(sleep_ms) == sleep_ms,
        sleep_ms < 2_000 ==> think_ms(sleep_ms) == 2_000,
        sleep_ms > 10_000 ==> think_ms(sleep_ms) == 10_000,
        rest_of_think(sleep_ms, id, now) >= 0,
        rest_of_think(sleep_ms, id, now) > 0 ==> rest_of_think(sleep_ms, id, now)
            + elapsed_ms_spec(id, now) == think_ms(sleep_ms),
        rest_of_think(sleep_ms, id, now) == 0 ==> elapsed_ms_spec(id, now) >= think_ms(sleep_ms),
{
}

/// At the first look, a decision made for an open window goes for that window and
/// no other: it thinks if the window is open, waits up to fifteen seconds while
/// none is, and is dropped if another one is or if its own has no instant.
pub proof fn the_first_look_with_a_window(plan: FramePlan, m: Moment)
    requires
        clock_ok(m.now),
        m.in_game,
        plan.window_open_at_plan,
    ensures
        ({
            let (after, action) = frame_step(fresh(plan), m);
            match plan.window_at_plan {
                None => action is Drop,
                Some(id) => {
                    &&& m.open && m.opened_at == Some(id) ==> after.stage == (
                    FrameStage::Thinking { id }) && action == FrameAction::Sleep(
                        rest_of_think(plan.sleep_ms, id, m.now) as u64,
                    )
                    &&& m.open && m.opened_at != Some(id) ==> action is Drop
                    &&& !m.open ==> after.stage == (FrameStage::Ours {
                        id,
                        deadline: (m.now + 15_000_000_000) as u64,
                    }) && action == FrameAction::Sleep(150)
                },
            }
        }),
{
}

/// While no window of its own is known, a decision takes the first that it sees
/// open and that opened no earlier than the plan was made. Until then it waits,
/// from the making of the plan on for as long as the action may, and is then
/// dropped.
pub proof fn a_decision_waits_for_its_window(flow: FrameFlow, m: Moment, id: u64)
    requires
        clock_ok(m.now),
        clock_ok(flow.plan.plan_created),
        !flow.plan.window_open_at_plan,
        flow.stage is Fresh && m.in_game || flow.stage == (FrameStage::Opening {
            deadline: (flow.plan.plan_created + flow.plan.grace_ms * 1_000_000) as u64,
        }),
    ensures
        ({
            let (after, action) = frame_step(flow, m);
            let ours = m.open && m.opened_at == Some(id) && id >= flow.plan.plan_created;
            let none = !m.open || m.opened_at is None || m.opened_at->0 < flow.plan.plan_created;
            let late = m.now - flow.plan.plan_created >= flow.plan.grace_ms * 1_000_000;
            &&& ours ==> after.stage == (FrameStage::Thinking { id }) && action
                == FrameAction::Sleep(rest_of_think(flow.plan.sleep_ms, id, m.now) as u64)
            &&& none && late ==> action is Drop
            &&& none && !late ==> after.stage == (FrameStage::Opening {
                deadline: (flow.plan.plan_created + flow.plan.grace_ms * 1_000_000) as u64,
            }) && action == FrameAction::Sleep(150)
        }),
{
}

/// A decision that knows its window thinks as soon as it sees it open, is dropped
/// as soon as it sees another open, and waits for it while none is until its time
/// is up.
pub proof fn a_known_window_is_waited_for(plan: FramePlan, id: u64, deadline: u64, m: Moment)
    ensures
        ({
            let flow = FrameFlow { plan, stage: FrameStage::Ours { id, deadline } };
            let (after, action) = frame_step(flow, m);
            &&& m.open && m.opened_at == Some(id) ==> after.stage == (FrameStage::Thinking { id })
                && action == FrameAction::Sleep(rest_of_think(plan.sleep_ms, id, m.now) as u64)
            &&& m.open && m.opened_at != Some(id) ==> action is Drop
            &&& !m.open && m.now >= deadline ==> action is Drop
            &&& !m.open && m.now < deadline ==> after == flow && action == FrameAction::Sleep(150)
        }),
{
}

/// A decision that has thought is sent if its window is still open, and dropped if
/// not.
pub proof fn a_thought_is_sent_or_dropped(plan: FramePlan, id: u64, m: Moment)
    ensures
        ({
            let (after, action) = frame_step(
                FrameFlow { plan, stage: FrameStage::Thinking { id } },
                m,
            );
            &&& m.open && m.opened_at == Some(id) ==> action is Send && after.stage == (
            FrameStage::Handed { id, attempt: 0 })
            &&& !m.open || m.opened_at != Some(id) ==> action is Drop
        }),
{
}

/// A frame that no relay took ends the decision. One that was taken is answered,
/// or its answer is waited for: for as long as the settings say, but for half a
/// second at least, counted from the send.
pub proof fn a_frame_that_is_out_is_waited_for(plan: FramePlan, id: u64, attempt: u32, m: Moment)
    requires
        clock_ok(m.now),
    ensures
        ({
            let (after, action) = frame_step(
                FrameFlow { plan, stage: FrameStage::Handed { id, attempt } },
                m,
            );
            let wait = if plan.verify_input_ms > 500 {
                plan.verify_input_ms as int
            } else {
                500
            };
            &&& !m.relayed ==> action is NoRelay
            &&& m.relayed && m.answered ==> action is Answered
            &&& m.relayed && !m.answered ==> action == FrameAction::Sleep(50) && after.stage == (
            FrameStage::Answering { id, attempt, deadline: (m.now + wait * 1_000_000) as u64 })
        }),
{
}

/// An answer ends the decision at any time. Without one it is waited for until its
/// time is up, and then the frame is sent again if a retry is left and the window
/// is still open, as one attempt more; otherwise it stays unanswered.
pub proof fn an_unanswered_frame_is_tried_again(
    plan: FramePlan,
    id: u64,
    attempt: u32,
    deadline: u64,
    m: Moment,
)
    ensures
        ({
            let flow = FrameFlow { plan, stage: FrameStage::Answering { id, attempt, deadline } };
            let (after, action) = frame_step(flow, m);
            let again = attempt < plan.retries && m.open && m.opened_at == Some(id);
            &&& m.answered ==> action is Answered
            &&& !m.answered && m.now < deadline ==> after == flow && action == FrameAction::Sleep(
                50,
            )
            &&& !m.answered && m.now >= deadline && again ==> action is Send && after.stage == (
            FrameStage::Handed { id, attempt: (attempt + 1) as u32 })
            &&& !m.answered && m.now >= deadline && !again ==> action is Unanswered
        }),
{
}

/// A decision is over exactly when it is told so, for good, and it carries out one
/// and the same plan all along.
pub proof fn what_is_over_stays_over(flow: FrameFlow, m: Moment)
    ensures
        ({
            let (after, action) = frame_step(flow, m);
            let told = action is Drop || action is NoRelay || action is Answered
                || action is Unanswered;
            &&& after.plan == flow.plan
            &&& flow.stage matches FrameStage::Over(last) ==> after == flow && action == last
            &&& !(flow.stage is Over) ==> (after.stage is Over <==> told)
            &&& !(flow.stage is Over) && told ==> after.stage == FrameStage::Over(action)
        }),
{
}

} // verus!
