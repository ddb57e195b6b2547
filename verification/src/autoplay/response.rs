//! One bot decision, from its arrival to the last press.
//!
//! [`ResponseFlow`] takes in what the program around it finds (the settings,
//! the seat, the plan, the canvas, what became of each press) and says what to
//! do next. A decision is dropped as soon as there is reason to: autoplay is
//! off, the seat is unknown, the window has been answered before, or the window
//! it was planned for is gone.

use vstd::prelude::*;

use crate::autoplay::manager::{tally, ManagerState, Memory};
use crate::autoplay::plan::{
    clicks_canvas, frame_of_plan, last_frame, last_sleep, needs_canvas, planner_for, planner_of,
    Planner, Step,
};
use crate::autoplay::window::{discard_needs_window_guard, tenhou_window_moved, window_moved};
use crate::events::{MjaiEvent, Platform};

verus! {

/// The settings of clicking.
#[derive(Clone, Copy, Debug, PartialEq, Eq, Structural)]
pub struct ClickConfig {
    /// How long to wait for the client to take a press, in milliseconds; zero
    /// to leave presses unverified.
    pub verify_input_ms: u32,
    /// How often a press that was not taken is made again.
    pub click_retries: u32,
    /// After how many failed decisions in a row to reload the page; zero for
    /// never.
    pub reload_after_failures: u32,
}

/// What the program around a decision reports.
pub enum ResponseEvent<C> {
    /// The settings, and the two slots that hold the live decision window.
    Config {
        enabled: bool,
        platform: Platform,
        click: ClickConfig,
        window: Option<u64>,
        budget: Option<u64>,
    },
    /// The game engine's view: our seat, and the number of players at the
    /// table of which it has a picture.
    Engine { seat: Option<u8>, num_players: Option<u8> },
    /// The plan of the platform.
    Planned { steps: Vec<Step<C>> },
    /// Whether the canvas could be found.
    Canvas { found: bool },
    /// The two slots, read just before the next step.
    Slots { window: Option<u64>, budget: Option<u64> },
    /// The step has been carried out, or there is no point in going on.
    Performed { go_on: bool },
    /// Whether the client took the presses.
    Verified { registered: bool },
    /// What the client has sent since the decision began: anything at all, and
    /// a riichi.
    Inputs { sent: bool, reach: bool },
}

/// What to do next about a decision.
#[derive(Clone, Copy, Debug, PartialEq, Eq, Structural)]
pub enum ResponseAction {
    /// Leave it at that.
    Stop,
    /// Ask the game engine for our seat and the table.
    AskEngine,
    /// Have the platform plan, against the legal actions of the three-player
    /// engine if `sanma`, of the four-player engine otherwise.
    Plan { planner: Planner, sanma: bool },
    /// Find the canvas.
    MeasureCanvas,
    /// Hand the frame of step `frame` to a task of its own.
    SpawnFrame { sleep_ms: u32, frame: usize },
    /// Note the client's input counters, then read the slots.
    StartPressing,
    /// Carry out step `step`; a press is made sturdier if `sturdy`.
    Perform { step: usize, sturdy: bool },
    /// Read the slots for the next step.
    ReadSlots,
    /// The plan holds a frame for a platform that has no use for one.
    Misrouted,
    /// Verify that the client took the presses.
    Verify { require_non_discard: bool },
    /// Reload the page if `reload`, then report the client's inputs.
    Settle { reload: bool },
    /// The decision is carried out. Warn that the riichi was lost if
    /// `riichi_lost`; move the mouse away if `move_mouse`.
    Close { riichi_lost: bool, move_mouse: bool },
}

/// Where a decision stands.
#[derive(Clone, Copy, Debug, PartialEq, Eq, Structural)]
pub enum ResponseStage {
    Fresh,
    AwaitEngine,
    AwaitPlan,
    AwaitCanvas,
    /// Between two steps.
    Ready,
    /// A step is being carried out.
    Acting,
    Verifying,
    Reporting,
    Closed,
}

/// One bot decision.
pub struct ResponseFlow<C> {
    /// Whether the decision is a riichi.
    pub declares_reach: bool,
    /// Whether the decision is a discard.
    pub is_discard: bool,
    pub platform: Platform,
    pub click: ClickConfig,
    /// The Tenhou window that is planned against.
    pub planned_window: Option<u64>,
    /// The Mahjong Soul window that is planned against.
    pub planned_budget: Option<u64>,
    pub steps: Vec<Step<C>>,
    /// Whether the canvas has been found.
    pub has_rect: bool,
    /// The step that comes next.
    pub next: usize,
    /// Whether the window has been checked before the first click.
    pub window_checked: bool,
    pub stage: ResponseStage,
}

/// A decision left at that.
pub open spec fn stopped<C>(flow: ResponseFlow<C>, mem: Memory) -> (
    ResponseFlow<C>,
    Memory,
    ResponseAction,
) {
    (ResponseFlow { stage: ResponseStage::Closed, ..flow }, mem, ResponseAction::Stop)
}

/// A decision whose plan is ready to be carried out: its window counts as
/// answered from here on.
pub open spec fn launched<C>(flow: ResponseFlow<C>, mem: Memory) -> (
    ResponseFlow<C>,
    Memory,
    ResponseAction,
) {
    let noted = if flow.planned_window is Some {
        Memory { acted_window: flow.planned_window, ..mem }
    } else {
        mem
    };
    if flow.platform == Platform::RiichiCity {
        match last_frame(flow.steps@) {
            None => stopped(flow, noted),
            Some(i) => (
                ResponseFlow { stage: ResponseStage::Closed, ..flow },
                noted,
                ResponseAction::SpawnFrame {
                    sleep_ms: last_sleep(flow.steps@),
                    frame: i as usize,
                },
            ),
        }
    } else {
        (
            ResponseFlow { stage: ResponseStage::Ready, ..flow },
            noted,
            ResponseAction::StartPressing,
        )
    }
}

/// A decision all of whose steps are carried out.
pub open spec fn pressed<C>(flow: ResponseFlow<C>, mem: Memory) -> (
    ResponseFlow<C>,
    Memory,
    ResponseAction,
) {
    if flow.click.verify_input_ms > 0 && flow.has_rect {
        (
            ResponseFlow { stage: ResponseStage::Verifying, ..flow },
            mem,
            ResponseAction::Verify { require_non_discard: !flow.is_discard },
        )
    } else {
        (
            ResponseFlow { stage: ResponseStage::Closed, ..flow },
            mem,
            ResponseAction::Close { riichi_lost: false, move_mouse: flow.has_rect },
        )
    }
}

/// Whether the step that comes next would act on a window that is gone.
pub open spec fn is_stale<C>(
    flow: ResponseFlow<C>,
    window: Option<u64>,
    budget: Option<u64>,
) -> bool {
    match flow.steps@[flow.next as int] {
        Step::DomClick { .. } => window_moved(flow.planned_window, window),
        Step::Discard { .. } => !flow.declares_reach && window_moved(flow.planned_window, window),
        Step::Click(_) => !flow.window_checked && window_moved(flow.planned_budget, budget),
        _ => false,
    }
}

/// What becomes of a decision, and of the manager's memory, on `ev`.
pub open spec fn respond<C>(flow: ResponseFlow<C>, mem: Memory, ev: ResponseEvent<C>) -> (
    ResponseFlow<C>,
    Memory,
    ResponseAction,
) {
    match (flow.stage, ev) {
        (
            ResponseStage::Fresh,
            ResponseEvent::Config { enabled, platform, click, window, budget },
        ) => if !enabled {
            stopped(flow, mem)
        } else {
            (
                ResponseFlow {
                    platform,
                    click,
                    planned_window: window,
                    planned_budget: budget,
                    stage: ResponseStage::AwaitEngine,
                    ..flow
                },
                mem,
                ResponseAction::AskEngine,
            )
        },
        (ResponseStage::AwaitEngine, ResponseEvent::Engine { seat, num_players }) => {
            let seated = Memory { cached_our_seat: seat, ..mem };
            if seat is None {
                stopped(flow, mem)
            } else if num_players is None {
                stopped(flow, seated)
            } else if flow.planned_window is Some && mem.acted_window == flow.planned_window {
                stopped(flow, seated)
            } else {
                (
                    ResponseFlow { stage: ResponseStage::AwaitPlan, ..flow },
                    seated,
                    ResponseAction::Plan {
                        planner: planner_of(flow.platform),
                        sanma: num_players == Some(3u8),
                    },
                )
            }
        },
        (ResponseStage::AwaitPlan, ResponseEvent::Planned { steps }) => {
            let planned = ResponseFlow { steps, ..flow };
            if steps@.len() == 0 {
                stopped(planned, mem)
            } else if clicks_canvas(steps@) {
                (
                    ResponseFlow { stage: ResponseStage::AwaitCanvas, ..planned },
                    mem,
                    ResponseAction::MeasureCanvas,
                )
            } else {
                launched(planned, mem)
            }
        },
        (ResponseStage::AwaitCanvas, ResponseEvent::Canvas { found }) => if found {
            launched(ResponseFlow { has_rect: true, ..flow }, mem)
        } else {
            stopped(flow, mem)
        },
        (ResponseStage::Ready, ResponseEvent::Slots { window, budget }) => {
            if flow.next >= flow.steps@.len() {
                pressed(flow, mem)
            } else if flow.steps@[flow.next as int] is SendFrame {
                (
                    ResponseFlow { stage: ResponseStage::Closed, ..flow },
                    mem,
                    ResponseAction::Misrouted,
                )
            } else if is_stale(flow, window, budget) {
                stopped(flow, mem)
            } else {
                (
                    ResponseFlow {
                        next: (flow.next + 1) as usize,
                        window_checked: flow.window_checked
                            || flow.steps@[flow.next as int] is Click,
                        stage: ResponseStage::Acting,
                        ..flow
                    },
                    mem,
                    ResponseAction::Perform { step: flow.next, sturdy: flow.declares_reach },
                )
            }
        },
        (ResponseStage::Acting, ResponseEvent::Performed { go_on }) => if go_on {
            (
                ResponseFlow { stage: ResponseStage::Ready, ..flow },
                mem,
                ResponseAction::ReadSlots,
            )
        } else {
            stopped(flow, mem)
        },
        (ResponseStage::Verifying, ResponseEvent::Verified { registered }) => {
            let (dead, reload) = tally(
                mem.dead_clicks as int,
                registered,
                flow.click.reload_after_failures,
            );
            (
                ResponseFlow { stage: ResponseStage::Reporting, ..flow },
                Memory { dead_clicks: dead as u32, ..mem },
                ResponseAction::Settle { reload },
            )
        },
        (ResponseStage::Reporting, ResponseEvent::Inputs { sent, reach }) => (
            ResponseFlow { stage: ResponseStage::Closed, ..flow },
            mem,
            ResponseAction::Close {
                riichi_lost: flow.declares_reach && sent && !reach,
                move_mouse: flow.has_rect,
            },
        ),
        _ => stopped(flow, mem),
    }
}

impl<C> ResponseFlow<C> {
    /// Once a plan is being carried out, its clicks have a canvas to land on.
    pub open spec fn wf(self) -> bool {
        &&& self.next <= self.steps@.len()
        &&& self.stage is Fresh || self.stage is AwaitEngine || self.stage is AwaitPlan
            || self.stage is AwaitCanvas ==> self.next == 0 && !self.has_rect
            && !self.window_checked
        &&& self.stage is Ready || self.stage is Acting ==> (clicks_canvas(self.steps@)
            ==> self.has_rect)
    }

    /// A decision that has just arrived.
    pub fn new(action: &MjaiEvent) -> (flow: ResponseFlow<C>)
        ensures
            flow.wf(),
            flow.stage is Fresh,
            flow.declares_reach == (*action is Reach),
            flow.is_discard == (*action is Dahai),
            is_new(flow, *action),
    {
        let is_discard = match action {
            MjaiEvent::Dahai { .. } => true,
            _ => false,
        };
        ResponseFlow {
            declares_reach: !discard_needs_window_guard(action),
            is_discard,
            platform: Platform::Other,
            click: ClickConfig { verify_input_ms: 0, click_retries: 0, reload_after_failures: 0 },
            planned_window: None,
            planned_budget: None,
            steps: Vec::new(),
            has_rect: false,
            next: 0,
            window_checked: false,
            stage: ResponseStage::Fresh,
        }
    }

    fn stop(&mut self) -> (action: ResponseAction)
        ensures
            *final(self) == (ResponseFlow { stage: ResponseStage::Closed, ..*old(self) }),
            action is Stop,
    {
        self.stage = ResponseStage::Closed;
        ResponseAction::Stop
    }

    fn launch(&mut self, mgr: &mut ManagerState) -> (action: ResponseAction)
        requires
            old(self).next <= old(self).steps@.len(),
            clicks_canvas(old(self).steps@) ==> old(self).has_rect,
        ensures
            final(self).wf(),
            (*final(self), final(mgr)@, action) == launched(*old(self), old(mgr)@),
    {
        if let Some(w) = self.planned_window {
            mgr.acted_window = Some(w);
        }
        if self.platform == Platform::RiichiCity {
            let (sleep_ms, frame) = frame_of_plan(&self.steps);
            self.stage = ResponseStage::Closed;
            return match frame {
                None => ResponseAction::Stop,
                Some(frame) => ResponseAction::SpawnFrame { sleep_ms, frame },
            };
        }
        self.stage = ResponseStage::Ready;
        ResponseAction::StartPressing
    }

    fn next_step(&mut self, window: Option<u64>, budget: Option<u64>) -> (action: ResponseAction)
        requires
            old(self).wf(),
            old(self).stage is Ready,
        ensures
            final(self).wf(),
            forall|mem: Memory|
                (*final(self), mem, action) == #[trigger] respond(
                    *old(self),
                    mem,
                    ResponseEvent::Slots { window, budget },
                ),
    {
        if self.next >= self.steps.len() {
            if self.click.verify_input_ms > 0 && self.has_rect {
                self.stage = ResponseStage::Verifying;
                return ResponseAction::Verify { require_non_discard: !self.is_discard };
            }
            self.stage = ResponseStage::Closed;
            return ResponseAction::Close { riichi_lost: false, move_mouse: self.has_rect };
        }
        let (stale, click) = match &self.steps[self.next] {
            Step::SendFrame(_) => {
                self.stage = ResponseStage::Closed;
                return ResponseAction::Misrouted;
            },
            Step::DomClick { .. } => (tenhou_window_moved(self.planned_window, window), false),
            Step::Discard { .. } => (
                !self.declares_reach && tenhou_window_moved(self.planned_window, window),
                false,
            ),
            Step::Click(_) => (
                !self.window_checked && tenhou_window_moved(self.planned_budget, budget),
                true,
            ),
            _ => (false, false),
        };
        if stale {
            return self.stop();
        }
        let step: usize = self.next;
        self.next = step + 1;
        self.window_checked = self.window_checked || click;
        self.stage = ResponseStage::Acting;
        ResponseAction::Perform { step, sturdy: self.declares_reach }
    }

    /// Takes in what was found and says what to do next. `mgr` is the manager's
    /// memory of the game, which the decision may add to.
    pub fn handle_bot_response(&mut self, mgr: &mut ManagerState, ev: ResponseEvent<C>) -> (action:
        ResponseAction)
        requires
            old(self).wf(),
            ev == (ResponseEvent::<C>::Verified { registered: false }) ==> old(mgr)@.dead_clicks
                < u32::MAX,
        ensures
            final(self).wf(),
            (*final(self), final(mgr)@, action) == respond(*old(self), old(mgr)@, ev),
    {
        match (self.stage, ev) {
            (
                ResponseStage::Fresh,
                ResponseEvent::Config { enabled, platform, click, window, budget },
            ) => {
                if !enabled {
                    return self.stop();
                }
                self.platform = platform;
                self.click = click;
                self.planned_window = window;
                self.planned_budget = budget;
                self.stage = ResponseStage::AwaitEngine;
                ResponseAction::AskEngine
            },
            (ResponseStage::AwaitEngine, ResponseEvent::Engine { seat, num_players }) => {
                if seat.is_none() {
                    return self.stop();
                }
                mgr.cached_our_seat = seat;
                let players: u8 = match num_players {
                    None => {
                        return self.stop();
                    },
                    Some(n) => n,
                };
                if self.planned_window.is_some() && !tenhou_window_moved(
                    self.planned_window,
                    mgr.acted_window,
                ) {
                    return self.stop();
                }
                self.stage = ResponseStage::AwaitPlan;
                ResponseAction::Plan { planner: planner_for(self.platform), sanma: players == 3 }
            },
            (ResponseStage::AwaitPlan, ResponseEvent::Planned { steps }) => {
                let empty = steps.len() == 0;
                let clicks = needs_canvas(&steps);
                self.steps = steps;
                if empty {
                    return self.stop();
                }
                if clicks {
                    self.stage = ResponseStage::AwaitCanvas;
                    return ResponseAction::MeasureCanvas;
                }
                self.launch(mgr)
            },
            (ResponseStage::AwaitCanvas, ResponseEvent::Canvas { found }) => {
                if !found {
                    return self.stop();
                }
                self.has_rect = true;
                self.launch(mgr)
            },
            (ResponseStage::Ready, ResponseEvent::Slots { window, budget }) => self.next_step(
                window,
                budget,
            ),
            (ResponseStage::Acting, ResponseEvent::Performed { go_on }) => {
                if !go_on {
                    return self.stop();
                }
                self.stage = ResponseStage::Ready;
                ResponseAction::ReadSlots
            },
            (ResponseStage::Verifying, ResponseEvent::Verified { registered }) => {
                let reload = mgr.record_outcome(registered, self.click.reload_after_failures);
                self.stage = ResponseStage::Reporting;
                ResponseAction::Settle { reload }
            },
            (ResponseStage::Reporting, ResponseEvent::Inputs { sent, reach }) => {
                self.stage = ResponseStage::Closed;
                ResponseAction::Close {
                    riichi_lost: self.declares_reach && sent && !reach,
                    move_mouse: self.has_rect,
                }
            },
            _ => self.stop(),
        }
    }
}

/// With autoplay off, a decision is dropped and nothing is remembered of it.
pub proof fn off_means_off<C>(
    flow: ResponseFlow<C>,
    mem: Memory,
    platform: Platform,
    click: ClickConfig,
    window: Option<u64>,
    budget: Option<u64>,
)
    requires
        flow.stage is Fresh,
    ensures
        respond(
            flow,
            mem,
            ResponseEvent::Config { enabled: false, platform, click, window, budget },
        ) == stopped(flow, mem),
{
}

/// A window is answered once: from the moment a decision about window `w` gets
/// to act, every other decision about `w` is dropped before it is even planned,
/// whatever the engine says.
pub proof fn a_window_is_answered_once<C>(
    first: ResponseFlow<C>,
    mem: Memory,
    ev: ResponseEvent<C>,
    w: u64,
    second: ResponseFlow<C>,
    seat: Option<u8>,
    num_players: Option<u8>,
)
    requires
        first.planned_window == Some(w),
        first.stage is AwaitPlan || first.stage is AwaitCanvas,
        respond(first, mem, ev).2 is StartPressing || respond(first, mem, ev).2 is SpawnFrame,
        second.planned_window == Some(w),
        second.stage is AwaitEngine,
    ensures
        respond(
            second,
            respond(first, mem, ev).1,
            ResponseEvent::Engine { seat, num_players },
        ).2 is Stop,
{
}

/// Once a decision has got to act on its window, that window counts as answered
/// for the rest of the decision, whatever else happens.
pub proof fn an_acting_decision_has_answered_its_window<C>(
    flow: ResponseFlow<C>,
    mem: Memory,
    evs: Seq<ResponseEvent<C>>,
    w: u64,
)
    requires
        flow.stage is Fresh,
        responded(flow, mem, evs).0.planned_window == Some(w),
        ({
            let stage = responded(flow, mem, evs).0.stage;
            stage is Ready || stage is Acting || stage is Verifying || stage is Reporting
        }),
    ensures
        responded(flow, mem, evs).1.acted_window == Some(w),
    decreases evs.len(),
{
    let before = responded(flow, mem, evs.drop_last());
    let stage = before.0.stage;
    if stage is Ready || stage is Acting || stage is Verifying || stage is Reporting {
        an_acting_decision_has_answered_its_window(flow, mem, evs.drop_last(), w);
    }
}

/// A decision about a window that was answered before reaches the client at no
/// point of its whole run, whatever the engine and the platform say.
pub proof fn an_answered_window_gets_no_second_answer<C>(
    flow: ResponseFlow<C>,
    mem: Memory,
    evs: Seq<ResponseEvent<C>>,
    ev: ResponseEvent<C>,
    w: u64,
)
    requires
        flow.stage is Fresh,
        mem.acted_window == Some(w),
        forall|i: int|
            0 <= i < evs.len() ==> (#[trigger] evs[i] matches ResponseEvent::Config { window, .. }
                ==> window == Some(w)),
    ensures
        ({
            let (before, then) = responded(flow, mem, evs);
            !reaches_the_client(respond(before, then, ev).2)
        }),
{
    answered_windows_stay_answered(flow, mem, evs, w);
}

proof fn answered_windows_stay_answered<C>(
    flow: ResponseFlow<C>,
    mem: Memory,
    evs: Seq<ResponseEvent<C>>,
    w: u64,
)
    requires
        flow.stage is Fresh,
        mem.acted_window == Some(w),
        forall|i: int|
            0 <= i < evs.len() ==> (#[trigger] evs[i] matches ResponseEvent::Config { window, .. }
                ==> window == Some(w)),
    ensures
        ({
            let (after, then) = responded(flow, mem, evs);
            &&& then.acted_window == Some(w)
            &&& after.stage is Fresh || after.stage is AwaitEngine || after.stage is Closed
            &&& after.stage is AwaitEngine ==> after.planned_window == Some(w)
        }),
    decreases evs.len(),
{
    if evs.len() > 0 {
        let before = evs.drop_last();
        assert forall|i: int| 0 <= i < before.len() implies (#[trigger] before[i]
            matches ResponseEvent::Config { window, .. } ==> window == Some(w)) by {
            assert(before[i] == evs[i]);
        }
        answered_windows_stay_answered(flow, mem, before, w);
        assert(evs[evs.len() - 1] == evs.last());
    }
}

/// No step acts on a window that is gone. A button is pressed only while the
/// window it was planned for is open; so is a tile discarded, unless it is owed
/// to a riichi; and the first click of a plan is made only while the time
/// budget is still that of its window.
pub proof fn stale_steps_are_dropped<C>(
    flow: ResponseFlow<C>,
    mem: Memory,
    window: Option<u64>,
    budget: Option<u64>,
    step: usize,
    sturdy: bool,
)
    requires
        flow.stage is Ready,
        respond(flow, mem, ResponseEvent::Slots { window, budget }).2 == (ResponseAction::Perform {
            step,
            sturdy,
        }),
    ensures
        step == flow.next,
        step < flow.steps@.len(),
        flow.steps@[step as int] is DomClick ==> !window_moved(flow.planned_window, window),
        flow.steps@[step as int] is Discard && !flow.declares_reach ==> !window_moved(
            flow.planned_window,
            window,
        ),
        flow.steps@[step as int] is Click && !flow.window_checked ==> !window_moved(
            flow.planned_budget,
            budget,
        ),
        !(flow.steps@[step as int] is SendFrame),
{
}

/// A click is made only with a canvas to make it on.
pub proof fn clicks_have_a_canvas<C>(
    flow: ResponseFlow<C>,
    mem: Memory,
    window: Option<u64>,
    budget: Option<u64>,
)
    requires
        flow.wf(),
        flow.stage is Ready,
        flow.next < flow.steps@.len(),
        flow.steps@[flow.next as int] is Click,
        respond(flow, mem, ResponseEvent::Slots { window, budget }).2 is Perform,
    ensures
        flow.has_rect,
{
}

/// A decision touches the manager's memory in three places only: the seat it
/// learns, the window it answers and the count of dead decisions.
pub proof fn a_decision_touches_little<C>(flow: ResponseFlow<C>, mem: Memory, ev: ResponseEvent<C>)
    ensures
        respond(flow, mem, ev).1 == (Memory {
            cached_our_seat: respond(flow, mem, ev).1.cached_our_seat,
            acted_window: respond(flow, mem, ev).1.acted_window,
            dead_clicks: respond(flow, mem, ev).1.dead_clicks,
            ..mem
        }),
{
}

/// The steps of a plan are carried out in order, each at most once: carrying
/// one out moves on to the next, and nothing moves back.
pub proof fn steps_go_forward<C>(flow: ResponseFlow<C>, mem: Memory, ev: ResponseEvent<C>)
    requires
        flow.wf(),
    ensures
        respond(flow, mem, ev).0.next >= flow.next,
        respond(flow, mem, ev).2 is Perform ==> respond(flow, mem, ev).0.next == flow.next + 1,
        !(respond(flow, mem, ev).2 is Perform) ==> respond(flow, mem, ev).0.next == flow.next,
{
    assert(flow.steps.len() == flow.steps@.len());
}

/// A decision and the manager's memory after a sequence of events.
pub open spec fn responded<C>(flow: ResponseFlow<C>, mem: Memory, evs: Seq<ResponseEvent<C>>) -> (
    ResponseFlow<C>,
    Memory,
)
    decreases evs.len(),
{
    if evs.len() == 0 {
        (flow, mem)
    } else {
        let (before, then) = responded(flow, mem, evs.drop_last());
        let after = respond(before, then, evs.last());
        (after.0, after.1)
    }
}

/// Whether autoplay was found on in the course of the events.
pub open spec fn found_on<C>(evs: Seq<ResponseEvent<C>>) -> bool {
    exists|i: int|
        0 <= i < evs.len() && (#[trigger] evs[i] matches ResponseEvent::Config { enabled, .. }
            && enabled)
}

/// Whether our seat and the table were known in the course of the events.
pub open spec fn found_a_seat<C>(evs: Seq<ResponseEvent<C>>) -> bool {
    exists|i: int|
        0 <= i < evs.len() && (#[trigger] evs[i] matches ResponseEvent::Engine { seat, num_players }
            && seat is Some && num_players is Some)
}

/// Whether an action reaches the game client.
pub open spec fn reaches_the_client(action: ResponseAction) -> bool {
    action is Perform || action is SpawnFrame
}

/// Nothing reaches the game client unless autoplay was found on and our seat and
/// the table were known, whatever else happens in the course of a decision.
pub proof fn nothing_is_done_unasked<C>(
    flow: ResponseFlow<C>,
    mem: Memory,
    evs: Seq<ResponseEvent<C>>,
    ev: ResponseEvent<C>,
)
    requires
        flow.stage is Fresh,
        ({
            let (before, then) = responded(flow, mem, evs);
            reaches_the_client(respond(before, then, ev).2)
        }),
    ensures
        found_on(evs),
        found_a_seat(evs),
{
    leave_is_earned(flow, mem, evs);
}

/// What has been found by each stage of a decision.
proof fn leave_is_earned<C>(flow: ResponseFlow<C>, mem: Memory, evs: Seq<ResponseEvent<C>>)
    requires
        flow.stage is Fresh,
    ensures
        ({
            let stage = responded(flow, mem, evs).0.stage;
            &&& stage is Fresh || stage is Closed || found_on(evs)
            &&& stage is Fresh || stage is AwaitEngine || stage is Closed || found_a_seat(evs)
        }),
    decreases evs.len(),
{
    if evs.len() > 0 {
        let before = evs.drop_last();
        leave_is_earned(flow, mem, before);
        if found_on(before) {
            let i = choose|i: int|
                0 <= i < before.len() && (#[trigger] before[i] matches ResponseEvent::Config {
                    enabled,
                    ..
                } && enabled);
            assert(evs[i] == before[i]);
        }
        if found_a_seat(before) {
            let i = choose|i: int|
                0 <= i < before.len() && (#[trigger] before[i] matches ResponseEvent::Engine {
                    seat,
                    num_players,
                } && seat is Some && num_players is Some);
            assert(evs[i] == before[i]);
        }
        assert(evs[evs.len() - 1] == evs.last());
    }
}

/// Whether a decision has just arrived with an action.
pub open spec fn is_new<C>(flow: ResponseFlow<C>, action: MjaiEvent) -> bool {
    &&& flow.stage is Fresh
    &&& flow.declares_reach == (action is Reach)
    &&& flow.is_discard == (action is Dahai)
    &&& flow.next == 0
    &&& !flow.has_rect
    &&& !flow.window_checked
}

/// A new decision knows of its action whether it is a riichi and whether it is a
/// discard, and of nothing else.
pub proof fn a_new_decision_knows_its_action<C>(flow: ResponseFlow<C>, action: MjaiEvent)
    requires
        is_new(flow, action),
    ensures
        action is Reach ==> flow.declares_reach && !flow.is_discard,
        action is Dahai ==> flow.is_discard && !flow.declares_reach,
        !(action is Reach) && !(action is Dahai) ==> !flow.declares_reach && !flow.is_discard,
        flow.next == 0 && !flow.has_rect && !flow.window_checked,
{
}

/// A decision goes by the settings and the windows as they are when it arrives,
/// and asks the engine next, if autoplay is on.
pub proof fn a_decision_goes_by_its_settings<C>(
    flow: ResponseFlow<C>,
    mem: Memory,
    enabled: bool,
    platform: Platform,
    click: ClickConfig,
    window: Option<u64>,
    budget: Option<u64>,
)
    requires
        flow.stage is Fresh,
    ensures
        ({
            let (after, then, action) = respond(
                flow,
                mem,
                ResponseEvent::Config { enabled, platform, click, window, budget },
            );
            &&& then == mem
            &&& !enabled ==> action is Stop && after.stage is Closed
            &&& enabled ==> {
                &&& action is AskEngine
                &&& after.stage is AwaitEngine
                &&& after.platform == platform
                &&& after.click == click
                &&& after.planned_window == window
                &&& after.planned_budget == budget
            }
        }),
{
}

/// A decision is planned exactly if our seat and the table are known and its
/// window, where it has one, was not answered before. A table of three is planned
/// with the engine for three players and every other table with the engine for
/// four, by the planner of the platform. A seat that is known is remembered, and
/// nothing else is.
pub proof fn the_right_engine_plans<C>(
    flow: ResponseFlow<C>,
    mem: Memory,
    seat: Option<u8>,
    num_players: Option<u8>,
)
    requires
        flow.stage is AwaitEngine,
    ensures
        ({
            let (after, then, action) = respond(
                flow,
                mem,
                ResponseEvent::Engine { seat, num_players },
            );
            &&& action is Plan <==> seat is Some && num_players is Some && (
            flow.planned_window is None || mem.acted_window != flow.planned_window)
            &&& action is Plan ==> after.stage is AwaitPlan
            &&& !(action is Plan) ==> action is Stop && after.stage is Closed
            &&& action matches ResponseAction::Plan { planner, sanma } ==> {
                &&& num_players == Some(3u8) ==> sanma
                &&& num_players != Some(3u8) ==> !sanma
                &&& planner is Tenhou <==> flow.platform is Tenhou
                &&& planner is RiichiCity <==> flow.platform is RiichiCity
                &&& planner is Majsoul <==> flow.platform is Majsoul || flow.platform is Other
            }
            &&& then == (Memory {
                cached_our_seat: if seat is Some {
                    seat
                } else {
                    mem.cached_our_seat
                },
                ..mem
            })
        }),
{
}

/// A plan with clicks has the canvas measured first. One without is carried out at
/// once: step by step, or on Riichi City by handing its last frame and its last
/// pause to a task of their own. An empty plan, and one for Riichi City without a
/// frame, ends the decision.
pub proof fn a_plan_is_taken_up<C>(
    flow: ResponseFlow<C>,
    mem: Memory,
    steps: Vec<Step<C>>,
    i: int,
    k: int,
)
    requires
        flow.stage is AwaitPlan,
    ensures
        ({
            let (after, then, action) = respond(flow, mem, ResponseEvent::Planned { steps });
            let clicks = exists|j: int| 0 <= j < steps@.len() && (#[trigger] steps@[j]) is Click;
            let frames = exists|j: int|
                0 <= j < steps@.len() && (#[trigger] steps@[j]) is SendFrame;
            &&& after.steps == steps
            &&& after.has_rect == flow.has_rect
            &&& action is MeasureCanvas <==> clicks
            &&& action is StartPressing <==> steps@.len() > 0 && !clicks && !(
            flow.platform is RiichiCity)
            &&& action is SpawnFrame <==> !clicks && frames && flow.platform is RiichiCity
            &&& !(action is MeasureCanvas || action is StartPressing || action is SpawnFrame)
                ==> action is Stop
            &&& action is MeasureCanvas <==> after.stage is AwaitCanvas
            &&& action is StartPressing <==> after.stage is Ready
            &&& action is SpawnFrame || action is Stop ==> after.stage is Closed
            &&& then == (Memory {
                acted_window: if steps@.len() > 0 && !clicks && flow.planned_window is Some {
                    flow.planned_window
                } else {
                    mem.acted_window
                },
                ..mem
            })
            &&& action matches ResponseAction::SpawnFrame { sleep_ms, frame } ==> {
                &&& 0 <= i < steps@.len() && steps@[i] is SendFrame ==> i <= frame < steps@.len()
                    && steps@[frame as int] is SendFrame
                &&& 0 <= k < steps@.len() && steps@[k] is Sleep && (forall|j: int|
                    k < j < steps@.len() ==> !(#[trigger] steps@[j] is Sleep)) ==> sleep_ms
                    == steps@[k]->duration_ms
                &&& (forall|j: int| 0 <= j < steps@.len() ==> !(#[trigger] steps@[j] is Sleep))
                    ==> sleep_ms == 0
            }
        }),
{
    frames_are_found(steps@, i);
    crate::autoplay::plan::the_last_of_each_counts(steps@, k);
    crate::autoplay::plan::a_canvas_is_for_clicks(steps@);
    crate::autoplay::plan::platforms_have_their_planners(flow.platform);
    assert(steps.len() == steps@.len());
    if clicks_canvas(steps@) {
        let j = choose|j: int| 0 <= j < steps@.len() && #[trigger] steps@[j] is Click;
        assert(steps@[j] is Click);
    }
}

/// The last frame of a plan is a frame of it, and none comes after it.
proof fn frames_are_found<C>(steps: Seq<Step<C>>, i: int)
    ensures
        last_frame(steps) is Some <==> exists|j: int|
            0 <= j < steps.len() && (#[trigger] steps[j]) is SendFrame,
        last_frame(steps) matches Some(f) ==> 0 <= f < steps.len() && steps[f] is SendFrame && (0
            <= i < steps.len() && steps[i] is SendFrame ==> i <= f),
    decreases steps.len(),
{
    if steps.len() > 0 {
        let front = steps.drop_last();
        frames_are_found(front, i);
        assert forall|j: int| 0 <= j < front.len() implies #[trigger] front[j] == steps[j] by {}
        assert(steps[steps.len() - 1] == steps.last());
        if exists|j: int| 0 <= j < steps.len() && (#[trigger] steps[j]) is SendFrame {
            let j = choose|j: int| 0 <= j < steps.len() && (#[trigger] steps[j]) is SendFrame;
            if j < front.len() {
                assert(front[j] is SendFrame);
            }
        }
    }
}

/// A plan whose canvas was found is carried out like one that needs none, and one
/// whose canvas was not found is not.
pub proof fn a_canvas_lets_a_plan_go_on<C>(flow: ResponseFlow<C>, mem: Memory, found: bool)
    requires
        flow.stage is AwaitCanvas,
    ensures
        ({
            let (after, then, action) = respond(flow, mem, ResponseEvent::Canvas { found });
            &&& !found ==> action is Stop && after.stage is Closed && then == mem
                && after.has_rect == flow.has_rect
            &&& found ==> after.has_rect && then == (Memory {
                acted_window: if flow.planned_window is Some {
                    flow.planned_window
                } else {
                    mem.acted_window
                },
                ..mem
            })
            &&& found && !(flow.platform is RiichiCity) ==> action is StartPressing
                && after.stage is Ready
            &&& found && flow.platform is RiichiCity ==> after.stage is Closed && match last_frame(
                flow.steps@,
            ) {
                Some(i) => action == (ResponseAction::SpawnFrame {
                    sleep_ms: last_sleep(flow.steps@),
                    frame: i as usize,
                }),
                None => action is Stop,
            }
        }),
{
}

/// Each step of a plan is carried out in its turn, sturdily if it is a riichi's,
/// unless what it was planned for is gone: a button and a discard go by Tenhou's
/// window, a discard that a riichi owes by none, and the first click of a plan by
/// Mahjong Soul's. Pauses and waits are always carried out, and a frame never is.
pub proof fn steps_are_carried_out_in_turn<C>(
    flow: ResponseFlow<C>,
    mem: Memory,
    window: Option<u64>,
    budget: Option<u64>,
)
    requires
        flow.stage is Ready,
        flow.next < flow.steps@.len(),
    ensures
        ({
            let (after, then, action) = respond(flow, mem, ResponseEvent::Slots { window, budget });
            let step = flow.steps@[flow.next as int];
            let window_gone = flow.planned_window is Some && flow.planned_window != window;
            let budget_gone = flow.planned_budget is Some && flow.planned_budget != budget;
            let stale = match step {
                Step::DomClick { .. } => window_gone,
                Step::Discard { .. } => window_gone && !flow.declares_reach,
                Step::Click(_) => budget_gone && !flow.window_checked,
                _ => false,
            };
            &&& then == mem
            &&& action is Misrouted <==> step is SendFrame
            &&& action is Stop <==> !(step is SendFrame) && stale
            &&& action is Perform <==> !(step is SendFrame) && !stale
            &&& action is Perform ==> action == (ResponseAction::Perform {
                step: flow.next,
                sturdy: flow.declares_reach,
            }) && after.stage is Acting && after.window_checked == (flow.window_checked
                || step is Click)
            &&& !(action is Perform) ==> after.stage is Closed
        }),
{
}

/// A plan that was carried out is verified exactly if it clicked on a canvas and
/// the settings ask for it: any input proves a discard, and only another input
/// proves anything else. Otherwise the decision is closed, and the mouse is moved
/// away if there was a canvas.
pub proof fn clicks_are_verified<C>(
    flow: ResponseFlow<C>,
    mem: Memory,
    window: Option<u64>,
    budget: Option<u64>,
)
    requires
        flow.stage is Ready,
        flow.next >= flow.steps@.len(),
    ensures
        ({
            let (after, then, action) = respond(flow, mem, ResponseEvent::Slots { window, budget });
            &&& then == mem
            &&& flow.has_rect && flow.click.verify_input_ms > 0 ==> after.stage is Verifying
                && action == (ResponseAction::Verify { require_non_discard: !flow.is_discard })
            &&& !flow.has_rect || flow.click.verify_input_ms == 0 ==> after.stage is Closed
                && action == (ResponseAction::Close {
                riichi_lost: false,
                move_mouse: flow.has_rect,
            })
        }),
{
}

/// What follows a step, a verification and a report: the next step or the end; a
/// reload exactly at the threshold of failures in a row, with the count kept; and
/// the warning of a lost riichi exactly if one was declared and something was sent
/// but no riichi.
pub proof fn what_was_done_has_consequences<C>(
    flow: ResponseFlow<C>,
    mem: Memory,
    yes: bool,
    sent: bool,
    reach: bool,
)
    ensures
        flow.stage is Acting ==> ({
            let (after, then, action) = respond(flow, mem, ResponseEvent::Performed { go_on: yes });
            &&& then == mem
            &&& yes ==> action is ReadSlots && after.stage is Ready
            &&& !yes ==> action is Stop && after.stage is Closed
        }),
        flow.stage is Verifying && mem.dead_clicks < u32::MAX ==> ({
            let (after, then, action) = respond(
                flow,
                mem,
                ResponseEvent::Verified { registered: yes },
            );
            let reload = !yes && 0 < flow.click.reload_after_failures <= mem.dead_clicks + 1;
            &&& action == (ResponseAction::Settle { reload })
            &&& after.stage is Reporting
            &&& then == (Memory {
                dead_clicks: if yes || reload {
                    0
                } else {
                    (mem.dead_clicks + 1) as u32
                },
                ..mem
            })
        }),
        flow.stage is Reporting ==> ({
            let (after, then, action) = respond(flow, mem, ResponseEvent::Inputs { sent, reach });
            &&& then == mem
            &&& after.stage is Closed
            &&& action == (ResponseAction::Close {
                riichi_lost: flow.declares_reach && sent && !reach,
                move_mouse: flow.has_rect,
            })
        }),
{
}

/// Whether a decision waits for an event of a kind.
pub open spec fn waits_for<C>(stage: ResponseStage, ev: ResponseEvent<C>) -> bool {
    match stage {
        ResponseStage::Fresh => ev is Config,
        ResponseStage::AwaitEngine => ev is Engine,
        ResponseStage::AwaitPlan => ev is Planned,
        ResponseStage::AwaitCanvas => ev is Canvas,
        ResponseStage::Ready => ev is Slots,
        ResponseStage::Acting => ev is Performed,
        ResponseStage::Verifying => ev is Verified,
        ResponseStage::Reporting => ev is Inputs,
        ResponseStage::Closed => false,
    }
}

/// An event that is not waited for ends the decision and leaves no trace. What a
/// decision knows is learnt once: its settings when it arrives, its plan when it
/// is planned, its canvas when that is found.
pub proof fn a_decision_learns_each_thing_once<C>(
    flow: ResponseFlow<C>,
    mem: Memory,
    ev: ResponseEvent<C>,
)
    ensures
        ({
            let (after, then, action) = respond(flow, mem, ev);
            &&& !waits_for(flow.stage, ev) ==> action is Stop && then == mem && after == (
            ResponseFlow { stage: ResponseStage::Closed, ..flow })
            &&& after.declares_reach == flow.declares_reach
            &&& after.is_discard == flow.is_discard
            &&& !(flow.stage is Fresh) ==> after.platform == flow.platform && after.click
                == flow.click && after.planned_window == flow.planned_window
                && after.planned_budget == flow.planned_budget
            &&& !(flow.stage is AwaitPlan) ==> after.steps == flow.steps
            &&& !(flow.stage is AwaitCanvas) ==> after.has_rect == flow.has_rect
            &&& !(flow.stage is Ready) ==> after.window_checked == flow.window_checked
            &&& !(flow.stage is Ready) ==> after.next == flow.next
        }),
{
}

} // verus!
