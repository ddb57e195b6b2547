//! Getting from the result screens of a Mahjong Soul game to the next match.

use vstd::prelude::*;

use crate::autoplay::buttons::{chosen_action, choose_action, Action, Phase, Screen};
use crate::autoplay::buttons::{MAX_CONFIRM_CLICKS, MAX_REMATCH_CLICKS};
use crate::clock::{after_ms, clock_ok, later, NANOS_PER_MS};
use crate::events::Platform;

verus! {

/// How long to wait before another look, in milliseconds.
pub const POLL_MS: u32 = 600;

/// How long to wait after a click, in milliseconds.
pub const AFTER_CLICK_MS: u32 = 1500;

/// How long the way to the next match may take, in milliseconds.
pub const FLOW_TIMEOUT_MS: u32 = 120_000;

/// The shortest time to rest on a button before the click, in milliseconds.
pub const MIN_HOVER_MS: u32 = 100;

/// The shortest time to hold a button down, in milliseconds.
pub const MIN_HOLD_MS: u32 = 50;

/// How long to rest on a button and to hold it down, for the times that the
/// settings give: never less than the game needs to notice.
pub fn press_timing(hover_delay_ms: u32, click_hold_ms: u32) -> (t: (u32, u32))
    ensures
        t.0 == if hover_delay_ms > MIN_HOVER_MS {
            hover_delay_ms
        } else {
            MIN_HOVER_MS
        },
        t.1 == if click_hold_ms > MIN_HOLD_MS {
            click_hold_ms
        } else {
            MIN_HOLD_MS
        },
        t == timing(hover_delay_ms, click_hold_ms),
{
    let hover: u32 = if hover_delay_ms > MIN_HOVER_MS {
        hover_delay_ms
    } else {
        MIN_HOVER_MS
    };
    let hold: u32 = if click_hold_ms > MIN_HOLD_MS {
        click_hold_ms
    } else {
        MIN_HOLD_MS
    };
    (hover, hold)
}

/// What the settings say about rematches.
#[derive(Clone, Copy, Debug, PartialEq, Eq, Structural)]
pub struct RematchSettings {
    pub enabled: bool,
    pub platform: Platform,
    pub remaining_games: u32,
}

impl RematchSettings {
    /// Whether another game is wanted.
    pub open spec fn active(self) -> bool {
        self.enabled && self.platform is Majsoul && self.remaining_games > 0
    }

    /// Whether another game is wanted.
    pub fn is_active(self) -> (b: bool)
        ensures
            b == self.active(),
    {
        self.enabled && matches!(self.platform, Platform::Majsoul) && self.remaining_games > 0
    }
}

/// What the event bus holds next, without waiting for it.
#[derive(Clone, Copy, Debug, PartialEq, Eq, Structural)]
pub enum NextEvent {
    GameStarted,
    OtherEvent,
    Empty,
    Lagged,
    Closed,
}

/// Why the way to the next match ended short of it.
#[derive(Clone, Copy, Debug, PartialEq, Eq, Structural)]
pub enum RematchError {
    /// Another game started, so every click still planned is stale.
    GameStarted,
    /// Events were lost.
    Lagged,
    /// No more events will come.
    BusClosed,
    /// The settings want no rematch any more.
    Disabled,
    /// A click could not be made.
    ClickFailed,
    /// The time ran out after so many clicks.
    TimedOut { clicks: u32 },
}

/// Where the flow is within a round.
#[derive(Clone, Copy, Debug, PartialEq, Eq, Structural)]
pub enum RematchStage {
    /// A round is about to begin.
    Round,
    /// The events that have come in are being gone through.
    Draining,
    /// The settings are being read.
    Checking,
    /// A screenshot is being taken.
    Looking,
    /// A click is being made.
    Pressing(Action),
    Ended,
}

/// What happened outside.
#[derive(Clone, Copy, Debug, PartialEq, Eq, Structural)]
pub enum RematchEvent {
    /// It is now so late.
    Tick { now: u64 },
    /// The next event on the bus.
    Next(NextEvent),
    /// The settings as they stand.
    Settings(RematchSettings),
    /// What the screen shows, unless it could not be told.
    Seen(Option<Screen>),
    /// The click was made, or it failed.
    Clicked { ok: bool },
}

/// What to do outside.
#[derive(Clone, Copy, Debug, PartialEq, Eq, Structural)]
pub enum RematchAction {
    /// Take the next event off the bus without waiting.
    TakeEvent,
    ReadSettings,
    Look,
    Press(Action),
    /// Sleep so many milliseconds, then say what time it is.
    Sleep(u32),
    /// The next match has been asked for, after so many clicks.
    Done { clicks: u32 },
    Fail(RematchError),
    /// Nothing: the event does not belong here.
    Ignore,
}

/// The way from the result screens to the next match.
#[derive(Clone, Copy, Debug, PartialEq, Eq, Structural)]
pub struct RematchFlow {
    pub deadline: u64,
    pub phase: Phase,
    pub clicks: u32,
    pub confirms: u32,
    pub rematches: u32,
    pub stage: RematchStage,
}

/// The flow that begins at `now`.
pub open spec fn rematch_start(now: u64) -> RematchFlow {
    RematchFlow {
        deadline: later(now, FLOW_TIMEOUT_MS as int) as u64,
        phase: Phase::Results,
        clicks: 0,
        confirms: 0,
        rematches: 0,
        stage: RematchStage::Round,
    }
}

/// A flow that has ended.
pub open spec fn rematch_ended(flow: RematchFlow, action: RematchAction) -> (
    RematchFlow,
    RematchAction,
) {
    (RematchFlow { stage: RematchStage::Ended, ..flow }, action)
}

/// The flow after a click that was made.
pub open spec fn clicked(flow: RematchFlow, action: Action) -> (RematchFlow, RematchAction) {
    let flow = RematchFlow {
        clicks: (flow.clicks + 1) as u32,
        confirms: if action is Confirm {
            (flow.confirms + 1) as u32
        } else {
            flow.confirms
        },
        rematches: if action is Rematch {
            (flow.rematches + 1) as u32
        } else {
            flow.rematches
        },
        phase: if action is Rematch {
            Phase::MatchDialog
        } else {
            flow.phase
        },
        stage: RematchStage::Round,
        ..flow
    };
    if action is Dialog {
        rematch_ended(flow, RematchAction::Done { clicks: flow.clicks })
    } else {
        (flow, RematchAction::Sleep(AFTER_CLICK_MS))
    }
}

/// What the flow does next.
pub open spec fn advanced(flow: RematchFlow, ev: RematchEvent) -> (RematchFlow, RematchAction) {
    match (flow.stage, ev) {
        (RematchStage::Round, RematchEvent::Tick { now }) => if now < flow.deadline {
            (RematchFlow { stage: RematchStage::Draining, ..flow }, RematchAction::TakeEvent)
        } else {
            rematch_ended(
                flow,
                RematchAction::Fail(RematchError::TimedOut { clicks: flow.clicks }),
            )
        },
        (RematchStage::Draining, RematchEvent::Next(next)) => match next {
            NextEvent::GameStarted => rematch_ended(
                flow,
                RematchAction::Fail(RematchError::GameStarted),
            ),
            NextEvent::OtherEvent => (flow, RematchAction::TakeEvent),
            NextEvent::Empty => (
                RematchFlow { stage: RematchStage::Checking, ..flow },
                RematchAction::ReadSettings,
            ),
            NextEvent::Lagged => rematch_ended(flow, RematchAction::Fail(RematchError::Lagged)),
            NextEvent::Closed => rematch_ended(flow, RematchAction::Fail(RematchError::BusClosed)),
        },
        (RematchStage::Checking, RematchEvent::Settings(settings)) => if settings.active() {
            (RematchFlow { stage: RematchStage::Looking, ..flow }, RematchAction::Look)
        } else {
            rematch_ended(flow, RematchAction::Fail(RematchError::Disabled))
        },
        (RematchStage::Looking, RematchEvent::Seen(None)) => (
            RematchFlow { stage: RematchStage::Round, ..flow },
            RematchAction::Sleep(POLL_MS),
        ),
        (RematchStage::Looking, RematchEvent::Seen(Some(screen))) => {
            let action = chosen_action(flow.phase, screen, flow.confirms, flow.rematches);
            if action is Wait {
                (
                    RematchFlow { stage: RematchStage::Round, ..flow },
                    RematchAction::Sleep(POLL_MS),
                )
            } else {
                (
                    RematchFlow { stage: RematchStage::Pressing(action), ..flow },
                    RematchAction::Press(action),
                )
            }
        },
        (RematchStage::Pressing(action), RematchEvent::Clicked { ok }) => if ok {
            clicked(flow, action)
        } else {
            rematch_ended(flow, RematchAction::Fail(RematchError::ClickFailed))
        },
        _ => (flow, RematchAction::Ignore),
    }
}

impl RematchFlow {
    /// What holds of the flow at all times: each button is pressed no more often
    /// than is allowed.
    pub open spec fn wf(self) -> bool {
        &&& self.confirms <= MAX_CONFIRM_CLICKS
        &&& self.rematches <= MAX_REMATCH_CLICKS
        &&& self.stage matches RematchStage::Pressing(action) ==> {
            &&& action is Confirm ==> self.confirms < MAX_CONFIRM_CLICKS
            &&& action is Rematch ==> self.rematches < MAX_REMATCH_CLICKS
        }
    }

    /// Begins the way to the next match; the first thing to do is to say what
    /// time it is.
    pub fn start(now: u64) -> (flow: RematchFlow)
        requires
            clock_ok(now),
        ensures
            flow == rematch_start(now),
            flow.deadline == later(now, FLOW_TIMEOUT_MS as int),
            flow.wf(),
    {
        RematchFlow {
            deadline: after_ms(now, FLOW_TIMEOUT_MS),
            phase: Phase::Results,
            clicks: 0,
            confirms: 0,
            rematches: 0,
            stage: RematchStage::Round,
        }
    }

    fn end(&mut self, action: RematchAction) -> (act: RematchAction)
        ensures
            (*final(self), act) == rematch_ended(*old(self), action),
    {
        self.stage = RematchStage::Ended;
        action
    }

    /// Takes in what happened outside and says what to do next.
    pub fn advance(&mut self, ev: RematchEvent) -> (act: RematchAction)
        requires
            old(self).wf(),
            ev == (RematchEvent::Clicked { ok: true }) ==> old(self).clicks < u32::MAX,
        ensures
            (*final(self), act) == advanced(*old(self), ev),
            final(self).wf(),
    {
        match (self.stage, ev) {
            (RematchStage::Round, RematchEvent::Tick { now }) => {
                if now < self.deadline {
                    self.stage = RematchStage::Draining;
                    RematchAction::TakeEvent
                } else {
                    let clicks: u32 = self.clicks;
                    self.end(RematchAction::Fail(RematchError::TimedOut { clicks }))
                }
            },
            (RematchStage::Draining, RematchEvent::Next(next)) => match next {
                NextEvent::GameStarted => self.end(RematchAction::Fail(RematchError::GameStarted)),
                NextEvent::OtherEvent => RematchAction::TakeEvent,
                NextEvent::Empty => {
                    self.stage = RematchStage::Checking;
                    RematchAction::ReadSettings
                },
                NextEvent::Lagged => self.end(RematchAction::Fail(RematchError::Lagged)),
                NextEvent::Closed => self.end(RematchAction::Fail(RematchError::BusClosed)),
            },
            (RematchStage::Checking, RematchEvent::Settings(settings)) => {
                if settings.is_active() {
                    self.stage = RematchStage::Looking;
                    RematchAction::Look
                } else {
                    self.end(RematchAction::Fail(RematchError::Disabled))
                }
            },
            (RematchStage::Looking, RematchEvent::Seen(None)) => {
                self.stage = RematchStage::Round;
                RematchAction::Sleep(POLL_MS)
            },
            (RematchStage::Looking, RematchEvent::Seen(Some(screen))) => {
                let action = choose_action(self.phase, screen, self.confirms, self.rematches);
                match action {
                    Action::Wait => {
                        self.stage = RematchStage::Round;
                        RematchAction::Sleep(POLL_MS)
                    },
                    _ => {
                        self.stage = RematchStage::Pressing(action);
                        RematchAction::Press(action)
                    },
                }
            },
            (RematchStage::Pressing(action), RematchEvent::Clicked { ok }) => {
                if !ok {
                    return self.end(RematchAction::Fail(RematchError::ClickFailed));
                }
                self.clicks = self.clicks + 1;
                self.stage = RematchStage::Round;
                match action {
                    Action::Rematch => {
                        self.rematches = self.rematches + 1;
                        self.phase = Phase::MatchDialog;
                    },
                    Action::Dialog => {
                        let clicks: u32 = self.clicks;
                        return self.end(RematchAction::Done { clicks });
                    },
                    Action::Confirm => {
                        self.confirms = self.confirms + 1;
                    },
                    _ => {},
                }
                RematchAction::Sleep(AFTER_CLICK_MS)
            },
            _ => RematchAction::Ignore,
        }
    }
}

/// The flow after a list of events.
pub open spec fn advanced_all(flow: RematchFlow, evs: Seq<RematchEvent>) -> RematchFlow
    decreases evs.len(),
{
    if evs.len() == 0 {
        flow
    } else {
        advanced(advanced_all(flow, evs.drop_last()), evs.last()).0
    }
}

/// The earliest time that the clock can show after a list of events, for a flow
/// that began at `start`: never earlier than it has shown, and later by each
/// sleep.
pub open spec fn earliest(start: u64, evs: Seq<RematchEvent>) -> int
    decreases evs.len(),
{
    if evs.len() == 0 {
        start as int
    } else {
        let before = earliest(start, evs.drop_last());
        let flow = advanced_all(rematch_start(start), evs.drop_last());
        match (evs.last(), advanced(flow, evs.last()).1) {
            (RematchEvent::Tick { now }, _) => if now > before {
                now as int
            } else {
                before
            },
            (_, RematchAction::Sleep(ms)) => before + ms * NANOS_PER_MS,
            _ => before,
        }
    }
}

/// Whether the clock ran forward and no sleep was cut short.
pub open spec fn timely(start: u64, evs: Seq<RematchEvent>) -> bool
    decreases evs.len(),
{
    evs.len() == 0 || {
        &&& timely(start, evs.drop_last())
        &&& evs.last() matches RematchEvent::Tick { now } ==> now >= earliest(
            start,
            evs.drop_last(),
        )
    }
}

/// A flow makes at most one click for each pause that fits in its time.
pub proof fn clicks_are_bounded(start: u64, evs: Seq<RematchEvent>)
    requires
        clock_ok(start),
        timely(start, evs),
    ensures
        advanced_all(rematch_start(start), evs).clicks <= FLOW_TIMEOUT_MS / AFTER_CLICK_MS,
{
    clicks_take_time(start, evs);
}

/// Every click so far has taken its pause, and a click is only made in time.
proof fn clicks_take_time(start: u64, evs: Seq<RematchEvent>)
    requires
        clock_ok(start),
        timely(start, evs),
    ensures
        ({
            let flow = advanced_all(rematch_start(start), evs);
            let paused = flow.clicks * AFTER_CLICK_MS * NANOS_PER_MS;
            &&& flow.clicks <= FLOW_TIMEOUT_MS / AFTER_CLICK_MS
            &&& flow.deadline == later(start, FLOW_TIMEOUT_MS as int)
            &&& !(flow.stage is Ended) ==> start + paused <= earliest(start, evs)
            &&& !(flow.stage is Ended || flow.stage is Round) ==> start + paused < flow.deadline
        }),
    decreases evs.len(),
{
    if evs.len() > 0 {
        clicks_take_time(start, evs.drop_last());
        let flow = advanced_all(rematch_start(start), evs.drop_last());
        assert(flow.clicks * AFTER_CLICK_MS * NANOS_PER_MS == flow.clicks * 1_500_000_000);
        if let (RematchStage::Pressing(_), RematchEvent::Clicked { ok: true }) = (
            flow.stage,
            evs.last(),
        ) {
            assert(flow.clicks < 80);
            assert((flow.clicks + 1) * AFTER_CLICK_MS * NANOS_PER_MS == flow.clicks
                * 1_500_000_000 + 1_500_000_000);
        }
    }
}

/// Each button is pressed no more often than is allowed, whatever happens.
pub proof fn presses_are_bounded(start: u64, evs: Seq<RematchEvent>)
    ensures
        advanced_all(rematch_start(start), evs).confirms <= MAX_CONFIRM_CLICKS,
        advanced_all(rematch_start(start), evs).rematches <= MAX_REMATCH_CLICKS,
{
    rematch_flows_are_wf(start, evs);
}

proof fn rematch_flows_are_wf(start: u64, evs: Seq<RematchEvent>)
    ensures
        advanced_all(rematch_start(start), evs).wf(),
    decreases evs.len(),
{
    if evs.len() > 0 {
        rematch_flows_are_wf(start, evs.drop_last());
    }
}

/// Nothing is clicked once another game has started, the settings have turned
/// rematches off, or the flow has ended some other way.
pub proof fn an_ended_flow_clicks_nothing(flow: RematchFlow, ev: RematchEvent)
    ensures
        flow.stage is Ended ==> advanced(flow, ev) == (flow, RematchAction::Ignore),
        ev matches RematchEvent::Next(NextEvent::GameStarted) ==> flow.stage is Draining
            ==> advanced(flow, ev).0.stage is Ended,
        ev matches RematchEvent::Settings(s) ==> flow.stage is Checking && !s.active()
            ==> advanced(flow, ev).0.stage is Ended,
{
}

/// A click comes only from a look at the screen, in a round in which the bus was
/// empty and the settings still wanted a rematch.
pub proof fn clicks_come_from_looks(flow: RematchFlow, ev: RematchEvent)
    requires
        advanced(flow, ev).1 is Press,
    ensures
        flow.stage is Looking,
        ev is Seen,
{
}

/// A look is taken only where the settings want a rematch, and the settings are
/// read only once the bus is empty.
pub proof fn looks_are_guarded(flow: RematchFlow, ev: RematchEvent)
    requires
        advanced(flow, ev).0.stage is Looking,
        !(flow.stage is Looking),
    ensures
        flow.stage is Checking,
        ev matches RematchEvent::Settings(s) && s.active(),
{
}

/// How long to rest on a button and to hold it down.
pub open spec fn timing(hover_delay_ms: u32, click_hold_ms: u32) -> (u32, u32) {
    (
        if hover_delay_ms > MIN_HOVER_MS {
            hover_delay_ms
        } else {
            MIN_HOVER_MS
        },
        if click_hold_ms > MIN_HOLD_MS {
            click_hold_ms
        } else {
            MIN_HOLD_MS
        },
    )
}

/// A press rests for a tenth of a second and holds for half of that at least, and
/// otherwise for just as long as the settings say, each for itself.
pub proof fn a_press_is_no_shorter_than_it_must_be(hover_delay_ms: u32, click_hold_ms: u32)
    ensures
        timing(hover_delay_ms, click_hold_ms).0 >= 100,
        timing(hover_delay_ms, click_hold_ms).0 >= hover_delay_ms,
        timing(hover_delay_ms, click_hold_ms).0 == 100 || timing(hover_delay_ms, click_hold_ms).0
            == hover_delay_ms,
        timing(hover_delay_ms, click_hold_ms).1 >= 50,
        timing(hover_delay_ms, click_hold_ms).1 >= click_hold_ms,
        timing(hover_delay_ms, click_hold_ms).1 == 50 || timing(hover_delay_ms, click_hold_ms).1
            == click_hold_ms,
{
}

/// Another game is wanted exactly if autoplay is on, the platform is Mahjong Soul
/// and at least one game remains.
pub proof fn a_game_is_wanted_while_one_remains(s: RematchSettings)
    ensures
        s.active() ==> s.enabled && s.platform is Majsoul && s.remaining_games != 0,
        !s.active() ==> !s.enabled || !(s.platform is Majsoul) || s.remaining_games == 0,
{
}

/// The way to the next match begins with nothing clicked and has two minutes, at
/// each of whose rounds the events are gone through first.
pub proof fn the_way_has_two_minutes(began: u64, now: u64)
    requires
        clock_ok(began),
    ensures
        ({
            let flow = rematch_start(began);
            let (after, action) = advanced(flow, RematchEvent::Tick { now });
            &&& flow.clicks == 0 && flow.confirms == 0 && flow.rematches == 0
            &&& flow.phase is Results
            &&& now - began < 120_000_000_000 ==> action is TakeEvent
            &&& now - began >= 120_000_000_000 ==> action == RematchAction::Fail(
                RematchError::TimedOut { clicks: 0 },
            )
        }),
{
}

/// What each event leads to. A round begins while there is time. All events on the
/// bus are gone through; a started game, a gap and a closed bus each end the way.
/// The screen is looked at while another game is wanted. What cannot be told, and
/// what is to be waited out, is looked at again after 600 milliseconds; anything
/// else is pressed.
pub proof fn a_round_goes_by_what_is_found(flow: RematchFlow, ev: RematchEvent)
    ensures
        ({
            let (after, action) = advanced(flow, ev);
            &&& flow.stage is Round ==> (ev matches RematchEvent::Tick { now } ==> {
                &&& now < flow.deadline ==> action is TakeEvent && after.stage is Draining
                &&& now >= flow.deadline ==> action == RematchAction::Fail(
                    RematchError::TimedOut { clicks: flow.clicks },
                )
            })
            &&& flow.stage is Draining ==> (ev matches RematchEvent::Next(next) ==> {
                &&& next is OtherEvent ==> action is TakeEvent && after.stage is Draining
                &&& next is Empty ==> action is ReadSettings && after.stage is Checking
                &&& next is GameStarted ==> action == RematchAction::Fail(RematchError::GameStarted)
                &&& next is Lagged ==> action == RematchAction::Fail(RematchError::Lagged)
                &&& next is Closed ==> action == RematchAction::Fail(RematchError::BusClosed)
            })
            &&& flow.stage is Checking ==> (ev matches RematchEvent::Settings(s) ==> {
                &&& s.enabled && s.platform is Majsoul && s.remaining_games > 0 ==> action is Look
                    && after.stage is Looking
                &&& !(s.enabled && s.platform is Majsoul && s.remaining_games > 0) ==> action
                    == RematchAction::Fail(RematchError::Disabled)
            })
            &&& flow.stage is Looking ==> (ev matches RematchEvent::Seen(seen) ==> match seen {
                None => action == RematchAction::Sleep(600) && after.stage is Round,
                Some(screen) => {
                    let press = chosen_action(flow.phase, screen, flow.confirms, flow.rematches);
                    &&& press is Wait ==> action == RematchAction::Sleep(600)
                        && after.stage is Round
                    &&& !(press is Wait) ==> action == RematchAction::Press(press) && after.stage
                        == RematchStage::Pressing(press)
                },
            })
        }),
{
}

/// A click that was made is counted, and so is each press of Confirm and Rematch
/// for itself. Rematch makes the dialog expected, the dialog ends the way well,
/// and any other click is followed by a pause of a second and a half. A click that
/// failed ends the way and counts for nothing.
pub proof fn clicks_are_counted(flow: RematchFlow, press: Action)
    requires
        flow.stage == RematchStage::Pressing(press),
        flow.clicks < u32::MAX,
        flow.confirms < u32::MAX,
        flow.rematches < u32::MAX,
    ensures
        ({
            let (after, action) = advanced(flow, RematchEvent::Clicked { ok: true });
            &&& after.clicks == flow.clicks + 1
            &&& after.confirms == flow.confirms + if press is Confirm {
                1int
            } else {
                0
            }
            &&& after.rematches == flow.rematches + if press is Rematch {
                1int
            } else {
                0
            }
            &&& press is Rematch ==> after.phase is MatchDialog
            &&& !(press is Rematch) ==> after.phase == flow.phase
            &&& press is Dialog ==> after.stage is Ended && action == (RematchAction::Done {
                clicks: (flow.clicks + 1) as u32,
            })
            &&& !(press is Dialog) ==> after.stage is Round && action == RematchAction::Sleep(1_500)
        }),
        advanced(flow, RematchEvent::Clicked { ok: false }) == (
            RematchFlow { stage: RematchStage::Ended, ..flow },
            RematchAction::Fail(RematchError::ClickFailed),
        ),
{
}

/// Only a click changes what was clicked and what is expected, and nothing changes
/// the time. The way has ended exactly if it is told so. An event that is not
/// waited for changes nothing.
pub proof fn the_way_keeps_its_count(flow: RematchFlow, ev: RematchEvent)
    ensures
        ({
            let (after, action) = advanced(flow, ev);
            let expected = match flow.stage {
                RematchStage::Round => ev is Tick,
                RematchStage::Draining => ev is Next,
                RematchStage::Checking => ev is Settings,
                RematchStage::Looking => ev is Seen,
                RematchStage::Pressing(_) => ev is Clicked,
                RematchStage::Ended => false,
            };
            &&& after.deadline == flow.deadline
            &&& !(flow.stage is Pressing) ==> after.clicks == flow.clicks && after.confirms
                == flow.confirms && after.rematches == flow.rematches && after.phase == flow.phase
            &&& expected <==> !(action is Ignore)
            &&& !expected ==> after == flow
            &&& expected ==> (after.stage is Ended <==> action is Fail || action is Done)
        }),
{
}

} // verus!
