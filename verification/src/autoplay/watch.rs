//! Counting finished Mahjong Soul games and starting the way to the next one.

use vstd::prelude::*;

use crate::autoplay::rematch::RematchSettings;
use crate::events::{GameEndReason, MjaiEvent, Platform};

verus! {

/// What happened outside.
#[derive(Debug)]
pub enum WatchEvent {
    /// A game event came in.
    Game(MjaiEvent),
    /// Game events were lost.
    Lagged,
    /// No more game events will come.
    Closed,
    /// The settings changed.
    Config(RematchSettings),
    /// The finished game was counted, and the settings are now these; nothing if
    /// the count could not be saved.
    Counted(Option<RematchSettings>),
    /// The way to the next match ended; a game may have started meanwhile.
    Advanced { game_started: bool },
}

/// What to do outside.
#[derive(Clone, Copy, Debug, PartialEq, Eq, Structural)]
pub enum WatchAction {
    /// Wait for the next event.
    Wait,
    /// Take one game off the games that remain and save that.
    CountGame,
    /// Go the way to the next match.
    Advance,
    Stop,
}

/// What the watcher remembers.
#[derive(Clone, Copy, Debug, PartialEq, Eq, Structural)]
pub struct WatchState {
    /// A game is on.
    pub in_game: bool,
    /// A result is on the screen that nothing has been done about.
    pub result_pending: bool,
}

/// What the watcher does about an event.
pub open spec fn watched(state: WatchState, ev: WatchEvent) -> (WatchState, WatchAction) {
    match ev {
        WatchEvent::Game(MjaiEvent::StartGame { .. }) => (
            WatchState { in_game: true, result_pending: false },
            WatchAction::Wait,
        ),
        WatchEvent::Game(MjaiEvent::EndGame { reason }) => if reason is Confirmed && state.in_game {
            (WatchState { in_game: false, ..state }, WatchAction::CountGame)
        } else {
            (WatchState { in_game: false, result_pending: false }, WatchAction::Wait)
        },
        WatchEvent::Game(_) | WatchEvent::Lagged | WatchEvent::Counted(None) => (
            state,
            WatchAction::Wait,
        ),
        WatchEvent::Closed => (state, WatchAction::Stop),
        WatchEvent::Config(settings) => if state.result_pending && settings.active() {
            (WatchState { result_pending: false, ..state }, WatchAction::Advance)
        } else {
            (state, WatchAction::Wait)
        },
        WatchEvent::Counted(Some(settings)) => (
            WatchState {
                result_pending: settings.platform is Majsoul && !settings.active(),
                ..state
            },
            if settings.active() {
                WatchAction::Advance
            } else {
                WatchAction::Wait
            },
        ),
        WatchEvent::Advanced { game_started } => (
            WatchState { in_game: state.in_game || game_started, ..state },
            WatchAction::Wait,
        ),
    }
}

impl WatchState {
    /// A watcher that has seen nothing yet.
    pub open spec fn fresh() -> WatchState {
        WatchState { in_game: false, result_pending: false }
    }

    /// A watcher that has seen nothing yet.
    pub fn new() -> (s: WatchState)
        ensures
            s == WatchState::fresh(),
    {
        WatchState { in_game: false, result_pending: false }
    }

    /// Takes in what happened outside and says what to do next.
    pub fn watch(&mut self, ev: WatchEvent) -> (act: WatchAction)
        ensures
            (*final(self), act) == watched(*old(self), ev),
    {
        match ev {
            WatchEvent::Game(MjaiEvent::StartGame { .. }) => {
                self.in_game = true;
                self.result_pending = false;
                WatchAction::Wait
            },
            WatchEvent::Game(MjaiEvent::EndGame { reason }) => {
                let counts = self.in_game && matches!(reason, GameEndReason::Confirmed);
                self.in_game = false;
                if counts {
                    WatchAction::CountGame
                } else {
                    self.result_pending = false;
                    WatchAction::Wait
                }
            },
            WatchEvent::Game(_) => WatchAction::Wait,
            WatchEvent::Lagged => WatchAction::Wait,
            WatchEvent::Closed => WatchAction::Stop,
            WatchEvent::Config(settings) => {
                if self.result_pending && settings.is_active() {
                    self.result_pending = false;
                    WatchAction::Advance
                } else {
                    WatchAction::Wait
                }
            },
            WatchEvent::Counted(None) => WatchAction::Wait,
            WatchEvent::Counted(Some(settings)) => {
                let majsoul = matches!(settings.platform, Platform::Majsoul);
                let enabled = settings.enabled && majsoul;
                self.result_pending = majsoul && (!enabled || settings.remaining_games == 0);
                if enabled && settings.remaining_games > 0 {
                    WatchAction::Advance
                } else {
                    WatchAction::Wait
                }
            },
            WatchEvent::Advanced { game_started } => {
                if game_started {
                    self.in_game = true;
                }
                WatchAction::Wait
            },
        }
    }
}

/// The watcher after a list of events.
pub open spec fn watched_all(evs: Seq<WatchEvent>) -> WatchState
    decreases evs.len(),
{
    if evs.len() == 0 {
        WatchState::fresh()
    } else {
        watched(watched_all(evs.drop_last()), evs.last()).0
    }
}

/// How many games a list of events has counted.
pub open spec fn games_counted(evs: Seq<WatchEvent>) -> int
    decreases evs.len(),
{
    if evs.len() == 0 {
        0
    } else {
        games_counted(evs.drop_last()) + if watched(
            watched_all(evs.drop_last()),
            evs.last(),
        ).1 is CountGame {
            1int
        } else {
            0
        }
    }
}

/// Whether an event says that a game started.
pub open spec fn tells_of_a_start(ev: WatchEvent) -> bool {
    match ev {
        WatchEvent::Game(MjaiEvent::StartGame { .. }) => true,
        WatchEvent::Advanced { game_started } => game_started,
        _ => false,
    }
}

/// How many games a list of events has seen start.
pub open spec fn games_started(evs: Seq<WatchEvent>) -> int
    decreases evs.len(),
{
    if evs.len() == 0 {
        0
    } else {
        games_started(evs.drop_last()) + if tells_of_a_start(evs.last()) {
            1int
        } else {
            0
        }
    }
}

/// No game is counted twice: there are never more games counted than started,
/// and while one is on there are fewer.
pub proof fn each_game_counts_once(evs: Seq<WatchEvent>)
    ensures
        games_counted(evs) + if watched_all(evs).in_game {
            1int
        } else {
            0
        } <= games_started(evs),
    decreases evs.len(),
{
    if evs.len() > 0 {
        each_game_counts_once(evs.drop_last());
    }
}

/// A confirmed end of a game that is on is counted, and a second report of it
/// is not.
pub proof fn a_confirmed_game_counts(state: WatchState, first: MjaiEvent, second: MjaiEvent)
    requires
        state.in_game,
        first matches MjaiEvent::EndGame { reason } && reason is Confirmed,
        second is EndGame,
    ensures
        watched(state, WatchEvent::Game(first)).1 is CountGame,
        watched(
            watched(state, WatchEvent::Game(first)).0,
            WatchEvent::Game(second),
        ).1 is Wait,
{
}

/// The way to the next match is gone only where the settings ask for another
/// game on Mahjong Soul, and then only after a counted game.
pub proof fn no_games_left_no_rematch(state: WatchState, ev: WatchEvent)
    ensures
        watched(state, ev).1 is Advance <==> match ev {
            WatchEvent::Counted(Some(s)) => s.active(),
            WatchEvent::Config(s) => s.active() && state.result_pending,
            _ => false,
        },
{
}

/// A result left standing because the games had run out is taken up when the
/// settings ask for more, once.
pub proof fn a_standing_result_is_taken_up_once(
    state: WatchState,
    counted: RematchSettings,
    later: RematchSettings,
)
    requires
        counted.platform is Majsoul,
        !counted.active(),
        later.active(),
    ensures
        ({
            let standing = watched(state, WatchEvent::Counted(Some(counted))).0;
            let (after, act) = watched(standing, WatchEvent::Config(later));
            &&& act is Advance
            &&& watched(after, WatchEvent::Config(later)).1 is Wait
        }),
{
}

/// Whether an event ends a game.
pub open spec fn tells_of_an_end(ev: WatchEvent) -> bool {
    ev matches WatchEvent::Game(MjaiEvent::EndGame { .. })
}

/// A game that has started is on until it ends, whatever else happens: hands,
/// draws, discards, gaps, settings. So a confirmed end after a start is counted,
/// if no other end came in between.
pub proof fn a_game_is_on_until_it_ends(evs: Seq<WatchEvent>, i: int, end: WatchEvent)
    requires
        0 <= i < evs.len(),
        tells_of_a_start(evs[i]),
        forall|j: int| i < j < evs.len() ==> !tells_of_an_end(#[trigger] evs[j]),
    ensures
        watched_all(evs).in_game,
        end == WatchEvent::Game(MjaiEvent::EndGame { reason: GameEndReason::Confirmed }) ==> watched(
            watched_all(evs),
            end,
        ).1 is CountGame,
    decreases evs.len(),
{
    if i < evs.len() - 1 {
        let before = evs.drop_last();
        assert forall|j: int| i < j < before.len() implies !tells_of_an_end(
            #[trigger] before[j],
        ) by {
            assert(before[j] == evs[j]);
        }
        a_game_is_on_until_it_ends(before, i, end);
        assert(evs.last() == evs[evs.len() - 1]);
    } else {
        assert(evs.last() == evs[i]);
    }
}

/// No game is on before the first start, nor from an end to the next start. So an
/// end that comes then is not counted.
pub proof fn no_game_is_on_before_it_starts(evs: Seq<WatchEvent>, from: int, end: MjaiEvent)
    requires
        0 <= from <= evs.len(),
        from == 0 || tells_of_an_end(evs[from - 1]),
        forall|j: int| from <= j < evs.len() ==> !tells_of_a_start(#[trigger] evs[j]),
    ensures
        !watched_all(evs).in_game,
        end is EndGame ==> watched(watched_all(evs), WatchEvent::Game(end)).1 is Wait,
    decreases evs.len(),
{
    if evs.len() > 0 && from < evs.len() {
        let before = evs.drop_last();
        assert forall|j: int| from <= j < before.len() implies !tells_of_a_start(
            #[trigger] before[j],
        ) by {
            assert(before[j] == evs[j]);
        }
        if from > 0 {
            assert(before[from - 1] == evs[from - 1]);
        }
        no_game_is_on_before_it_starts(before, from, end);
        assert(evs.last() == evs[evs.len() - 1]);
    } else if evs.len() > 0 {
        assert(evs.last() == evs[from - 1]);
    }
}

/// Only a confirmed end is counted, and only while a game is on.
pub proof fn only_confirmed_games_count(state: WatchState, ev: WatchEvent)
    ensures
        watched(state, ev).1 is CountGame <==> state.in_game && ev == WatchEvent::Game(
            MjaiEvent::EndGame { reason: GameEndReason::Confirmed },
        ),
{
}

/// Whether a game is on changes with a start and an end alone.
pub proof fn only_starts_and_ends_change_the_game(state: WatchState, ev: WatchEvent)
    ensures
        tells_of_a_start(ev) ==> watched(state, ev).0.in_game,
        tells_of_an_end(ev) ==> !watched(state, ev).0.in_game,
        !tells_of_a_start(ev) && !tells_of_an_end(ev) ==> watched(state, ev).0.in_game
            == state.in_game,
        tells_of_a_start(ev) <==> (ev matches WatchEvent::Game(MjaiEvent::StartGame { .. })) || ev
            == (WatchEvent::Advanced { game_started: true }),
{
}

/// A result is left standing exactly by a counted game after which no other is
/// wanted on Mahjong Soul. A start takes it away, and so do an end that does not
/// count and the settings that ask for another game. Nothing else touches it.
pub proof fn a_result_stands_until_it_is_taken_up(state: WatchState, ev: WatchEvent)
    ensures
        ({
            let after = watched(state, ev).0.result_pending;
            match ev {
                WatchEvent::Counted(Some(s)) => after <==> s.platform is Majsoul && (!s.enabled
                    || s.remaining_games == 0),
                WatchEvent::Config(s) => after <==> state.result_pending && !(s.enabled
                    && s.platform is Majsoul && s.remaining_games > 0),
                WatchEvent::Game(MjaiEvent::StartGame { .. }) => !after,
                WatchEvent::Game(MjaiEvent::EndGame { reason }) => after <==> state.result_pending
                    && state.in_game && reason is Confirmed,
                _ => after == state.result_pending,
            }
        }),
{
}

/// The way to the next match is gone exactly after a counted game, or with a
/// result left standing, where autoplay is on, the platform is Mahjong Soul and a
/// game remains. The watcher stops exactly when no more game events will come, and
/// where it does none of these and counts nothing, it waits.
pub proof fn the_watcher_acts_only_when_due(state: WatchState, ev: WatchEvent)
    ensures
        ({
            let action = watched(state, ev).1;
            &&& action is Stop <==> ev is Closed
            &&& action is Advance <==> match ev {
                WatchEvent::Counted(Some(s)) => s.enabled && s.platform is Majsoul
                    && s.remaining_games > 0,
                WatchEvent::Config(s) => state.result_pending && s.enabled && s.platform is Majsoul
                    && s.remaining_games > 0,
                _ => false,
            }
        }),
        !WatchState::fresh().in_game && !WatchState::fresh().result_pending,
{
}

} // verus!
