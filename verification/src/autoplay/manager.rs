//! What the autoplay manager remembers about the game in progress.
//!
//! The memory is kept current by the mjai event stream and survives exactly as
//! long as it stays true: a tile memory for a hand, the seat and the count of
//! dead decisions for a game.

use vstd::prelude::*;

use crate::clock::{after_ms, clock_ok, later};
use crate::events::MjaiEvent;

verus! {

/// How long a measured canvas rectangle is trusted, in milliseconds.
pub const CANVAS_RECT_TTL_MS: u32 = 30_000;

/// The manager's memory of the game in progress.
#[derive(Debug)]
pub struct ManagerState {
    /// The last tile anyone discarded in this hand.
    pub last_kawa_tile: Option<String>,
    /// The tile we drew and still hold apart from the hand.
    pub last_self_tsumo: Option<String>,
    /// Whether our riichi has been accepted in this hand.
    pub self_riichi_accepted: bool,
    /// When the canvas rectangle was last measured.
    pub canvas_rect_at: Option<u64>,
    /// Decisions in a row in which the client took none of our presses.
    pub dead_clicks: u32,
    /// Our seat, as the game's opening event named it.
    pub cached_our_seat: Option<u8>,
    /// The decision window that was last acted on.
    pub acted_window: Option<u64>,
}

/// A tile name as a sequence of characters.
pub open spec fn tile_view(tile: Option<String>) -> Option<Seq<char>> {
    match tile {
        Some(name) => Some(name@),
        None => None,
    }
}

/// The manager's memory as mathematical values.
#[verifier::ext_equal]
pub struct Memory {
    pub last_kawa_tile: Option<Seq<char>>,
    pub last_self_tsumo: Option<Seq<char>>,
    pub self_riichi_accepted: bool,
    pub canvas_rect_at: Option<u64>,
    pub dead_clicks: u32,
    pub cached_our_seat: Option<u8>,
    pub acted_window: Option<u64>,
}

impl View for ManagerState {
    type V = Memory;

    open spec fn view(&self) -> Memory {
        Memory {
            last_kawa_tile: tile_view(self.last_kawa_tile),
            last_self_tsumo: tile_view(self.last_self_tsumo),
            self_riichi_accepted: self.self_riichi_accepted,
            canvas_rect_at: self.canvas_rect_at,
            dead_clicks: self.dead_clicks,
            cached_our_seat: self.cached_our_seat,
            acted_window: self.acted_window,
        }
    }
}

/// Nothing remembered.
pub open spec fn blank() -> Memory {
    Memory {
        last_kawa_tile: None,
        last_self_tsumo: None,
        self_riichi_accepted: false,
        canvas_rect_at: None,
        dead_clicks: 0,
        cached_our_seat: None,
        acted_window: None,
    }
}

/// The seat to go by: the one the game opened with, or else the one that the
/// game tracker reports.
pub open spec fn seat_of(cached: Option<u8>, tracker_seat: Option<u8>) -> Option<u8> {
    match cached {
        Some(seat) => Some(seat),
        None => tracker_seat,
    }
}

/// The player that an event moves, if it is a call or a kan.
pub open spec fn caller_of(ev: MjaiEvent) -> Option<u8> {
    match ev {
        MjaiEvent::Chi { actor, .. } => Some(actor),
        MjaiEvent::Pon { actor, .. } => Some(actor),
        MjaiEvent::Daiminkan { actor, .. } => Some(actor),
        MjaiEvent::Ankan { actor, .. } => Some(actor),
        MjaiEvent::Kakan { actor, .. } => Some(actor),
        _ => None,
    }
}

/// What is remembered after `ev`, given what was remembered before it.
pub open spec fn remembered(before: Memory, ev: MjaiEvent, tracker_seat: Option<u8>) -> Memory {
    let seat = seat_of(before.cached_our_seat, tracker_seat);
    match ev {
        MjaiEvent::StartGame { id, .. } => Memory { cached_our_seat: id, ..blank() },
        MjaiEvent::EndGame { .. } => blank(),
        MjaiEvent::StartKyoku { .. } | MjaiEvent::EndKyoku => Memory {
            canvas_rect_at: before.canvas_rect_at,
            cached_our_seat: before.cached_our_seat,
            dead_clicks: before.dead_clicks,
            ..blank()
        },
        MjaiEvent::Tsumo { actor, pai } => if seat == Some(actor) {
            Memory { last_self_tsumo: Some(pai@), ..before }
        } else {
            before
        },
        MjaiEvent::Dahai { actor, pai, .. } => Memory {
            last_kawa_tile: Some(pai@),
            last_self_tsumo: if seat == Some(actor) { None } else { before.last_self_tsumo },
            ..before
        },
        MjaiEvent::ReachAccepted { actor } => if seat == Some(actor) {
            Memory { self_riichi_accepted: true, ..before }
        } else {
            before
        },
        _ => if caller_of(ev) is Some && seat == caller_of(ev) {
            Memory { last_self_tsumo: None, ..before }
        } else {
            before
        },
    }
}

/// What is remembered after a whole stream of events, where the tracker's
/// answer accompanies each event.
pub open spec fn remembered_all(before: Memory, evs: Seq<(MjaiEvent, Option<u8>)>) -> Memory
    decreases evs.len(),
{
    if evs.len() == 0 {
        before
    } else {
        remembered(remembered_all(before, evs.drop_last()), evs.last().0, evs.last().1)
    }
}

impl Default for ManagerState {
    fn default() -> (s: Self)
        ensures
            s@ == blank(),
    {
        ManagerState {
            last_kawa_tile: None,
            last_self_tsumo: None,
            self_riichi_accepted: false,
            canvas_rect_at: None,
            dead_clicks: 0,
            cached_our_seat: None,
            acted_window: None,
        }
    }
}

/// The count of dead decisions after one more checked decision, and whether the
/// page is reloaded over it.
pub open spec fn tally(dead: int, registered: bool, reload_after: u32) -> (int, bool) {
    if registered {
        (0, false)
    } else if reload_after > 0 && dead + 1 >= reload_after {
        (0, true)
    } else {
        (dead + 1, false)
    }
}

/// Where the rectangle for a click comes from.
#[derive(Clone, Copy, Debug, PartialEq, Eq, Structural)]
pub enum CanvasSource {
    /// The rectangle measured last.
    Cached,
    /// A new measurement in the page.
    Query,
}

impl ManagerState {
    /// Best-effort seat lookup: the seat the game opened with, or else the one
    /// that the game tracker reports.
    pub fn our_seat_cached(&self, tracker_seat: Option<u8>) -> (seat: Option<u8>)
        ensures
            seat == seat_of(self@.cached_our_seat, tracker_seat),
    {
        match self.cached_our_seat {
            Some(seat) => Some(seat),
            None => tracker_seat,
        }
    }

    /// Whether `actor` is us.
    fn is_us(&self, actor: u8, tracker_seat: Option<u8>) -> (res: bool)
        ensures
            res == (seat_of(self@.cached_our_seat, tracker_seat) == Some(actor)),
    {
        match self.our_seat_cached(tracker_seat) {
            Some(seat) => seat == actor,
            None => false,
        }
    }

    /// Brings the memory up to date with one event. `tracker_seat` is our seat
    /// according to the game tracker, if it could be asked.
    pub fn handle_mjai_event(&mut self, ev: &MjaiEvent, tracker_seat: Option<u8>)
        ensures
            final(self)@ == remembered(old(self)@, *ev, tracker_seat),
    {
        match ev {
            MjaiEvent::StartGame { id, .. } => {
                let seat = *id;
                *self = ManagerState::default();
                self.cached_our_seat = seat;
            },
            MjaiEvent::EndGame { .. } => {
                *self = ManagerState::default();
            },
            MjaiEvent::StartKyoku { .. } | MjaiEvent::EndKyoku => {
                // The failures of an unresponsive client run on across hands,
                // and so does the seat.
                let canvas_at = self.canvas_rect_at;
                let seat = self.cached_our_seat;
                let dead_clicks = self.dead_clicks;
                *self = ManagerState::default();
                self.canvas_rect_at = canvas_at;
                self.cached_our_seat = seat;
                self.dead_clicks = dead_clicks;
            },
            MjaiEvent::Tsumo { actor, pai } => {
                if self.is_us(*actor, tracker_seat) {
                    self.last_self_tsumo = Some(pai.clone());
                }
            },
            MjaiEvent::Dahai { actor, pai, .. } => {
                self.last_kawa_tile = Some(pai.clone());
                if self.is_us(*actor, tracker_seat) {
                    self.last_self_tsumo = None;
                }
            },
            MjaiEvent::ReachAccepted { actor } => {
                if self.is_us(*actor, tracker_seat) {
                    self.self_riichi_accepted = true;
                }
            },
            MjaiEvent::Chi { actor, .. }
            | MjaiEvent::Pon { actor, .. }
            | MjaiEvent::Daiminkan { actor, .. }
            | MjaiEvent::Ankan { actor, .. }
            | MjaiEvent::Kakan { actor, .. } => {
                if self.is_us(*actor, tracker_seat) {
                    self.last_self_tsumo = None;
                }
            },
            _ => {},
        }
    }

    /// Whether a click may use the rectangle measured last (`cached` says
    /// whether there is one) or has to measure the canvas anew.
    pub fn canvas_rect_resolve(&self, now: u64, cached: bool) -> (src: CanvasSource)
        requires
            self.canvas_rect_at matches Some(at) ==> clock_ok(at),
        ensures
            src is Cached <==> cached && self@.canvas_rect_at is Some && now < later(
                self@.canvas_rect_at->0,
                CANVAS_RECT_TTL_MS as int,
            ),
            src is Cached <==> canvas_is_fresh(self@.canvas_rect_at, now, cached),
    {
        match self.canvas_rect_at {
            Some(at) => {
                if now < after_ms(at, CANVAS_RECT_TTL_MS) && cached {
                    CanvasSource::Cached
                } else {
                    CanvasSource::Query
                }
            },
            None => CanvasSource::Query,
        }
    }

    /// Notes that the canvas was measured at `now`.
    pub fn canvas_measured(&mut self, now: u64)
        ensures
            final(self)@ == (Memory { canvas_rect_at: Some(now), ..old(self)@ }),
            final(self)@ == with_canvas(old(self)@, now),
    {
        self.canvas_rect_at = Some(now);
    }

    /// Notes that the page was reloaded: its canvas is a new one.
    pub fn page_reloaded(&mut self)
        ensures
            final(self)@ == (Memory { canvas_rect_at: None, ..old(self)@ }),
            final(self)@ == without_canvas(old(self)@),
    {
        self.canvas_rect_at = None;
    }

    /// Counts the outcome of a decision whose presses were checked: did the
    /// client take them? Returns whether the page is to be reloaded, which is
    /// the case once `reload_after` decisions in a row have failed (never for
    /// a `reload_after` of zero).
    pub fn record_outcome(&mut self, registered: bool, reload_after: u32) -> (reload: bool)
        requires
            registered || old(self)@.dead_clicks < u32::MAX,
        ensures
            reload == tally(old(self)@.dead_clicks as int, registered, reload_after).1,
            final(self)@ == (Memory {
                dead_clicks: tally(old(self)@.dead_clicks as int, registered, reload_after).0 as u32,
                ..old(self)@
            }),
            (final(self)@, reload) == outcome(old(self)@, registered, reload_after),
    {
        if registered {
            self.dead_clicks = 0;
            return false;
        }
        self.dead_clicks = self.dead_clicks + 1;
        if reload_after > 0 && self.dead_clicks >= reload_after {
            self.dead_clicks = 0;
            return true;
        }
        false
    }
}

/// From the opening event on, our seat is the one it named, through every hand
/// of the game: no event but another opening or the end changes it.
pub proof fn seat_lasts_for_the_game(
    before: Memory,
    opening: MjaiEvent,
    opening_seat: Option<u8>,
    evs: Seq<(MjaiEvent, Option<u8>)>,
)
    requires
        opening is StartGame,
        forall|i: int|
            0 <= i < evs.len() ==> !((#[trigger] evs[i]).0 is StartGame) && !(evs[i].0 is EndGame),
    ensures
        remembered_all(remembered(before, opening, opening_seat), evs).cached_our_seat
            == opening->StartGame_id,
    decreases evs.len(),
{
    if evs.len() > 0 {
        assert forall|i: int| 0 <= i < evs.drop_last().len() implies !((
        #[trigger] evs.drop_last()[i]).0 is StartGame) && !(evs.drop_last()[i].0 is EndGame) by {
            assert(evs.drop_last()[i] == evs[i]);
        }
        seat_lasts_for_the_game(before, opening, opening_seat, evs.drop_last());
        assert(evs.last() == evs[evs.len() - 1]);
    }
}

/// The count of dead decisions goes through any events within a game unchanged
/// and is zero right after a game begins or ends.
pub proof fn dead_clicks_last_for_the_game(before: Memory, ev: MjaiEvent, tracker_seat: Option<u8>)
    ensures
        ev is StartGame || ev is EndGame ==> remembered(before, ev, tracker_seat).dead_clicks == 0,
        !(ev is StartGame) && !(ev is EndGame) ==> remembered(before, ev, tracker_seat).dead_clicks
            == before.dead_clicks,
{
}

/// Each hand starts with no tile, no riichi and no answered window remembered.
pub proof fn a_hand_starts_clean(before: Memory, ev: MjaiEvent, tracker_seat: Option<u8>)
    requires
        ev is StartKyoku || ev is EndKyoku,
    ensures
        remembered(before, ev, tracker_seat).last_kawa_tile is None,
        remembered(before, ev, tracker_seat).last_self_tsumo is None,
        !remembered(before, ev, tracker_seat).self_riichi_accepted,
        remembered(before, ev, tracker_seat).acted_window is None,
{
}

/// What the other players draw, call or declare is no business of ours: only
/// their discards leave a trace, and only in the last discarded tile.
pub proof fn others_leave_our_memory_alone(
    before: Memory,
    ev: MjaiEvent,
    tracker_seat: Option<u8>,
    actor: u8,
)
    requires
        seat_of(before.cached_our_seat, tracker_seat) != Some(actor),
        (ev is Tsumo && ev->Tsumo_actor == actor) || (ev is Dahai && ev->Dahai_actor == actor) || (
        ev is ReachAccepted && ev->ReachAccepted_actor == actor) || caller_of(ev) == Some(actor),
    ensures
        remembered(before, ev, tracker_seat) == (Memory {
            last_kawa_tile: remembered(before, ev, tracker_seat).last_kawa_tile,
            ..before
        }),
        !(ev is Dahai) ==> remembered(before, ev, tracker_seat) == before,
{
}

/// The count of dead decisions after `k` checked decisions in a row have failed
/// since the client last took a press.
pub open spec fn dead_after_failures(k: nat, reload_after: u32) -> int
    decreases k,
{
    if k == 0 {
        0
    } else {
        tally(dead_after_failures((k - 1) as nat, reload_after), false, reload_after).0
    }
}

/// With a threshold of `n`, the failures before the `n`-th are only counted and
/// the `n`-th in a row reloads the page and starts the count over.
pub proof fn reload_comes_at_the_threshold(k: nat, reload_after: u32)
    requires
        0 < k <= reload_after,
    ensures
        tally(dead_after_failures((k - 1) as nat, reload_after), false, reload_after).1 <==> k
            == reload_after,
        dead_after_failures(k, reload_after) == if k == reload_after { 0 } else { k as int },
    decreases k,
{
    reveal_with_fuel(dead_after_failures, 2);
    if k > 1 {
        reload_comes_at_the_threshold((k - 1) as nat, reload_after);
    }
}

/// A threshold of zero never reloads the page.
pub proof fn no_threshold_no_reload(dead: int, registered: bool)
    ensures
        !tally(dead, registered, 0).1,
{
}

/// Whether an event begins or ends a hand or a game.
pub open spec fn turns_the_page(ev: MjaiEvent) -> bool {
    ev is StartGame || ev is EndGame || ev is StartKyoku || ev is EndKyoku
}

/// Whether an event is a draw of a player.
pub open spec fn draws(ev: MjaiEvent, seat: u8) -> bool {
    ev is Tsumo && ev->Tsumo_actor == seat
}

/// Whether an event takes the drawn tile of a player away: a discard, a call or a
/// kan of that player, or the turn of a hand.
pub open spec fn puts_away(ev: MjaiEvent, seat: u8) -> bool {
    ||| turns_the_page(ev)
    ||| ev is Dahai && ev->Dahai_actor == seat
    ||| ev is Chi && ev->Chi_actor == seat
    ||| ev is Pon && ev->Pon_actor == seat
    ||| ev is Daiminkan && ev->Daiminkan_actor == seat
    ||| ev is Ankan && ev->Ankan_actor == seat
    ||| ev is Kakan && ev->Kakan_actor == seat
}

/// Whether an event accepts the riichi of a player.
pub open spec fn accepts_riichi(ev: MjaiEvent, seat: u8) -> bool {
    ev is ReachAccepted && ev->ReachAccepted_actor == seat
}

/// Whoever discards, and whatever was remembered before: the tile discarded last
/// in a hand is the one that is remembered, for as long as nothing else is
/// discarded and the hand goes on.
pub proof fn the_latest_discard_is_remembered(
    before: Memory,
    evs: Seq<(MjaiEvent, Option<u8>)>,
    i: int,
)
    requires
        0 <= i < evs.len(),
        evs[i].0 is Dahai,
        forall|j: int|
            i < j < evs.len() ==> !((#[trigger] evs[j]).0 is Dahai) && !turns_the_page(evs[j].0),
    ensures
        remembered_all(before, evs).last_kawa_tile == Some(evs[i].0->Dahai_pai@),
    decreases evs.len(),
{
    if i < evs.len() - 1 {
        assert forall|j: int| i < j < evs.drop_last().len() implies !((
        #[trigger] evs.drop_last()[j]).0 is Dahai) && !turns_the_page(evs.drop_last()[j].0) by {
            assert(evs.drop_last()[j] == evs[j]);
        }
        the_latest_discard_is_remembered(before, evs.drop_last(), i);
        assert(evs.last() == evs[evs.len() - 1]);
    }
}

/// No discarded tile is remembered in a hand before its first discard.
pub proof fn a_hand_begins_without_a_discard(
    before: Memory,
    evs: Seq<(MjaiEvent, Option<u8>)>,
    i: int,
)
    requires
        0 <= i < evs.len(),
        turns_the_page(evs[i].0),
        forall|j: int| i < j < evs.len() ==> !((#[trigger] evs[j]).0 is Dahai),
    ensures
        remembered_all(before, evs).last_kawa_tile is None,
    decreases evs.len(),
{
    if i < evs.len() - 1 {
        assert forall|j: int| i < j < evs.drop_last().len() implies !((
        #[trigger] evs.drop_last()[j]).0 is Dahai) by {
            assert(evs.drop_last()[j] == evs[j]);
        }
        a_hand_begins_without_a_discard(before, evs.drop_last(), i);
        assert(evs.last() == evs[evs.len() - 1]);
    }
}

/// In a game in which our seat is known, the tile that we drew is remembered until
/// we discard, call, declare a kan or draw again, or the hand turns.
pub proof fn our_draw_is_remembered(
    before: Memory,
    evs: Seq<(MjaiEvent, Option<u8>)>,
    i: int,
    seat: u8,
)
    requires
        before.cached_our_seat == Some(seat),
        forall|j: int|
            0 <= j < evs.len() ==> !((#[trigger] evs[j]).0 is StartGame) && !(evs[j].0 is EndGame),
        0 <= i < evs.len(),
        draws(evs[i].0, seat),
        forall|j: int|
            i < j < evs.len() ==> !draws((#[trigger] evs[j]).0, seat) && !puts_away(evs[j].0, seat),
    ensures
        remembered_all(before, evs).last_self_tsumo == Some(evs[i].0->Tsumo_pai@),
    decreases evs.len(),
{
    seat_stays_within_a_game(before, evs.drop_last(), seat, evs);
    if i < evs.len() - 1 {
        assert forall|j: int| 0 <= j < evs.drop_last().len() implies evs.drop_last()[j]
            == #[trigger] evs[j] by {}
        assert forall|j: int| i < j < evs.drop_last().len() implies !draws(
            (#[trigger] evs.drop_last()[j]).0,
            seat,
        ) && !puts_away(evs.drop_last()[j].0, seat) by {
            assert(evs.drop_last()[j] == evs[j]);
        }
        assert forall|j: int| 0 <= j < evs.drop_last().len() implies !((
        #[trigger] evs.drop_last()[j]).0 is StartGame) && !(evs.drop_last()[j].0 is EndGame) by {
            assert(evs.drop_last()[j] == evs[j]);
        }
        our_draw_is_remembered(before, evs.drop_last(), i, seat);
    }
    assert(evs.last() == evs[evs.len() - 1]);
}

/// In such a game no drawn tile is remembered from the moment we put one away, or
/// the hand turns, until we draw again.
pub proof fn what_we_put_away_is_forgotten(
    before: Memory,
    evs: Seq<(MjaiEvent, Option<u8>)>,
    i: int,
    seat: u8,
)
    requires
        before.cached_our_seat == Some(seat),
        forall|j: int|
            0 <= j < evs.len() ==> !((#[trigger] evs[j]).0 is StartGame) && !(evs[j].0 is EndGame),
        0 <= i < evs.len(),
        puts_away(evs[i].0, seat),
        forall|j: int| i < j < evs.len() ==> !draws((#[trigger] evs[j]).0, seat),
    ensures
        remembered_all(before, evs).last_self_tsumo is None,
    decreases evs.len(),
{
    seat_stays_within_a_game(before, evs.drop_last(), seat, evs);
    if i < evs.len() - 1 {
        assert forall|j: int| i < j < evs.drop_last().len() implies !draws(
            (#[trigger] evs.drop_last()[j]).0,
            seat,
        ) by {
            assert(evs.drop_last()[j] == evs[j]);
        }
        assert forall|j: int| 0 <= j < evs.drop_last().len() implies !((
        #[trigger] evs.drop_last()[j]).0 is StartGame) && !(evs.drop_last()[j].0 is EndGame) by {
            assert(evs.drop_last()[j] == evs[j]);
        }
        what_we_put_away_is_forgotten(before, evs.drop_last(), i, seat);
    }
    assert(evs.last() == evs[evs.len() - 1]);
}

/// In such a game we are in riichi from the moment ours is accepted until the hand
/// turns, and at no other time of the hand.
pub proof fn riichi_lasts_for_the_hand(
    before: Memory,
    evs: Seq<(MjaiEvent, Option<u8>)>,
    i: int,
    seat: u8,
)
    requires
        before.cached_our_seat == Some(seat),
        forall|j: int|
            0 <= j < evs.len() ==> !((#[trigger] evs[j]).0 is StartGame) && !(evs[j].0 is EndGame),
        0 <= i < evs.len(),
        accepts_riichi(evs[i].0, seat) || turns_the_page(evs[i].0),
        forall|j: int|
            i < j < evs.len() ==> !accepts_riichi((#[trigger] evs[j]).0, seat) && !turns_the_page(
                evs[j].0,
            ),
    ensures
        remembered_all(before, evs).self_riichi_accepted == accepts_riichi(evs[i].0, seat),
    decreases evs.len(),
{
    seat_stays_within_a_game(before, evs.drop_last(), seat, evs);
    if i < evs.len() - 1 {
        assert forall|j: int| i < j < evs.drop_last().len() implies !accepts_riichi(
            (#[trigger] evs.drop_last()[j]).0,
            seat,
        ) && !turns_the_page(evs.drop_last()[j].0) by {
            assert(evs.drop_last()[j] == evs[j]);
        }
        assert forall|j: int| 0 <= j < evs.drop_last().len() implies !((
        #[trigger] evs.drop_last()[j]).0 is StartGame) && !(evs.drop_last()[j].0 is EndGame) by {
            assert(evs.drop_last()[j] == evs[j]);
        }
        riichi_lasts_for_the_hand(before, evs.drop_last(), i, seat);
    }
    assert(evs.last() == evs[evs.len() - 1]);
}

/// A seat that is known stays known through any events within a game.
proof fn seat_stays_within_a_game(
    before: Memory,
    evs: Seq<(MjaiEvent, Option<u8>)>,
    seat: u8,
    all: Seq<(MjaiEvent, Option<u8>)>,
)
    requires
        before.cached_our_seat == Some(seat),
        evs.len() <= all.len(),
        forall|j: int| 0 <= j < evs.len() ==> evs[j] == #[trigger] all[j],
        forall|j: int|
            0 <= j < all.len() ==> !((#[trigger] all[j]).0 is StartGame) && !(all[j].0 is EndGame),
    ensures
        remembered_all(before, evs).cached_our_seat == Some(seat),
    decreases evs.len(),
{
    if evs.len() > 0 {
        seat_stays_within_a_game(before, evs.drop_last(), seat, all);
        assert(evs.last() == evs[evs.len() - 1]);
        assert(evs[evs.len() - 1] == all[evs.len() - 1]);
    }
}

/// The seat that the game opened with decides whose events are ours, whatever the
/// tracker says. Where it is not known, the tracker's stands in for it, to the
/// same effect.
pub proof fn the_tracker_only_stands_in(
    before: Memory,
    ev: MjaiEvent,
    seat: u8,
    one: Option<u8>,
    other: Option<u8>,
)
    requires
        before.cached_our_seat == Some(seat),
        !(ev is StartGame) && !(ev is EndGame),
    ensures
        remembered(before, ev, one) == remembered(before, ev, other),
        remembered(Memory { cached_our_seat: None, ..before }, ev, Some(seat)) == (Memory {
            cached_our_seat: None,
            ..remembered(before, ev, one)
        }),
{
}

/// With no seat known at all, only discards and the turns of hands and games are
/// noticed.
pub proof fn without_a_seat_nothing_is_ours(before: Memory, ev: MjaiEvent)
    requires
        before.cached_our_seat is None,
        !turns_the_page(ev),
    ensures
        remembered(before, ev, None) == (Memory {
            last_kawa_tile: if ev is Dahai {
                Some(ev->Dahai_pai@)
            } else {
                before.last_kawa_tile
            },
            ..before
        }),
{
}

/// The other things that an event changes: the canvas is forgotten with a game
/// only, the answered window with a hand, and the seat changes with a game only,
/// to the one it opens with.
pub proof fn events_change_nothing_else(before: Memory, ev: MjaiEvent, tracker_seat: Option<u8>)
    ensures
        ({
            let after = remembered(before, ev, tracker_seat);
            &&& after.canvas_rect_at == if ev is StartGame || ev is EndGame {
                None
            } else {
                before.canvas_rect_at
            }
            &&& after.acted_window == if turns_the_page(ev) {
                None
            } else {
                before.acted_window
            }
            &&& after.cached_our_seat == if ev is StartGame {
                ev->StartGame_id
            } else if ev is EndGame {
                None
            } else {
                before.cached_our_seat
            }
        }),
        ev is NoAction || ev is Dora || ev is Reach || ev is Kita || ev is Hora || ev is Ryukyoku
            ==> remembered(before, ev, tracker_seat) == before,
{
}

/// A manager that remembers nothing has seen no tile, no riichi, no canvas, no
/// window, no seat and no dead decision; so has one after a game has ended.
pub proof fn an_ended_game_leaves_nothing(before: Memory, ev: MjaiEvent, tracker_seat: Option<u8>)
    requires
        ev is EndGame,
    ensures
        remembered(before, ev, tracker_seat) == blank(),
        blank().last_kawa_tile is None,
        blank().last_self_tsumo is None,
        !blank().self_riichi_accepted,
        blank().canvas_rect_at is None,
        blank().dead_clicks == 0,
        blank().cached_our_seat is None,
        blank().acted_window is None,
{
}

/// A press that lands starts the count over and reloads nothing. One that does not
/// is counted, or it reloads the page and starts the count over, which it does at
/// any count that has come to the threshold.
pub proof fn every_decision_counts(dead: int, reload_after: u32)
    ensures
        tally(dead, true, reload_after) == (0int, false),
        tally(dead, false, reload_after).1 <==> 0 < reload_after <= dead + 1,
        tally(dead, false, reload_after).0 == if tally(dead, false, reload_after).1 {
            0
        } else {
            dead + 1
        },
{
}

/// The seat that the game opened with goes before the tracker's.
pub proof fn the_opening_seat_goes_first(seat: u8, tracker_seat: Option<u8>)
    ensures
        seat_of(Some(seat), tracker_seat) == Some(seat),
        seat_of(None, tracker_seat) == tracker_seat,
{
}

/// Whether a click may use the rectangle that was measured last, if there is one.
pub open spec fn canvas_is_fresh(measured_at: Option<u64>, now: u64, cached: bool) -> bool {
    cached && measured_at is Some && now < later(measured_at->0, CANVAS_RECT_TTL_MS as int)
}

/// A rectangle serves from its measurement on for thirty seconds and not longer,
/// and never where there is none or it is not known when it was measured.
pub proof fn a_canvas_serves_for_thirty_seconds(at: u64, now: u64)
    ensures
        canvas_is_fresh(Some(at), now, true) <==> now - at < 30_000_000_000,
        !canvas_is_fresh(None, now, true),
        !canvas_is_fresh(Some(at), now, false),
{
}

/// The memory once the canvas was measured.
pub open spec fn with_canvas(mem: Memory, now: u64) -> Memory {
    Memory { canvas_rect_at: Some(now), ..mem }
}

/// The memory once the page was reloaded.
pub open spec fn without_canvas(mem: Memory) -> Memory {
    Memory { canvas_rect_at: None, ..mem }
}

/// A measurement and a reload concern the canvas alone. A new measurement replaces
/// an earlier one, and a reload undoes it.
pub proof fn a_reload_undoes_a_measurement(mem: Memory, now: u64, then: u64)
    ensures
        with_canvas(mem, now).canvas_rect_at == Some(now),
        without_canvas(mem).canvas_rect_at is None,
        with_canvas(with_canvas(mem, then), now) == with_canvas(mem, now),
        without_canvas(with_canvas(mem, now)) == without_canvas(mem),
        with_canvas(without_canvas(mem), now) == with_canvas(mem, now),
        mem.canvas_rect_at == Some(now) ==> with_canvas(mem, now) == mem,
        mem.canvas_rect_at is None ==> without_canvas(mem) == mem,
{
}

/// What the manager remembers is what its fields hold, each for itself.
pub proof fn the_memory_is_what_is_held(m: ManagerState)
    ensures
        m.last_kawa_tile matches Some(t) ==> m@.last_kawa_tile == Some(t@),
        m.last_kawa_tile is None ==> m@.last_kawa_tile is None,
        m.last_self_tsumo matches Some(t) ==> m@.last_self_tsumo == Some(t@),
        m.last_self_tsumo is None ==> m@.last_self_tsumo is None,
        m@.self_riichi_accepted <==> m.self_riichi_accepted,
        m@.canvas_rect_at == m.canvas_rect_at,
        m@.dead_clicks == m.dead_clicks,
        m@.cached_our_seat == m.cached_our_seat,
        m@.acted_window == m.acted_window,
{
}

/// What is remembered after the outcome of a decision, and whether to reload.
pub open spec fn outcome(before: Memory, registered: bool, reload_after: u32) -> (Memory, bool) {
    let (dead, reload) = tally(before.dead_clicks as int, registered, reload_after);
    (Memory { dead_clicks: dead as u32, ..before }, reload)
}

/// The outcome of a decision tells on the count of lost presses and on nothing
/// else. Presses that are lost one after the other add up until the page is
/// reloaded.
pub proof fn an_outcome_only_counts(before: Memory, registered: bool, reload_after: u32)
    requires
        before.dead_clicks < u32::MAX,
    ensures
        ({
            let (after, reload) = outcome(before, registered, reload_after);
            &&& reload <==> !registered && 0 < reload_after <= before.dead_clicks + 1
            &&& registered || reload ==> after.dead_clicks == 0
            &&& !registered && !reload ==> after.dead_clicks == before.dead_clicks + 1
            &&& after.last_kawa_tile == before.last_kawa_tile
            &&& after.last_self_tsumo == before.last_self_tsumo
            &&& after.self_riichi_accepted == before.self_riichi_accepted
            &&& after.canvas_rect_at == before.canvas_rect_at
            &&& after.cached_our_seat == before.cached_our_seat
            &&& after.acted_window == before.acted_window
        }),
{
}

} // verus!
