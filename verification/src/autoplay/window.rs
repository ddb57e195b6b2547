//! Decision windows: is the decision that was planned for still the live one?
//!
//! The instant at which a window opened is its identity. A slot that holds
//! another instant, or none, means that what was planned for is over.

use vstd::prelude::*;

use crate::events::MjaiEvent;

verus! {

/// How long an action of our own turn may wait for its window, in milliseconds.
pub const OWN_TURN_GRACE_MS: u32 = 15_000;

/// How long any other action may wait for its window, in milliseconds.
pub const CLAIM_GRACE_MS: u32 = 3_000;

/// Whether a window was planned for and `current` no longer is that window.
pub open spec fn window_moved(planned: Option<u64>, current: Option<u64>) -> bool {
    planned is Some && current != planned
}

/// Has the decision window been replaced since the plan was made? With no
/// window planned for there is none that could go stale.
pub fn tenhou_window_moved(planned: Option<u64>, current: Option<u64>) -> (moved: bool)
    ensures
        moved == window_moved(planned, current),
{
    match planned {
        None => false,
        Some(p) => match current {
            Some(c) => c != p,
            None => true,
        },
    }
}

/// Whether the window that a plan was made against is still the live one. With
/// no window tracked the answer is yes.
pub fn window_still_open(planned: Option<u64>, current: Option<u64>) -> (open: bool)
    ensures
        open == !window_moved(planned, current),
{
    !tenhou_window_moved(planned, current)
}

/// Does discarding for this action need the window it was planned against to
/// be still open?
///
/// Everything but a riichi does. The declaration press of a riichi replaces the
/// window itself, and the tile is owed all the same.
pub fn discard_needs_window_guard(action: &MjaiEvent) -> (res: bool)
    ensures
        res == !(*action is Reach),
        res == is_guarded(*action),
{
    match action {
        MjaiEvent::Reach { .. } => false,
        _ => true,
    }
}

/// Whether an action belongs to our own turn: a discard, a riichi, or the
/// abortive draw that a hand of nine terminals calls.
pub open spec fn own_turn(action: MjaiEvent) -> bool {
    action is Dahai || action is Reach || (action is Ryukyoku && action->Ryukyoku_deltas is None)
}

/// How long an action that was planned with no window open may wait for its
/// window, in milliseconds. Our own turn trails the deal animation by seconds;
/// a claim is offered within milliseconds of the discard, so a tight bound
/// keeps a late claim out of the next window.
pub fn future_window_grace(action: &MjaiEvent) -> (ms: u32)
    ensures
        ms == if own_turn(*action) { OWN_TURN_GRACE_MS } else { CLAIM_GRACE_MS },
        ms == grace_ms(*action),
{
    match action {
        MjaiEvent::Dahai { .. } | MjaiEvent::Reach { .. } => OWN_TURN_GRACE_MS,
        MjaiEvent::Ryukyoku { deltas } => match deltas {
            None => OWN_TURN_GRACE_MS,
            Some(_) => CLAIM_GRACE_MS,
        },
        _ => CLAIM_GRACE_MS,
    }
}

/// A planned window has moved exactly if another one is live or none is. Where
/// none was planned, none has moved.
pub proof fn a_window_is_known_by_its_instant(planned: u64, current: Option<u64>)
    ensures
        !window_moved(None, current),
        !window_moved(Some(planned), Some(planned)),
        window_moved(Some(planned), None),
        current matches Some(c) ==> (window_moved(Some(planned), current) <==> c != planned),
{
}

/// Whether a discard for an action is dropped once its window is gone.
pub open spec fn is_guarded(action: MjaiEvent) -> bool {
    !(action is Reach)
}

/// A tile is owed to a riichi whatever becomes of the window, and to no other
/// action.
pub proof fn only_a_riichi_owes_its_tile(action: MjaiEvent)
    ensures
        action is Reach ==> !is_guarded(action),
        !is_guarded(action) ==> action is Reach,
{
}

/// How long an action may wait for its window, in milliseconds.
pub open spec fn grace_ms(action: MjaiEvent) -> u32 {
    if own_turn(action) {
        OWN_TURN_GRACE_MS
    } else {
        CLAIM_GRACE_MS
    }
}

/// A discard, a riichi and the abortive draw of our own turn wait for fifteen
/// seconds. Everything else, a claim above all, waits for three.
pub proof fn claims_do_not_wait_long(action: MjaiEvent)
    ensures
        action is Dahai ==> grace_ms(action) == 15_000,
        action is Reach ==> grace_ms(action) == 15_000,
        action is Ryukyoku ==> grace_ms(action) == if action->deltas is None {
            15_000int
        } else {
            3_000
        },
        !(action is Dahai || action is Reach || action is Ryukyoku) ==> grace_ms(action) == 3_000,
{
}

} // verus!
