use akagi::autoplay::poll::{input_look, Look, Poll, PollStep};
use akagi::autoplay::retry::{
    retry_hold_ms, retry_slice, RetryAction, RetryEvent, RetryFlow,
};
use akagi::autoplay::window::{
    discard_needs_window_guard, future_window_grace, tenhou_window_moved, window_still_open,
};
use akagi::events::MjaiEvent;

/// A plan of one click has nothing to escalate.
#[test]
fn a_single_click_plan_always_retries_that_click() {
    let clicks = [(1.0, 2.0)];
    assert_eq!(retry_slice(&clicks, 0), &clicks[..]);
    assert_eq!(retry_slice(&clicks, 1), &clicks[..]);
}

/// A plan of several clicks presses the committing one again first, and then
/// all of them.
#[test]
fn a_multi_click_plan_retries_the_committing_click_first() {
    let clicks = [(1.0, 2.0), (3.0, 4.0)];
    assert_eq!(
        retry_slice(&clicks, 0),
        &[(3.0, 4.0)],
        "first retry presses only the candidate/tile click"
    );
    assert_eq!(
        retry_slice(&clicks, 1),
        &clicks[..],
        "second retry assumes the opening click was lost too"
    );
}

#[test]
fn no_clicks_is_not_a_panic() {
    let clicks: [(f64, f64); 0] = [];
    assert!(retry_slice(&clicks, 0).is_empty());
    assert!(retry_slice(&clicks, 3).is_empty());
}

/// The first retry is the second press and already holds longer.
#[test]
fn retry_press_escalates_the_hold_from_the_first_retry() {
    assert_eq!(retry_hold_ms(120, 0), 240, "second press holds twice");
    assert_eq!(retry_hold_ms(120, 1), 360);
    assert_eq!(retry_hold_ms(1_500, 1), 2_000, "capped at 2s");
    assert_eq!(retry_hold_ms(u32::MAX, 5), 2_000, "no overflow");
}

#[test]
fn holds_have_a_limit_for_any_attempt() {
    assert_eq!(retry_hold_ms(u32::MAX, u32::MAX), 2_000);
    assert_eq!(retry_hold_ms(0, u32::MAX), 0);
    let (mut flow, _) = RetryFlow::start(1, u32::MAX, 100, None);
    assert!(matches!(flow.verify_and_retry(MISSED), RetryAction::Press { hold_ms: 200, .. }));
}

/// A discard is dropped once its window is gone, except the one that a riichi
/// still owes.
#[test]
fn a_discard_is_guarded_by_its_window_except_for_riichi() {
    let dahai = MjaiEvent::Dahai { actor: 0, pai: "1m".into(), tsumogiri: false };
    assert!(discard_needs_window_guard(&dahai));
    let reach = MjaiEvent::Reach { actor: 0, pai: Some("2m".into()) };
    assert!(!discard_needs_window_guard(&reach));
}

/// Our own turn waits out the deal animation; a claim does not.
#[test]
fn future_window_grace_is_tight_for_claims() {
    let own = MjaiEvent::Dahai { actor: 0, pai: "1m".into(), tsumogiri: false };
    assert_eq!(future_window_grace(&own), 15_000);
    let claim = MjaiEvent::Chi {
        actor: 0,
        target: 1,
        pai: "3p".into(),
        consumed: ["2p".into(), "4p".into()],
    };
    assert_eq!(future_window_grace(&claim), 3_000);
    assert_eq!(future_window_grace(&MjaiEvent::NoAction), 3_000);
    assert_eq!(future_window_grace(&MjaiEvent::Ryukyoku { deltas: None }), 15_000);
}

#[test]
fn a_draw_with_payments_is_no_turn_of_ours() {
    assert_eq!(future_window_grace(&MjaiEvent::Ryukyoku { deltas: Some(vec![0; 4]) }), 3_000);
    assert_eq!(future_window_grace(&MjaiEvent::Reach { actor: 1, pai: None }), 15_000);
}

/// The instant a window opened is its identity.
#[test]
fn tenhou_window_moved_tracks_the_slot() {
    let w1 = 1_000;
    let w2 = 2_000;
    assert!(!tenhou_window_moved(Some(w1), Some(w1)), "same instant, still live");
    assert!(!tenhou_window_moved(None, Some(w1)), "nothing planned, nothing stale");
    assert!(tenhou_window_moved(Some(w1), None), "window resolved, stale");
    assert!(tenhou_window_moved(Some(w1), Some(w2)), "window replaced, stale");
}

#[test]
fn an_untracked_window_counts_as_open() {
    assert!(window_still_open(None, None));
    assert!(window_still_open(None, Some(4)));
    assert!(window_still_open(Some(4), Some(4)));
    assert!(!window_still_open(Some(4), Some(5)));
    assert!(!window_still_open(Some(4), None));
}

const MISSED: RetryEvent = RetryEvent::Waited { seen: false, window: Some(9) };

#[test]
fn every_retry_presses_differently() {
    let (mut flow, first) = RetryFlow::start(2, 2, 100, Some(9));
    assert_eq!(first, RetryAction::Wait);
    assert_eq!(
        flow.verify_and_retry(MISSED),
        RetryAction::Press { from: 1, hold_ms: 200, jiggle: false }
    );
    assert_eq!(flow.verify_and_retry(RetryEvent::Pressed { page: true }), RetryAction::Wait);
    assert_eq!(
        flow.verify_and_retry(MISSED),
        RetryAction::Press { from: 0, hold_ms: 300, jiggle: true }
    );
    assert_eq!(flow.verify_and_retry(RetryEvent::Pressed { page: true }), RetryAction::Wait);
    assert_eq!(flow.verify_and_retry(MISSED), RetryAction::Done(false));
    assert_eq!(flow.verify_and_retry(MISSED), RetryAction::Done(false));
}

#[test]
fn an_input_ends_the_retries() {
    let (mut flow, _) = RetryFlow::start(1, 3, 100, None);
    assert_eq!(
        flow.verify_and_retry(RetryEvent::Waited { seen: true, window: None }),
        RetryAction::Done(true)
    );
}

#[test]
fn a_window_that_moved_on_is_not_pressed_into() {
    let (mut flow, _) = RetryFlow::start(1, 3, 100, Some(9));
    assert_eq!(
        flow.verify_and_retry(RetryEvent::Waited { seen: false, window: Some(10) }),
        RetryAction::Done(true)
    );
}

#[test]
fn the_last_miss_is_a_failure_even_if_the_window_moved() {
    let (mut flow, _) = RetryFlow::start(1, 0, 100, Some(9));
    assert_eq!(
        flow.verify_and_retry(RetryEvent::Waited { seen: false, window: None }),
        RetryAction::Done(false)
    );
}

#[test]
fn a_lost_page_abandons_the_retries() {
    let (mut flow, _) = RetryFlow::start(1, 3, 100, Some(9));
    assert!(matches!(flow.verify_and_retry(MISSED), RetryAction::Press { .. }));
    assert_eq!(
        flow.verify_and_retry(RetryEvent::Pressed { page: false }),
        RetryAction::Done(false)
    );
}

#[test]
fn a_plan_without_clicks_needs_no_proof() {
    let (_, first) = RetryFlow::start(0, 3, 100, Some(9));
    assert_eq!(first, RetryAction::Done(true));
}

#[test]
fn waits_end_at_their_deadline() {
    let ms = 1_000_000;
    let ready = Poll::await_turn_ready(0, 500);
    assert_eq!(ready.step(Look::Miss, 499 * ms), PollStep::Sleep(120));
    assert_eq!(ready.step(Look::Miss, 500 * ms), PollStep::Done(false));
    assert_eq!(ready.step(Look::Hit, 900 * ms), PollStep::Done(true));
    assert_eq!(ready.step(Look::Fault, 0), PollStep::Done(false));

    let offered = Poll::press_when_offered(7);
    assert_eq!(offered.step(Look::Miss, 2_400 * ms + 6), PollStep::Sleep(120));
    assert_eq!(offered.step(Look::Miss, 2_400 * ms + 7), PollStep::Done(false));

    let input = Poll::wait_for_input(0, 300);
    assert_eq!(input.step(Look::Miss, 0), PollStep::Sleep(20));
    assert_eq!(input.step(Look::Miss, 300 * ms), PollStep::Done(false));
}

#[test]
fn a_plain_discard_proves_only_a_discard() {
    assert_eq!(input_look(true, false, true), Look::Miss);
    assert_eq!(input_look(true, true, true), Look::Hit);
    assert_eq!(input_look(false, false, true), Look::Hit);
    assert_eq!(input_look(false, false, false), Look::Miss);
}
