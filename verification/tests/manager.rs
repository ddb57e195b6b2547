use akagi::autoplay::manager::{CanvasSource, ManagerState, CANVAS_RECT_TTL_MS};
use akagi::events::{GameEndReason, MjaiEvent};

fn start_game(id: Option<u8>) -> MjaiEvent {
    MjaiEvent::StartGame {
        names: vec!["a".into(), "b".into(), "c".into(), "d".into()],
        kyoku_first: None,
        aka_flag: None,
        id,
        num_players: 4,
    }
}

fn start_kyoku() -> MjaiEvent {
    MjaiEvent::StartKyoku {
        bakaze: "E".into(),
        dora_marker: "1m".into(),
        kyoku: 1,
        honba: 0,
        kyotaku: 0,
        oya: 0,
        scores: vec![25_000; 4],
        tehais: vec![vec!["1m".into(); 13]; 4],
        num_players: 4,
    }
}

fn tsumo(actor: u8, pai: &str) -> MjaiEvent {
    MjaiEvent::Tsumo { actor, pai: pai.into() }
}

fn dahai(actor: u8, pai: &str) -> MjaiEvent {
    MjaiEvent::Dahai { actor, pai: pai.into(), tsumogiri: false }
}

/// The seat is known from the opening event on, before any bot response, so the
/// very first draw is recorded.
#[test]
fn start_game_sets_cached_seat_immediately() {
    let mut m = ManagerState::default();
    assert!(m.cached_our_seat.is_none());

    m.handle_mjai_event(&start_game(Some(1)), None);
    assert_eq!(m.cached_our_seat, Some(1), "seat must be cached from StartGame");

    m.handle_mjai_event(&tsumo(1, "3m"), None);
    assert_eq!(
        m.last_self_tsumo.as_deref(),
        Some("3m"),
        "last_self_tsumo must be recorded even before first bot response"
    );
}

/// The seat lasts from one hand to the next.
#[test]
fn cached_seat_survives_kyoku_reset() {
    let mut m = ManagerState::default();
    m.handle_mjai_event(&start_game(Some(2)), None);
    assert_eq!(m.cached_our_seat, Some(2));

    m.handle_mjai_event(&start_kyoku(), None);
    assert_eq!(m.cached_our_seat, Some(2), "seat must survive StartKyoku reset");

    m.handle_mjai_event(&MjaiEvent::EndKyoku, None);
    assert_eq!(m.cached_our_seat, Some(2), "seat must survive EndKyoku reset");
}

/// A client that takes no presses stays that way from hand to hand; a new game
/// is a new page.
#[test]
fn dead_click_count_survives_a_kyoku_but_not_a_game() {
    let mut m = ManagerState::default();
    m.dead_clicks = 2;
    m.handle_mjai_event(&MjaiEvent::EndKyoku, None);
    assert_eq!(m.dead_clicks, 2, "the client is still not listening");

    m.handle_mjai_event(&start_game(Some(0)), None);
    assert_eq!(m.dead_clicks, 0, "a new table is a fresh start");
}

/// A game that is only watched does not keep the seat of the game before it.
#[test]
fn start_game_without_id_clears_cached_seat() {
    let mut m = ManagerState::default();
    m.handle_mjai_event(&start_game(Some(0)), None);
    assert_eq!(m.cached_our_seat, Some(0));

    m.handle_mjai_event(&start_game(None), None);
    assert!(m.cached_our_seat.is_none(), "stale seat must be cleared");
}

#[test]
fn a_new_manager_remembers_nothing() {
    let m = ManagerState::default();
    assert!(m.last_kawa_tile.is_none());
    assert!(m.last_self_tsumo.is_none());
    assert!(!m.self_riichi_accepted);
    assert!(m.canvas_rect_at.is_none());
    assert_eq!(m.dead_clicks, 0);
    assert!(m.cached_our_seat.is_none());
    assert!(m.acted_window.is_none());
}

#[test]
fn the_tracker_is_asked_only_without_a_cached_seat() {
    let mut m = ManagerState::default();
    assert_eq!(m.our_seat_cached(None), None);
    assert_eq!(m.our_seat_cached(Some(3)), Some(3));
    m.cached_our_seat = Some(1);
    assert_eq!(m.our_seat_cached(Some(3)), Some(1));

    let mut watcher = ManagerState::default();
    watcher.handle_mjai_event(&tsumo(3, "7z"), Some(3));
    assert_eq!(watcher.last_self_tsumo.as_deref(), Some("7z"));
    let mut blind = ManagerState::default();
    blind.handle_mjai_event(&tsumo(3, "7z"), None);
    assert!(blind.last_self_tsumo.is_none());
}

#[test]
fn a_hand_forgets_its_tiles_but_not_its_canvas() {
    let mut m = ManagerState::default();
    m.handle_mjai_event(&start_game(Some(0)), None);
    m.canvas_measured(77);
    m.acted_window = Some(5);
    m.handle_mjai_event(&dahai(3, "9p"), None);
    m.handle_mjai_event(&tsumo(0, "1s"), None);
    m.handle_mjai_event(&MjaiEvent::ReachAccepted { actor: 0 }, None);
    assert_eq!(m.last_kawa_tile.as_deref(), Some("9p"));
    assert!(m.self_riichi_accepted);

    m.handle_mjai_event(&start_kyoku(), None);
    assert!(m.last_kawa_tile.is_none());
    assert!(m.last_self_tsumo.is_none());
    assert!(!m.self_riichi_accepted);
    assert!(m.acted_window.is_none());
    assert_eq!(m.canvas_rect_at, Some(77));

    m.handle_mjai_event(&MjaiEvent::EndGame { reason: GameEndReason::Other }, None);
    assert!(m.canvas_rect_at.is_none());
    assert!(m.cached_our_seat.is_none());
}

#[test]
fn our_moves_put_the_drawn_tile_away() {
    let calls = [
        MjaiEvent::Chi { actor: 0, target: 3, pai: "3p".into(), consumed: ["2p".into(), "4p".into()] },
        MjaiEvent::Pon { actor: 0, target: 1, pai: "5m".into(), consumed: ["5m".into(), "5m".into()] },
        MjaiEvent::Daiminkan {
            actor: 0,
            target: 1,
            pai: "5m".into(),
            consumed: ["5m".into(), "5m".into(), "5m".into()],
        },
        MjaiEvent::Ankan {
            actor: 0,
            consumed: ["5m".into(), "5m".into(), "5m".into(), "5m".into()],
        },
        MjaiEvent::Kakan {
            actor: 0,
            pai: "5m".into(),
            consumed: ["5m".into(), "5m".into(), "5m".into()],
        },
        dahai(0, "5m"),
    ];
    for call in &calls {
        let mut m = ManagerState::default();
        m.handle_mjai_event(&start_game(Some(0)), None);
        m.handle_mjai_event(&tsumo(0, "1m"), None);
        m.handle_mjai_event(call, None);
        assert!(m.last_self_tsumo.is_none(), "{call:?}");

        let mut other = ManagerState::default();
        other.handle_mjai_event(&start_game(Some(2)), None);
        other.handle_mjai_event(&tsumo(2, "1m"), None);
        other.handle_mjai_event(call, None);
        assert_eq!(other.last_self_tsumo.as_deref(), Some("1m"), "{call:?}");
    }
}

#[test]
fn others_do_not_touch_our_memory() {
    let mut m = ManagerState::default();
    m.handle_mjai_event(&start_game(Some(0)), None);
    m.handle_mjai_event(&tsumo(2, "4s"), None);
    m.handle_mjai_event(&MjaiEvent::ReachAccepted { actor: 2 }, None);
    m.handle_mjai_event(&MjaiEvent::Kita { actor: 2 }, None);
    assert!(m.last_self_tsumo.is_none());
    assert!(!m.self_riichi_accepted);
    assert!(m.last_kawa_tile.is_none());
    m.handle_mjai_event(&dahai(2, "6z"), None);
    assert_eq!(m.last_kawa_tile.as_deref(), Some("6z"));
}

#[test]
fn a_canvas_is_trusted_for_thirty_seconds() {
    let ttl = u64::from(CANVAS_RECT_TTL_MS) * 1_000_000;
    assert_eq!(ttl, 30_000_000_000);
    let mut m = ManagerState::default();
    assert_eq!(m.canvas_rect_resolve(0, true), CanvasSource::Query);
    m.canvas_measured(1_000);
    assert_eq!(m.canvas_rect_resolve(1_000 + ttl - 1, true), CanvasSource::Cached);
    assert_eq!(m.canvas_rect_resolve(1_000 + ttl, true), CanvasSource::Query);
    assert_eq!(m.canvas_rect_resolve(1_000, false), CanvasSource::Query);
    m.page_reloaded();
    assert_eq!(m.canvas_rect_resolve(1_000, true), CanvasSource::Query);
}

#[test]
fn the_third_failure_in_a_row_reloads() {
    let mut m = ManagerState::default();
    assert!(!m.record_outcome(false, 3));
    assert!(!m.record_outcome(false, 3));
    assert_eq!(m.dead_clicks, 2);
    assert!(m.record_outcome(false, 3));
    assert_eq!(m.dead_clicks, 0);
    assert!(!m.record_outcome(false, 3));
    assert!(!m.record_outcome(true, 3));
    assert_eq!(m.dead_clicks, 0);
}

#[test]
fn without_a_threshold_nothing_reloads() {
    let mut m = ManagerState::default();
    for n in 1..=50 {
        assert!(!m.record_outcome(false, 0));
        assert_eq!(m.dead_clicks, n);
    }
}

#[test]
fn an_accepted_press_resets_any_count() {
    let mut m = ManagerState::default();
    m.dead_clicks = u32::MAX;
    assert!(!m.record_outcome(true, 3));
    assert_eq!(m.dead_clicks, 0);
}
