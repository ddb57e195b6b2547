use akagi::autoplay::manager::ManagerState;
use akagi::autoplay::plan::{frame_of_plan, needs_canvas, plan_clicks, planner_for, Planner, Step};
use akagi::autoplay::response::{
    ClickConfig, ResponseAction, ResponseEvent, ResponseFlow,
};
use akagi::autoplay::riichi_frame::{
    think_time, FrameAction, FrameFlow, FramePlan, Moment,
};
use akagi::events::{MjaiEvent, Platform};

type Point = (f64, f64);

const CLICK: ClickConfig =
    ClickConfig { verify_input_ms: 400, click_retries: 2, reload_after_failures: 2 };

fn discard() -> MjaiEvent {
    MjaiEvent::Dahai { actor: 0, pai: "1m".into(), tsumogiri: false }
}

fn reach() -> MjaiEvent {
    MjaiEvent::Reach { actor: 0, pai: Some("1m".into()) }
}

fn config(platform: Platform, window: Option<u64>, budget: Option<u64>) -> ResponseEvent<Point> {
    ResponseEvent::Config { enabled: true, platform, click: CLICK, window, budget }
}

fn engine() -> ResponseEvent<Point> {
    ResponseEvent::Engine { seat: Some(0), num_players: Some(4) }
}

/// A decision up to the point where its plan is asked for.
fn planned(
    action: &MjaiEvent,
    m: &mut ManagerState,
    platform: Platform,
    window: Option<u64>,
    budget: Option<u64>,
) -> ResponseFlow<Point> {
    let mut flow = ResponseFlow::new(action);
    assert_eq!(
        flow.handle_bot_response(m, config(platform, window, budget)),
        ResponseAction::AskEngine
    );
    assert!(matches!(flow.handle_bot_response(m, engine()), ResponseAction::Plan { .. }));
    flow
}

#[test]
fn a_discard_is_clicked_and_verified() {
    let mut m = ManagerState::default();
    let mut flow = planned(&discard(), &mut m, Platform::Majsoul, None, Some(5));
    assert_eq!(m.cached_our_seat, Some(0));
    let steps = vec![Step::Sleep { duration_ms: 10 }, Step::Click((1.0, 2.0))];
    assert_eq!(
        flow.handle_bot_response(&mut m, ResponseEvent::Planned { steps }),
        ResponseAction::MeasureCanvas
    );
    assert_eq!(
        flow.handle_bot_response(&mut m, ResponseEvent::Canvas { found: true }),
        ResponseAction::StartPressing
    );
    let slots = || ResponseEvent::Slots { window: None, budget: Some(5) };
    assert_eq!(
        flow.handle_bot_response(&mut m, slots()),
        ResponseAction::Perform { step: 0, sturdy: false }
    );
    assert_eq!(
        flow.handle_bot_response(&mut m, ResponseEvent::Performed { go_on: true }),
        ResponseAction::ReadSlots
    );
    assert_eq!(
        flow.handle_bot_response(&mut m, slots()),
        ResponseAction::Perform { step: 1, sturdy: false }
    );
    flow.handle_bot_response(&mut m, ResponseEvent::Performed { go_on: true });
    assert_eq!(
        flow.handle_bot_response(&mut m, slots()),
        ResponseAction::Verify { require_non_discard: false }
    );
    assert_eq!(
        flow.handle_bot_response(&mut m, ResponseEvent::Verified { registered: true }),
        ResponseAction::Settle { reload: false }
    );
    assert_eq!(
        flow.handle_bot_response(&mut m, ResponseEvent::Inputs { sent: true, reach: false }),
        ResponseAction::Close { riichi_lost: false, move_mouse: true }
    );
}

#[test]
fn autoplay_that_is_off_does_nothing() {
    let mut m = ManagerState::default();
    let mut flow: ResponseFlow<Point> = ResponseFlow::new(&discard());
    let off = ResponseEvent::Config {
        enabled: false,
        platform: Platform::Majsoul,
        click: CLICK,
        window: None,
        budget: None,
    };
    assert_eq!(flow.handle_bot_response(&mut m, off), ResponseAction::Stop);
    assert_eq!(flow.handle_bot_response(&mut m, engine()), ResponseAction::Stop);
    assert!(m.cached_our_seat.is_none());
}

#[test]
fn a_decision_needs_a_seat_and_a_table() {
    for (seat, num_players, cached) in [(None, Some(4), None), (Some(2), None, Some(2))] {
        let mut m = ManagerState::default();
        let mut flow: ResponseFlow<Point> = ResponseFlow::new(&discard());
        flow.handle_bot_response(&mut m, config(Platform::Majsoul, None, None));
        assert_eq!(
            flow.handle_bot_response(&mut m, ResponseEvent::Engine { seat, num_players }),
            ResponseAction::Stop
        );
        assert_eq!(m.cached_our_seat, cached);
    }
}

#[test]
fn three_players_use_their_own_engine() {
    let mut m = ManagerState::default();
    let mut flow: ResponseFlow<Point> = ResponseFlow::new(&discard());
    flow.handle_bot_response(&mut m, config(Platform::Tenhou, None, None));
    assert_eq!(
        flow.handle_bot_response(
            &mut m,
            ResponseEvent::Engine { seat: Some(0), num_players: Some(3) }
        ),
        ResponseAction::Plan { planner: Planner::Tenhou, sanma: true }
    );
}

#[test]
fn a_second_answer_to_a_window_is_dropped() {
    let mut m = ManagerState::default();
    let mut first = planned(&discard(), &mut m, Platform::Tenhou, Some(8), None);
    let steps = vec![Step::Discard { tile_index: 3 }];
    assert_eq!(
        first.handle_bot_response(&mut m, ResponseEvent::Planned { steps }),
        ResponseAction::StartPressing
    );
    assert_eq!(m.acted_window, Some(8));

    let mut second: ResponseFlow<Point> = ResponseFlow::new(&discard());
    second.handle_bot_response(&mut m, config(Platform::Tenhou, Some(8), None));
    assert_eq!(second.handle_bot_response(&mut m, engine()), ResponseAction::Stop);

    let mut third: ResponseFlow<Point> = ResponseFlow::new(&discard());
    third.handle_bot_response(&mut m, config(Platform::Tenhou, Some(9), None));
    assert!(matches!(third.handle_bot_response(&mut m, engine()), ResponseAction::Plan { .. }));
}

#[test]
fn an_empty_plan_and_a_lost_canvas_end_it() {
    let mut m = ManagerState::default();
    let mut flow = planned(&discard(), &mut m, Platform::Majsoul, None, None);
    assert_eq!(
        flow.handle_bot_response(&mut m, ResponseEvent::Planned { steps: vec![] }),
        ResponseAction::Stop
    );

    let mut flow = planned(&discard(), &mut m, Platform::Majsoul, None, None);
    let steps = vec![Step::Click((1.0, 1.0))];
    flow.handle_bot_response(&mut m, ResponseEvent::Planned { steps });
    assert_eq!(
        flow.handle_bot_response(&mut m, ResponseEvent::Canvas { found: false }),
        ResponseAction::Stop
    );
}

/// Runs a Tenhou plan of one step against a window that was replaced.
fn after_the_window_moved(action: &MjaiEvent, step: Step<Point>) -> ResponseAction {
    let mut m = ManagerState::default();
    let mut flow = planned(action, &mut m, Platform::Tenhou, Some(8), None);
    flow.handle_bot_response(&mut m, ResponseEvent::Planned { steps: vec![step] });
    flow.handle_bot_response(&mut m, ResponseEvent::Slots { window: Some(9), budget: None })
}

#[test]
fn stale_presses_are_dropped_but_not_the_riichi_tile() {
    let button = || Step::DomClick { selectors: vec!["#a".into()], label: "pon".into() };
    assert_eq!(after_the_window_moved(&discard(), button()), ResponseAction::Stop);
    assert_eq!(after_the_window_moved(&reach(), button()), ResponseAction::Stop);
    let tile = || Step::Discard { tile_index: 1 };
    assert_eq!(after_the_window_moved(&discard(), tile()), ResponseAction::Stop);
    assert_eq!(
        after_the_window_moved(&reach(), tile()),
        ResponseAction::Perform { step: 0, sturdy: true }
    );
    assert_eq!(
        after_the_window_moved(&discard(), Step::AwaitReady { timeout_ms: 5 }),
        ResponseAction::Perform { step: 0, sturdy: false }
    );
}

#[test]
fn only_the_first_click_is_checked_against_the_budget() {
    let mut m = ManagerState::default();
    let mut flow = planned(&reach(), &mut m, Platform::Majsoul, None, Some(5));
    let steps = vec![Step::Click((1.0, 1.0)), Step::Click((2.0, 2.0))];
    flow.handle_bot_response(&mut m, ResponseEvent::Planned { steps });
    flow.handle_bot_response(&mut m, ResponseEvent::Canvas { found: true });
    assert_eq!(
        flow.handle_bot_response(&mut m, ResponseEvent::Slots { window: None, budget: Some(5) }),
        ResponseAction::Perform { step: 0, sturdy: true }
    );
    flow.handle_bot_response(&mut m, ResponseEvent::Performed { go_on: true });
    assert_eq!(
        flow.handle_bot_response(&mut m, ResponseEvent::Slots { window: None, budget: Some(6) }),
        ResponseAction::Perform { step: 1, sturdy: true }
    );

    let mut stale = planned(&discard(), &mut m, Platform::Majsoul, None, Some(5));
    let steps = vec![Step::Click((1.0, 1.0))];
    stale.handle_bot_response(&mut m, ResponseEvent::Planned { steps });
    stale.handle_bot_response(&mut m, ResponseEvent::Canvas { found: true });
    assert_eq!(
        stale.handle_bot_response(&mut m, ResponseEvent::Slots { window: None, budget: None }),
        ResponseAction::Stop
    );
}

#[test]
fn a_lost_riichi_is_reported_and_dead_clients_are_reloaded() {
    let mut m = ManagerState::default();
    m.dead_clicks = 1;
    let mut flow = planned(&reach(), &mut m, Platform::Majsoul, None, None);
    let steps = vec![Step::Click((1.0, 1.0))];
    flow.handle_bot_response(&mut m, ResponseEvent::Planned { steps });
    flow.handle_bot_response(&mut m, ResponseEvent::Canvas { found: true });
    flow.handle_bot_response(&mut m, ResponseEvent::Slots { window: None, budget: None });
    flow.handle_bot_response(&mut m, ResponseEvent::Performed { go_on: true });
    assert_eq!(
        flow.handle_bot_response(&mut m, ResponseEvent::Slots { window: None, budget: None }),
        ResponseAction::Verify { require_non_discard: true }
    );
    assert_eq!(
        flow.handle_bot_response(&mut m, ResponseEvent::Verified { registered: false }),
        ResponseAction::Settle { reload: true }
    );
    assert_eq!(m.dead_clicks, 0);
    assert_eq!(
        flow.handle_bot_response(&mut m, ResponseEvent::Inputs { sent: true, reach: false }),
        ResponseAction::Close { riichi_lost: true, move_mouse: true }
    );
}

#[test]
fn a_failed_step_ends_the_decision() {
    let mut m = ManagerState::default();
    let mut flow = planned(&discard(), &mut m, Platform::Tenhou, None, None);
    let steps = vec![Step::Discard { tile_index: 1 }];
    flow.handle_bot_response(&mut m, ResponseEvent::Planned { steps });
    flow.handle_bot_response(&mut m, ResponseEvent::Slots { window: None, budget: None });
    assert_eq!(
        flow.handle_bot_response(&mut m, ResponseEvent::Performed { go_on: false }),
        ResponseAction::Stop
    );
}

#[test]
fn a_frame_runs_beside_the_plan_loop() {
    let mut m = ManagerState::default();
    let mut flow = planned(&discard(), &mut m, Platform::RiichiCity, None, None);
    let steps = vec![Step::Sleep { duration_ms: 700 }, Step::SendFrame(vec![1, 2, 3])];
    assert_eq!(
        flow.handle_bot_response(&mut m, ResponseEvent::Planned { steps }),
        ResponseAction::SpawnFrame { sleep_ms: 700, frame: 1 }
    );

    let mut lost = planned(&discard(), &mut m, Platform::RiichiCity, None, None);
    let steps = vec![Step::Sleep { duration_ms: 700 }];
    assert_eq!(
        lost.handle_bot_response(&mut m, ResponseEvent::Planned { steps }),
        ResponseAction::Stop
    );

    let mut wrong = planned(&discard(), &mut m, Platform::Tenhou, None, None);
    let steps = vec![Step::SendFrame(vec![1])];
    wrong.handle_bot_response(&mut m, ResponseEvent::Planned { steps });
    assert_eq!(
        wrong.handle_bot_response(&mut m, ResponseEvent::Slots { window: None, budget: None }),
        ResponseAction::Misrouted
    );
}

#[test]
fn unverified_presses_close_at_once() {
    let mut m = ManagerState::default();
    let mut flow: ResponseFlow<Point> = ResponseFlow::new(&discard());
    let quiet = ClickConfig { verify_input_ms: 0, ..CLICK };
    flow.handle_bot_response(
        &mut m,
        ResponseEvent::Config {
            enabled: true,
            platform: Platform::Majsoul,
            click: quiet,
            window: None,
            budget: None,
        },
    );
    flow.handle_bot_response(&mut m, engine());
    let steps = vec![Step::Click((1.0, 1.0))];
    flow.handle_bot_response(&mut m, ResponseEvent::Planned { steps });
    flow.handle_bot_response(&mut m, ResponseEvent::Canvas { found: true });
    flow.handle_bot_response(&mut m, ResponseEvent::Slots { window: None, budget: None });
    flow.handle_bot_response(&mut m, ResponseEvent::Performed { go_on: true });
    assert_eq!(
        flow.handle_bot_response(&mut m, ResponseEvent::Slots { window: None, budget: None }),
        ResponseAction::Close { riichi_lost: false, move_mouse: true }
    );
}

#[test]
fn plans_are_read_step_by_step() {
    let steps: Vec<Step<Point>> = vec![
        Step::Sleep { duration_ms: 5 },
        Step::Click((1.0, 2.0)),
        Step::SendFrame(vec![7]),
        Step::Click((3.0, 4.0)),
        Step::Sleep { duration_ms: 9 },
    ];
    assert!(needs_canvas(&steps));
    assert_eq!(plan_clicks(&steps), vec![(1.0, 2.0), (3.0, 4.0)]);
    assert_eq!(frame_of_plan(&steps), (9, Some(2)));
    let none: Vec<Step<Point>> = vec![Step::AwaitReady { timeout_ms: 1 }];
    assert!(!needs_canvas(&none));
    assert!(plan_clicks(&none).is_empty());
    assert_eq!(frame_of_plan(&none), (0, None));
}

#[test]
fn platforms_without_a_planner_use_the_first() {
    assert_eq!(planner_for(Platform::Majsoul), Planner::Majsoul);
    assert_eq!(planner_for(Platform::Tenhou), Planner::Tenhou);
    assert_eq!(planner_for(Platform::RiichiCity), Planner::RiichiCity);
    assert_eq!(planner_for(Platform::Other), Planner::Majsoul);
}

const MS: u64 = 1_000_000;

fn frame_plan() -> FramePlan {
    FramePlan {
        sleep_ms: 3_000,
        verify_input_ms: 100,
        retries: 1,
        window_open_at_plan: true,
        window_at_plan: Some(1_000 * MS),
        plan_created: 1_100 * MS,
        grace_ms: 3_000,
    }
}

fn at(now_ms: u64) -> Moment {
    Moment {
        now: now_ms * MS,
        in_game: true,
        open: true,
        opened_at: Some(1_000 * MS),
        answered: false,
        relayed: true,
    }
}

#[test]
fn a_frame_thinks_sends_and_is_answered() {
    let mut flow = FrameFlow::new(frame_plan());
    assert_eq!(flow.execute_riichi_frame(at(1_500)), FrameAction::Sleep(2_500));
    assert_eq!(flow.execute_riichi_frame(at(4_000)), FrameAction::Send);
    assert_eq!(flow.execute_riichi_frame(at(4_000)), FrameAction::Sleep(50));
    let heard = Moment { answered: true, ..at(4_100) };
    assert_eq!(flow.execute_riichi_frame(heard), FrameAction::Answered);
}

#[test]
fn an_unanswered_frame_is_sent_again_and_then_given_up() {
    let mut flow = FrameFlow::new(frame_plan());
    flow.execute_riichi_frame(at(1_500));
    assert_eq!(flow.execute_riichi_frame(at(4_000)), FrameAction::Send);
    assert_eq!(flow.execute_riichi_frame(at(4_000)), FrameAction::Sleep(50));
    assert_eq!(flow.execute_riichi_frame(at(4_499)), FrameAction::Sleep(50));
    assert_eq!(flow.execute_riichi_frame(at(4_500)), FrameAction::Send);
    assert_eq!(flow.execute_riichi_frame(at(4_500)), FrameAction::Sleep(50));
    assert_eq!(flow.execute_riichi_frame(at(5_000)), FrameAction::Unanswered);
    assert_eq!(flow.execute_riichi_frame(at(6_000)), FrameAction::Unanswered);
}

#[test]
fn a_frame_is_not_sent_again_into_another_window() {
    let after_one_send = || {
        let mut flow = FrameFlow::new(FramePlan { retries: 3, ..frame_plan() });
        flow.execute_riichi_frame(at(1_500));
        assert_eq!(flow.execute_riichi_frame(at(4_000)), FrameAction::Send);
        assert_eq!(flow.execute_riichi_frame(at(4_000)), FrameAction::Sleep(50));
        flow
    };
    let mut replaced = after_one_send();
    let next = |now| Moment { opened_at: Some(4_200 * MS), ..at(now) };
    assert_eq!(replaced.execute_riichi_frame(next(4_300)), FrameAction::Sleep(50));
    assert_eq!(replaced.execute_riichi_frame(next(4_500)), FrameAction::Unanswered);

    let mut shut = after_one_send();
    assert_eq!(
        shut.execute_riichi_frame(Moment { open: false, ..at(4_500) }),
        FrameAction::Unanswered
    );

    // An answer that comes with the next window still counts.
    let mut slow = after_one_send();
    assert_eq!(
        slow.execute_riichi_frame(Moment { answered: true, ..next(4_500) }),
        FrameAction::Answered
    );

    let mut again = after_one_send();
    assert_eq!(again.execute_riichi_frame(at(4_500)), FrameAction::Send);
    assert_eq!(again.execute_riichi_frame(at(4_500)), FrameAction::Sleep(50));
    assert_eq!(again.execute_riichi_frame(next(5_000)), FrameAction::Unanswered);
}

#[test]
fn a_frame_is_dropped_with_its_window() {
    let mut idle = FrameFlow::new(frame_plan());
    assert_eq!(
        idle.execute_riichi_frame(Moment { in_game: false, ..at(1_500) }),
        FrameAction::Drop
    );

    let mut gone = FrameFlow::new(frame_plan());
    gone.execute_riichi_frame(at(1_500));
    assert_eq!(
        gone.execute_riichi_frame(Moment { opened_at: Some(2_000 * MS), ..at(4_000) }),
        FrameAction::Drop
    );

    let mut replaced = FrameFlow::new(frame_plan());
    assert_eq!(
        replaced.execute_riichi_frame(Moment { opened_at: Some(2_000 * MS), ..at(2_000) }),
        FrameAction::Drop
    );

    let mut nameless = FrameFlow::new(FramePlan { window_at_plan: None, ..frame_plan() });
    assert_eq!(nameless.execute_riichi_frame(at(1_500)), FrameAction::Drop);

    let mut unrelayed = FrameFlow::new(frame_plan());
    unrelayed.execute_riichi_frame(at(1_500));
    unrelayed.execute_riichi_frame(at(4_000));
    assert_eq!(
        unrelayed.execute_riichi_frame(Moment { relayed: false, ..at(4_000) }),
        FrameAction::NoRelay
    );
}

#[test]
fn a_frame_waits_for_the_first_window_after_its_plan() {
    let plan = FramePlan { window_open_at_plan: false, window_at_plan: None, ..frame_plan() };
    let mut flow = FrameFlow::new(plan);
    // The open window is older than the plan.
    assert_eq!(flow.execute_riichi_frame(at(1_200)), FrameAction::Sleep(150));
    let ours = |now| Moment { opened_at: Some(1_300 * MS), ..at(now) };
    assert_eq!(flow.execute_riichi_frame(ours(1_350)), FrameAction::Sleep(2_950));
    assert_eq!(flow.execute_riichi_frame(ours(4_300)), FrameAction::Send);

    let mut late = FrameFlow::new(plan);
    let shut = |now| Moment { open: false, ..at(now) };
    assert_eq!(late.execute_riichi_frame(shut(4_099)), FrameAction::Sleep(150));
    assert_eq!(late.execute_riichi_frame(shut(4_100)), FrameAction::Drop);
}

#[test]
fn a_window_that_shut_may_open_again() {
    let mut flow = FrameFlow::new(frame_plan());
    let shut = |now| Moment { open: false, ..at(now) };
    assert_eq!(flow.execute_riichi_frame(shut(1_200)), FrameAction::Sleep(150));
    assert_eq!(flow.execute_riichi_frame(shut(16_199)), FrameAction::Sleep(150));
    assert_eq!(flow.execute_riichi_frame(at(16_200)), FrameAction::Sleep(0));

    let mut over = FrameFlow::new(frame_plan());
    over.execute_riichi_frame(shut(1_200));
    assert_eq!(over.execute_riichi_frame(shut(16_200)), FrameAction::Drop);
}

#[test]
fn thinking_has_limits() {
    assert_eq!(think_time(0), 2_000);
    assert_eq!(think_time(2_001), 2_001);
    assert_eq!(think_time(10_000), 10_000);
    assert_eq!(think_time(u64::MAX), 10_000);
}
