use akagi::autoplay::buttons::{
    choose_action, classify_coverage, is_blue, is_gold, Action, Phase, Region, Screen,
    GAME_HEIGHT, GAME_WIDTH,
};
use akagi::autoplay::rematch::{
    press_timing, NextEvent, RematchAction, RematchError, RematchEvent, RematchFlow,
    RematchSettings,
};
use akagi::autoplay::screenshot::{
    classify_picture, classify_png, coverage, ButtonSamples, Picture, PixelFormat,
    ScreenshotError, Tone,
};
use akagi::autoplay::bus::{bus_step, Bus, BusError, BusOutcome, BusStep};
use akagi::autoplay::watch::{WatchAction, WatchEvent, WatchState};
use akagi::events::{GameEndReason, MjaiEvent, Platform};

/// Coverage in thirty-seconds of a button's points.
fn of_32(coverage: f64) -> u32 {
    (coverage * 32.0) as u32
}

#[test]
fn reference_screens_choose_their_buttons() {
    let classify =
        |a: f64, b: f64, c: f64| classify_coverage(of_32(a), of_32(b), of_32(c));
    assert_eq!(classify(0.8125, 0.0, 0.875), Screen::Rematch);
    assert_eq!(classify(0.0, 0.90625, 0.0), Screen::Dialog);
    assert_eq!(classify(0.0, 0.0, 0.875), Screen::Confirm);
    // A partly visible blue button must not be mistaken for Confirm.
    assert_eq!(classify(1.0 / 32.0, 0.0, 0.875), Screen::Other);
    assert_eq!(classify(0.125, 0.0, 0.875), Screen::Other);
}

#[test]
fn coverage_thresholds_lie_between_two_points() {
    assert_eq!(classify_coverage(0, 18, 0), Screen::Dialog);
    assert_eq!(classify_coverage(0, 17, 0), Screen::Other);
    assert_eq!(classify_coverage(13, 0, 0), Screen::Rematch);
    assert_eq!(classify_coverage(12, 0, 0), Screen::Other);
    assert_eq!(classify_coverage(0, 0, 18), Screen::Confirm);
    assert_eq!(classify_coverage(0, 0, 17), Screen::Other);
    assert_eq!(classify_coverage(32, 32, 32), Screen::Dialog);
}

#[test]
fn unknown_screens_never_repeat_the_confirm_button() {
    assert_eq!(Action::Advance.point(), Action::Rematch.point());
    assert_eq!(choose_action(Phase::Results, Screen::Confirm, 0, 0), Action::Confirm);
    assert_eq!(choose_action(Phase::Results, Screen::Confirm, 2, 0), Action::Advance);
    assert_eq!(choose_action(Phase::Results, Screen::Other, 2, 0), Action::Advance);
    assert_eq!(choose_action(Phase::Results, Screen::Other, 2, 2), Action::Advance);
    assert_eq!(choose_action(Phase::Results, Screen::Rematch, 2, 0), Action::Rematch);
    assert_eq!(choose_action(Phase::Results, Screen::Dialog, 0, 0), Action::Dialog);
    assert_eq!(choose_action(Phase::MatchDialog, Screen::Other, 2, 1), Action::Wait);
    assert_eq!(choose_action(Phase::MatchDialog, Screen::Dialog, 2, 1), Action::Dialog);
}

#[test]
fn rematch_is_pressed_twice_at_most() {
    assert_eq!(choose_action(Phase::MatchDialog, Screen::Rematch, 0, 1), Action::Rematch);
    assert_eq!(choose_action(Phase::MatchDialog, Screen::Rematch, 0, 2), Action::Wait);
    assert_eq!(choose_action(Phase::Results, Screen::Rematch, 0, 2), Action::Advance);
    assert_eq!(choose_action(Phase::MatchDialog, Screen::Confirm, 0, 0), Action::Wait);
}

#[test]
fn buttons_have_centers() {
    assert_eq!(Region::confirm().center(), (2902, 1646));
    assert_eq!(Action::Confirm.point(), Some((2902, 1646)));
    assert_eq!(Action::Rematch.point(), Some((2432, 1646)));
    assert_eq!(Action::Dialog.point(), Some((1302, 1322)));
    assert_eq!(Action::Wait.point(), None);
}

#[test]
fn colors_are_told_by_their_limits() {
    assert!(is_gold([247, 216, 115]));
    assert!(!is_gold([200, 161, 100]));
    assert!(!is_gold([201, 160, 100]));
    assert!(!is_gold([201, 161, 65]));
    assert!(!is_gold([201, 161, 180]));
    assert!(!is_gold([201, 201, 100]));
    assert!(is_gold([201, 161, 66]));
    assert!(is_blue([49, 77, 135]));
    assert!(!is_blue([0, 16, 95]));
    assert!(is_blue([0, 16, 96]));
    assert!(!is_blue([0, 15, 96]));
    assert!(!is_blue([0, 230, 255]));
    assert!(is_blue([0, 229, 255]));
}

#[derive(Clone, Copy)]
struct Rect {
    x: f64,
    y: f64,
    width: f64,
    height: f64,
}

/// The points of a button to look at, in a picture of the whole viewport.
fn points(region: Region, rect: Rect) -> [(usize, usize); 32] {
    let mut out = [(0, 0); 32];
    for row in 0..4_usize {
        for col in 0..8_usize {
            let x = f64::from(region.left)
                + f64::from(region.right - region.left)
                    * (0.1 + 0.8 * (col as f64 + 0.5) / 8.0);
            let y = f64::from(region.top)
                + f64::from(region.bottom - region.top)
                    * (0.1 + 0.8 * (row as f64 + 0.5) / 4.0);
            let px = (rect.x + x / f64::from(GAME_WIDTH) * rect.width).floor() as usize;
            let py = (rect.y + y / f64::from(GAME_HEIGHT) * rect.height).floor() as usize;
            out[row * 8 + col] = (px, py);
        }
    }
    out
}

fn samples(canvas: Rect, viewport: (f64, f64), width: u32, height: u32) -> ButtonSamples {
    let sx = f64::from(width) / viewport.0;
    let sy = f64::from(height) / viewport.1;
    let rect = Rect {
        x: canvas.x * sx,
        y: canvas.y * sy,
        width: canvas.width * sx,
        height: canvas.height * sy,
    };
    ButtonSamples {
        rematch: points(Region::rematch(), rect),
        dialog: points(Region::dialog(), rect),
        confirm: points(Region::confirm(), rect),
    }
}

const CANVAS: Rect = Rect { x: 20.0, y: 15.0, width: 160.0, height: 90.0 };

fn encode(pixels: &[u8], color: png::ColorType, width: u32, height: u32) -> Vec<u8> {
    let mut file = Vec::new();
    {
        let mut encoder = png::Encoder::new(&mut file, width, height);
        encoder.set_color(color);
        encoder.set_depth(png::BitDepth::Eight);
        encoder.write_header().unwrap().write_image_data(pixels).unwrap();
    }
    file
}

fn result_page(width: u32, height: u32) -> Vec<u8> {
    let inside = |r: Region, gx: f64, gy: f64| {
        gx >= f64::from(r.left)
            && gx <= f64::from(r.right)
            && gy >= f64::from(r.top)
            && gy <= f64::from(r.bottom)
    };
    let mut pixels = vec![0_u8; width as usize * height as usize * 3];
    for y in 0..height as usize {
        for x in 0..width as usize {
            let gx = (x as f64 - CANVAS.x) / CANVAS.width * f64::from(GAME_WIDTH);
            let gy = (y as f64 - CANVAS.y) / CANVAS.height * f64::from(GAME_HEIGHT);
            let color = if inside(Region::rematch(), gx, gy) {
                [49, 77, 135]
            } else if inside(Region::confirm(), gx, gy) {
                [247, 216, 115]
            } else {
                [0, 0, 0]
            };
            pixels[(y * width as usize + x) * 3..][..3].copy_from_slice(&color);
        }
    }
    pixels
}

#[test]
fn full_viewport_png_uses_the_actual_canvas_rect() {
    let (width, height) = (200_u32, 120_u32);
    let file = encode(&result_page(width, height), png::ColorType::Rgb, width, height);
    let screen = classify_png(&file, |w, h| samples(CANVAS, (200.0, 120.0), w, h)).unwrap();
    assert_eq!(screen, Screen::Rematch);
}

#[test]
fn an_alpha_channel_is_stepped_over() {
    let (width, height) = (200_u32, 120_u32);
    let mut pixels = Vec::new();
    for rgb in result_page(width, height).chunks(3) {
        pixels.extend_from_slice(rgb);
        pixels.push(255);
    }
    let file = encode(&pixels, png::ColorType::Rgba, width, height);
    let screen = classify_png(&file, |w, h| samples(CANVAS, (200.0, 120.0), w, h)).unwrap();
    assert_eq!(screen, Screen::Rematch);
}

#[test]
fn bad_screenshots_say_what_is_wrong() {
    let locate = |w, h| samples(CANVAS, (200.0, 120.0), w, h);
    assert!(matches!(classify_png(b"no picture", locate), Err(ScreenshotError::Decode(_))));
    let gray = encode(&[7; 6], png::ColorType::Grayscale, 3, 2);
    assert!(matches!(classify_png(&gray, locate), Err(ScreenshotError::UnsupportedColor)));
    let file = encode(&[7; 18], png::ColorType::Rgb, 3, 2);
    let outside = |_, _| ButtonSamples {
        rematch: [(0, 0); 32],
        dialog: [(2, 1); 32],
        confirm: [(3, 1); 32],
    };
    assert!(matches!(classify_png(&file, outside), Err(ScreenshotError::ButtonOutside)));
}

/// A result page whose pixels refer to a palette of these bytes.
fn indexed_page(palette: &[u8]) -> Vec<u8> {
    let (width, height) = (200_u32, 120_u32);
    let pixels: Vec<u8> = result_page(width, height)
        .chunks(3)
        .map(|rgb| match rgb[0] {
            49 => 1,
            247 => 2,
            _ => 0,
        })
        .collect();
    let mut file = Vec::new();
    {
        let mut encoder = png::Encoder::new(&mut file, width, height);
        encoder.set_color(png::ColorType::Indexed);
        encoder.set_depth(png::BitDepth::Eight);
        encoder.set_palette(palette.to_vec());
        encoder.write_header().unwrap().write_image_data(&pixels).unwrap();
    }
    file
}

#[test]
fn a_palette_is_made_of_whole_colors() {
    let locate = |w, h| samples(CANVAS, (200.0, 120.0), w, h);
    let whole = [0, 0, 0, 49, 77, 135, 247, 216, 115];
    assert_eq!(classify_png(&indexed_page(&whole), locate).unwrap(), Screen::Rematch);
    for len in [4, 5, 7, 8] {
        let file = indexed_page(&whole[..len]);
        assert!(matches!(classify_png(&file, locate), Err(ScreenshotError::BrokenPalette)));
    }
    // Colours that the palette does not have are black.
    assert_eq!(classify_png(&indexed_page(&whole[..3]), locate).unwrap(), Screen::Other);
}

#[test]
fn a_picture_is_sampled_pixel_by_pixel() {
    let picture = Picture {
        width: 2,
        height: 2,
        format: PixelFormat::Rgb,
        data: vec![0, 0, 0, 49, 77, 135, 247, 216, 115, 1, 1, 1],
    };
    let mut points = [(0, 0); 32];
    points[3] = (1, 0);
    points[4] = (1, 0);
    points[9] = (0, 1);
    assert_eq!(coverage(&picture, &points, Tone::Blue), Some(2));
    assert_eq!(coverage(&picture, &points, Tone::Gold), Some(1));
    points[31] = (0, 2);
    assert_eq!(coverage(&picture, &points, Tone::Gold), None);
    let all = ButtonSamples { rematch: [(0, 0); 32], dialog: [(0, 0); 32], confirm: [(0, 1); 32] };
    assert_eq!(classify_picture(&picture, &all).unwrap(), Screen::Confirm);
}

#[test]
fn presses_are_never_too_quick() {
    assert_eq!(press_timing(0, 0), (100, 50));
    assert_eq!(press_timing(250, 80), (250, 80));
}

const SETTINGS: RematchSettings =
    RematchSettings { enabled: true, platform: Platform::Majsoul, remaining_games: 3 };

const SEC: u64 = 1_000_000_000;

/// One round of the flow up to the look at the screen.
fn look(flow: &mut RematchFlow, now: u64) {
    assert_eq!(flow.advance(RematchEvent::Tick { now }), RematchAction::TakeEvent);
    assert_eq!(
        flow.advance(RematchEvent::Next(NextEvent::OtherEvent)),
        RematchAction::TakeEvent
    );
    assert_eq!(
        flow.advance(RematchEvent::Next(NextEvent::Empty)),
        RematchAction::ReadSettings
    );
    assert_eq!(flow.advance(RematchEvent::Settings(SETTINGS)), RematchAction::Look);
}

#[test]
fn the_way_to_the_next_match() {
    let mut flow = RematchFlow::start(0);
    let shown = [
        (Screen::Confirm, Action::Confirm),
        (Screen::Confirm, Action::Confirm),
        (Screen::Confirm, Action::Advance),
        (Screen::Rematch, Action::Rematch),
    ];
    for (i, (screen, action)) in shown.into_iter().enumerate() {
        look(&mut flow, i as u64 * 2 * SEC);
        assert_eq!(
            flow.advance(RematchEvent::Seen(Some(screen))),
            RematchAction::Press(action)
        );
        assert_eq!(
            flow.advance(RematchEvent::Clicked { ok: true }),
            RematchAction::Sleep(1_500)
        );
    }
    look(&mut flow, 20 * SEC);
    assert_eq!(flow.advance(RematchEvent::Seen(None)), RematchAction::Sleep(600));
    look(&mut flow, 21 * SEC);
    assert_eq!(
        flow.advance(RematchEvent::Seen(Some(Screen::Other))),
        RematchAction::Sleep(600)
    );
    look(&mut flow, 22 * SEC);
    assert_eq!(
        flow.advance(RematchEvent::Seen(Some(Screen::Dialog))),
        RematchAction::Press(Action::Dialog)
    );
    assert_eq!(
        flow.advance(RematchEvent::Clicked { ok: true }),
        RematchAction::Done { clicks: 5 }
    );
    assert_eq!(flow.advance(RematchEvent::Tick { now: 0 }), RematchAction::Ignore);
}

#[test]
fn the_way_ends_short_of_the_match() {
    let fail = |events: &[RematchEvent]| {
        let mut flow = RematchFlow::start(0);
        let mut last = RematchAction::Ignore;
        for ev in events {
            last = flow.advance(*ev);
        }
        assert_eq!(flow.advance(events[0]), RematchAction::Ignore);
        last
    };
    let tick = RematchEvent::Tick { now: 0 };
    let next = |e| RematchEvent::Next(e);
    assert_eq!(
        fail(&[RematchEvent::Tick { now: 120 * SEC }]),
        RematchAction::Fail(RematchError::TimedOut { clicks: 0 })
    );
    assert_eq!(
        fail(&[tick, next(NextEvent::GameStarted)]),
        RematchAction::Fail(RematchError::GameStarted)
    );
    assert_eq!(
        fail(&[tick, next(NextEvent::Lagged)]),
        RematchAction::Fail(RematchError::Lagged)
    );
    assert_eq!(
        fail(&[tick, next(NextEvent::Closed)]),
        RematchAction::Fail(RematchError::BusClosed)
    );
    for settings in [
        RematchSettings { enabled: false, ..SETTINGS },
        RematchSettings { platform: Platform::Tenhou, ..SETTINGS },
        RematchSettings { remaining_games: 0, ..SETTINGS },
    ] {
        assert_eq!(
            fail(&[tick, next(NextEvent::Empty), RematchEvent::Settings(settings)]),
            RematchAction::Fail(RematchError::Disabled)
        );
    }
    assert_eq!(
        fail(&[
            tick,
            next(NextEvent::Empty),
            RematchEvent::Settings(SETTINGS),
            RematchEvent::Seen(Some(Screen::Other)),
            RematchEvent::Clicked { ok: false },
        ]),
        RematchAction::Fail(RematchError::ClickFailed)
    );
}

#[test]
fn eighty_clicks_fit_in_the_time() {
    let mut flow = RematchFlow::start(0);
    let mut now = 0;
    let mut clicks = 0;
    while flow.advance(RematchEvent::Tick { now }) == RematchAction::TakeEvent {
        flow.advance(RematchEvent::Next(NextEvent::Empty));
        flow.advance(RematchEvent::Settings(SETTINGS));
        flow.advance(RematchEvent::Seen(Some(Screen::Other)));
        assert_eq!(
            flow.advance(RematchEvent::Clicked { ok: true }),
            RematchAction::Sleep(1_500)
        );
        clicks += 1;
        now += 1_500_000_000;
    }
    assert_eq!(clicks, 80);
    assert_eq!(flow.clicks, 80);
}

fn game_start() -> WatchEvent {
    WatchEvent::Game(MjaiEvent::StartGame {
        names: vec![],
        kyoku_first: None,
        aka_flag: None,
        id: Some(0),
        num_players: 4,
    })
}

fn game_end(reason: GameEndReason) -> WatchEvent {
    WatchEvent::Game(MjaiEvent::EndGame { reason })
}

#[test]
fn a_confirmed_game_is_counted_once() {
    let mut w = WatchState::new();
    assert_eq!(w.watch(game_end(GameEndReason::Confirmed)), WatchAction::Wait);
    assert_eq!(w.watch(game_start()), WatchAction::Wait);
    assert_eq!(w.watch(WatchEvent::Game(MjaiEvent::EndKyoku)), WatchAction::Wait);
    assert_eq!(w.watch(game_end(GameEndReason::Confirmed)), WatchAction::CountGame);
    assert_eq!(w.watch(game_end(GameEndReason::Confirmed)), WatchAction::Wait);
    assert_eq!(w.watch(game_start()), WatchAction::Wait);
    assert_eq!(w.watch(game_end(GameEndReason::Other)), WatchAction::Wait);
    assert_eq!(w.watch(game_end(GameEndReason::Confirmed)), WatchAction::Wait);
}

#[test]
fn the_next_match_follows_a_counted_game() {
    let mut w = WatchState::new();
    w.watch(game_start());
    w.watch(game_end(GameEndReason::Confirmed));
    assert_eq!(w.watch(WatchEvent::Counted(Some(SETTINGS))), WatchAction::Advance);
    assert!(!w.result_pending);
    assert_eq!(w.watch(WatchEvent::Advanced { game_started: true }), WatchAction::Wait);
    assert!(w.in_game);
    assert_eq!(w.watch(game_end(GameEndReason::Confirmed)), WatchAction::CountGame);
    assert_eq!(w.watch(WatchEvent::Counted(None)), WatchAction::Wait);
    assert!(!w.result_pending);
}

#[test]
fn no_games_left_stops_until_there_are_more() {
    let none_left = RematchSettings { remaining_games: 0, ..SETTINGS };
    let mut w = WatchState::new();
    w.watch(game_start());
    w.watch(game_end(GameEndReason::Confirmed));
    assert_eq!(w.watch(WatchEvent::Counted(Some(none_left))), WatchAction::Wait);
    assert!(w.result_pending);
    assert_eq!(w.watch(WatchEvent::Config(none_left)), WatchAction::Wait);
    assert_eq!(w.watch(WatchEvent::Config(SETTINGS)), WatchAction::Advance);
    assert_eq!(w.watch(WatchEvent::Config(SETTINGS)), WatchAction::Wait);
    assert_eq!(w.watch(WatchEvent::Advanced { game_started: false }), WatchAction::Wait);
    assert!(!w.in_game);
}

#[test]
fn other_platforms_leave_no_result_standing() {
    let other = RematchSettings { platform: Platform::Tenhou, ..SETTINGS };
    let mut w = WatchState::new();
    w.watch(game_start());
    w.watch(game_end(GameEndReason::Confirmed));
    assert_eq!(w.watch(WatchEvent::Counted(Some(other))), WatchAction::Wait);
    assert!(!w.result_pending);
    assert_eq!(w.watch(WatchEvent::Lagged), WatchAction::Wait);
    assert_eq!(w.watch(WatchEvent::Closed), WatchAction::Stop);
}

#[test]
fn a_bus_is_followed_to_its_end() {
    for bus in [Bus::Responses, Bus::Games] {
        assert_eq!(bus_step(bus, BusOutcome::Message), Ok(BusStep::Handle));
        assert_eq!(bus_step(bus, BusOutcome::Lagged(7)), Ok(BusStep::Skip(7)));
        assert_eq!(bus_step(bus, BusOutcome::Closed), Err(BusError { bus }));
    }
}
