use gc2d::clock::FrameClock;
use gc2d::frame_loop::{Action, FrameLoop, Outcome, Phase};
use gc2d::window::Window;

fn start_running(l: &mut FrameLoop) {
    assert_eq!(l.next_action(), Action::AcquireSubsystems);
    assert_eq!(l.advance(Outcome::Done), Action::RunLoad);
    assert_eq!(l.phase(), Phase::Loading);
    assert_eq!(l.advance(Outcome::Done), Action::DrainRequests);
    assert_eq!(l.phase(), Phase::Running);
}

#[test]
fn load_error_terminates_without_update_or_draw() {
    let mut l = FrameLoop::new();
    assert_eq!(l.phase(), Phase::Uninitialized);
    assert_eq!(l.advance(Outcome::Done), Action::RunLoad);
    let mut seen = vec![l.advance(Outcome::Failed("missing asset".to_string()))];
    assert_eq!(l.phase(), Phase::Terminating);
    seen.push(l.advance(Outcome::Done));
    assert_eq!(l.phase(), Phase::Stopped);
    seen.push(l.advance(Outcome::Done));
    assert_eq!(seen, vec![Action::ReleaseSubsystems, Action::Exit, Action::Exit]);
    assert!(!seen.contains(&Action::Update) && !seen.contains(&Action::Draw));
    assert_eq!(l.exit_value(), Err("missing asset".to_string()));
}

#[test]
fn frame_steps_in_order() {
    let mut l = FrameLoop::new();
    start_running(&mut l);
    let expected = [
        Action::BeginDraw,
        Action::RefreshInput,
        Action::PollEvents,
        Action::DispatchControls,
        Action::Update,
        Action::Draw,
        Action::EndDraw,
        Action::Pace,
        Action::DrainRequests,
        Action::BeginDraw,
    ];
    for a in expected {
        assert_eq!(l.advance(Outcome::Done), a);
    }
}

#[test]
fn quit_at_poll_is_a_clean_exit() {
    let mut l = FrameLoop::new();
    start_running(&mut l);
    for _ in 0..3 {
        l.advance(Outcome::Done);
    }
    assert_eq!(l.next_action(), Action::PollEvents);
    assert_eq!(l.advance(Outcome::QuitRequested), Action::ReleaseSubsystems);
    assert_eq!(l.advance(Outcome::Done), Action::Exit);
    assert_eq!(l.exit_value(), Ok(()));
}

#[test]
fn quit_outside_poll_does_not_stop() {
    let mut l = FrameLoop::new();
    start_running(&mut l);
    assert_eq!(l.advance(Outcome::QuitRequested), Action::BeginDraw);
    assert_eq!(l.phase(), Phase::Running);
}

#[test]
fn update_error_skips_draw() {
    let mut l = FrameLoop::new();
    start_running(&mut l);
    while l.next_action() != Action::Update {
        l.advance(Outcome::Done);
    }
    assert_eq!(l.advance(Outcome::Failed("update".to_string())), Action::ReleaseSubsystems);
    assert_eq!(l.advance(Outcome::Failed("release".to_string())), Action::Exit);
    assert_eq!(l.exit_value(), Err("update".to_string()));
}

#[test]
fn device_error_stops_before_load() {
    let mut l = FrameLoop::new();
    assert_eq!(l.advance(Outcome::Failed("no audio device".to_string())), Action::ReleaseSubsystems);
    assert_eq!(l.advance(Outcome::Done), Action::Exit);
    assert_eq!(l.exit_value(), Err("no audio device".to_string()));
}

#[test]
fn pacing_sleeps_what_is_left_of_the_budget() {
    let mut l = FrameLoop::new();
    assert_eq!(l.max_fps(), 60);
    assert_eq!(l.pacing_delay(6_666_666), 10_000_000);
    assert_eq!(l.pacing_delay(16_666_666), 0);
    assert_eq!(l.pacing_delay(50_000_000), 0);
    assert_eq!(l.pacing_delay(0), 16_666_666);
    l.set_max_fps(0);
    assert_eq!(l.pacing_delay(0), 0);
    l.set_max_fps(1);
    assert_eq!(l.pacing_delay(1), 999_999_999);
}

#[test]
fn dt_measures_between_updates_and_is_never_negative() {
    let mut l = FrameLoop::new();
    l.start_clock(1_000);
    assert_eq!(l.frame_dt(17_000), 16_000);
    assert_eq!(l.frame_dt(17_000), 0);
    assert_eq!(l.frame_dt(10_000), 0);
    assert_eq!(l.frame_dt(20_000), 3_000);
    assert_eq!(l.frame_dt(u64::MAX), u64::MAX - 20_000);
}

#[test]
fn clock_does_not_rewind() {
    let mut c = FrameClock::new(500);
    assert_eq!(c.tick(400), 0);
    assert_eq!(c.last_tick, 500);
    assert_eq!(c.tick(900), 400);
    assert_eq!(c.last_tick, 900);
}

#[test]
fn window_settings() {
    let mut w = Window::new();
    assert_eq!((w.width, w.height, w.title.as_str(), w.fullscreen), (800, 600, "", false));
    w.set_title("Game");
    w.set_size(1024, 768);
    w.set_fullscreen(true);
    assert_eq!((w.width, w.height, w.title.as_str(), w.fullscreen), (1024, 768, "Game", true));
}
