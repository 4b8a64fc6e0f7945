use rust_indicator::config::Config;
use rust_indicator::engine::{CaretSample, EdgeAction, IndicatorConfig, Mode, Placement};
use rust_indicator::scheduler::{PollClock, Scheduler, Snapshot, StateActions, TrackingActions};

fn marker(enabled: bool, show_in_alternate_mode: bool) -> IndicatorConfig {
    IndicatorConfig {
        enabled,
        color_primary: 1,
        color_alternate: 2,
        size: 8,
        offset_x: 0,
        offset_y: 0,
        show_in_alternate_mode,
    }
}

fn snapshot(mode: Mode, caret: Option<CaretSample>, pointer_match: bool) -> Snapshot {
    Snapshot { mode, caret, pointer_match, pointer_x: 11, pointer_y: 22 }
}

#[test]
fn clock_is_due_after_a_whole_interval() {
    let clock = PollClock::new(100, 1_000);
    assert!(!clock.due(1_000));
    assert!(!clock.due(1_099));
    assert!(clock.due(1_100));
    assert!(clock.due(5_000));
}

#[test]
fn clock_before_its_start_has_nothing_elapsed() {
    let clock = PollClock::new(100, 1_000);
    assert!(!clock.due(0));
    let always = PollClock::new(0, 1_000);
    assert!(always.due(0));
    assert!(always.due(1_000));
}

#[test]
fn clock_never_moves_backward() {
    let mut clock = PollClock::new(100, 1_000);
    clock.fire(400);
    assert_eq!(clock, PollClock { interval: 100, last_fired: 1_000 });
    clock.fire(1_250);
    assert_eq!(clock, PollClock { interval: 100, last_fired: 1_250 });
}

#[test]
fn stall_is_answered_by_one_state_tick() {
    let mut scheduler = Scheduler::new(marker(true, true), marker(true, true), 100, 10, 0);
    let resume: u64 = 500;
    let mut ticks = 0;
    for _ in 0..5 {
        if scheduler.state_tick(resume, snapshot(Mode::Primary, None, true)).is_some() {
            ticks += 1;
        }
    }
    assert_eq!(ticks, 1);
    assert!(!scheduler.state_tick_due(599));
    assert!(scheduler.state_tick_due(600));
}

#[test]
fn new_scheduler_is_hidden_and_not_due() {
    let scheduler = Scheduler::new(marker(true, true), marker(true, false), 100, 10, 50);
    assert!(!scheduler.caret_active());
    assert!(!scheduler.mouse_active());
    assert_eq!(scheduler.mode(), Mode::Alternate);
    assert_eq!(scheduler.state_interval(), 100);
    assert_eq!(scheduler.track_interval(), 10);
    assert!(!scheduler.state_tick_due(149));
    assert!(scheduler.state_tick_due(150));
    assert!(!scheduler.tracks_caret());
    assert!(!scheduler.tracks_pointer());
}

#[test]
fn scheduler_from_default_config() {
    let scheduler = Scheduler::from_config(&Config::default(), 7);
    assert_eq!(scheduler.state_interval(), 100);
    assert_eq!(scheduler.track_interval(), 10);
    assert!(!scheduler.state_tick_due(106));
    assert!(scheduler.state_tick_due(107));
}

#[test]
fn state_tick_shows_and_hides_on_edges_only() {
    let mut scheduler = Scheduler::new(marker(true, true), marker(true, false), 100, 10, 0);
    let caret = Some(CaretSample { x: 100, y: 200, height: 20 });
    let first = scheduler.state_tick(100, snapshot(Mode::Primary, caret, true)).unwrap();
    assert_eq!(first, StateActions { caret: EdgeAction::Show, mouse: EdgeAction::Show });
    assert!(scheduler.caret_active() && scheduler.mouse_active());
    let second = scheduler.state_tick(200, snapshot(Mode::Primary, caret, true)).unwrap();
    assert_eq!(second, StateActions { caret: EdgeAction::Unchanged, mouse: EdgeAction::Unchanged });
    let third = scheduler.state_tick(300, snapshot(Mode::Alternate, caret, true)).unwrap();
    assert_eq!(third, StateActions { caret: EdgeAction::Unchanged, mouse: EdgeAction::Hide });
    assert_eq!(scheduler.mode(), Mode::Alternate);
    assert!(scheduler.caret_active());
    assert!(!scheduler.mouse_active());
    let fourth = scheduler.state_tick(400, snapshot(Mode::Alternate, None, false)).unwrap();
    assert_eq!(fourth, StateActions { caret: EdgeAction::Hide, mouse: EdgeAction::Unchanged });
}

#[test]
fn disabled_indicator_never_becomes_active() {
    let mut scheduler = Scheduler::new(marker(false, true), marker(false, true), 100, 10, 0);
    let caret = Some(CaretSample { x: 1, y: 2, height: 3 });
    let actions = scheduler.state_tick(100, snapshot(Mode::Primary, caret, true)).unwrap();
    assert_eq!(actions, StateActions { caret: EdgeAction::Unchanged, mouse: EdgeAction::Unchanged });
    assert!(!scheduler.caret_active());
    assert!(!scheduler.mouse_active());
    assert_eq!(
        scheduler.tracking_tick(caret, Some((5, 6))),
        TrackingActions { caret: None, mouse: None }
    );
}

#[test]
fn ten_tracking_ticks_between_two_state_ticks() {
    let mut scheduler = Scheduler::new(marker(true, true), marker(true, true), 100, 10, 0);
    let caret = Some(CaretSample { x: 100, y: 200, height: 20 });
    let mut now: u64 = 100;
    assert!(scheduler.state_tick_due(now));
    let shown = scheduler.state_tick(now, snapshot(Mode::Primary, caret, false));
    assert_eq!(shown.map(|actions| actions.caret), Some(EdgeAction::Show));
    let mut updates = 0;
    let mut transitions = 0;
    for step in 0..10 {
        if step > 0 {
            now += scheduler.track_interval();
        }
        if let Some(actions) = scheduler.state_tick(now, snapshot(Mode::Primary, caret, false)) {
            if actions.caret != EdgeAction::Unchanged {
                transitions += 1;
            }
        }
        assert!(scheduler.tracks_caret());
        let moved = Some(CaretSample { x: 100 + step, y: 200, height: 20 });
        let actions = scheduler.tracking_tick(moved, None);
        assert_eq!(
            actions.caret,
            Some(Placement { x: 100 + step, y: 200, mode: Mode::Primary, extra: 20 })
        );
        assert_eq!(actions.mouse, None);
        updates += 1;
    }
    assert_eq!(now, 190);
    assert_eq!(updates, 10);
    assert_eq!(transitions, 0);
    now += scheduler.track_interval();
    assert!(scheduler.state_tick_due(now));
}

#[test]
fn tracking_uses_the_mode_of_the_last_state_tick() {
    let mut scheduler = Scheduler::new(marker(true, true), marker(true, true), 100, 10, 0);
    scheduler.state_tick(100, snapshot(Mode::Alternate, None, true));
    assert!(!scheduler.tracks_caret());
    assert!(scheduler.tracks_pointer());
    let actions = scheduler.tracking_tick(Some(CaretSample { x: 1, y: 1, height: 1 }), Some((30, 40)));
    assert_eq!(
        actions,
        TrackingActions {
            caret: None,
            mouse: Some(Placement { x: 30, y: 40, mode: Mode::Alternate, extra: 0 }),
        }
    );
    assert_eq!(scheduler.tracking_tick(None, None), TrackingActions { caret: None, mouse: None });
}

#[test]
fn state_tick_before_its_time_does_nothing() {
    let mut scheduler = Scheduler::new(marker(true, true), marker(true, true), 100, 10, 0);
    let caret = Some(CaretSample { x: 1, y: 2, height: 3 });
    assert_eq!(scheduler.state_tick(99, snapshot(Mode::Primary, caret, true)), None);
    assert!(!scheduler.caret_active());
    assert!(!scheduler.mouse_active());
    assert_eq!(scheduler.mode(), Mode::Alternate);
    assert!(scheduler.state_tick_due(100));
    assert_eq!(
        scheduler.state_tick(100, snapshot(Mode::Primary, caret, true)),
        Some(StateActions { caret: EdgeAction::Show, mouse: EdgeAction::Show })
    );
    assert_eq!(scheduler.state_tick(199, snapshot(Mode::Primary, None, false)), None);
    assert!(scheduler.caret_active());
}
