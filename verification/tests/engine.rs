use rust_indicator::engine::{
    apply_edge, evaluate, CaretSample, EdgeAction, IndicatorConfig, Mode, Placement, Signal,
    Verdict,
};

fn indicator(enabled: bool, show_in_alternate_mode: bool) -> IndicatorConfig {
    IndicatorConfig {
        enabled,
        color_primary: 0xA0FF7800,
        color_alternate: 0x300078FF,
        size: 8,
        offset_x: 0,
        offset_y: 0,
        show_in_alternate_mode,
    }
}

fn all_signals() -> Vec<Signal> {
    vec![
        Signal::Caret(None),
        Signal::Caret(Some(CaretSample { x: 1, y: 2, height: 3 })),
        Signal::Pointer { matched: false, x: 4, y: 5 },
        Signal::Pointer { matched: true, x: 4, y: 5 },
    ]
}

#[test]
fn disabled_indicator_is_always_hidden() {
    for show in [false, true] {
        for mode in [Mode::Primary, Mode::Alternate] {
            for signal in all_signals() {
                assert_eq!(evaluate(&indicator(false, show), mode, signal), Verdict::Hidden);
            }
        }
    }
}

#[test]
fn alternate_mode_hides_when_not_shown_there() {
    for signal in all_signals() {
        assert_eq!(evaluate(&indicator(true, false), Mode::Alternate, signal), Verdict::Hidden);
    }
}

#[test]
fn alternate_mode_shows_when_configured() {
    let verdict = evaluate(
        &indicator(true, true),
        Mode::Alternate,
        Signal::Pointer { matched: true, x: -7, y: 9 },
    );
    assert_eq!(
        verdict,
        Verdict::Visible(Placement { x: -7, y: 9, mode: Mode::Alternate, extra: 0 })
    );
}

#[test]
fn caret_in_primary_mode_is_visible_at_the_caret() {
    let verdict = evaluate(
        &indicator(true, true),
        Mode::Primary,
        Signal::Caret(Some(CaretSample { x: 100, y: 200, height: 20 })),
    );
    assert_eq!(
        verdict,
        Verdict::Visible(Placement { x: 100, y: 200, mode: Mode::Primary, extra: 20 })
    );
}

#[test]
fn pointer_in_alternate_mode_is_hidden_when_not_shown_there() {
    let verdict = evaluate(
        &indicator(true, false),
        Mode::Alternate,
        Signal::Pointer { matched: true, x: 10, y: 20 },
    );
    assert_eq!(verdict, Verdict::Hidden);
}

#[test]
fn absent_signal_is_hidden() {
    assert_eq!(evaluate(&indicator(true, true), Mode::Primary, Signal::Caret(None)), Verdict::Hidden);
    assert_eq!(
        evaluate(&indicator(true, true), Mode::Primary, Signal::Pointer { matched: false, x: 1, y: 1 }),
        Verdict::Hidden
    );
}

#[test]
fn pointer_extra_is_zero() {
    let verdict = evaluate(
        &indicator(true, false),
        Mode::Primary,
        Signal::Pointer { matched: true, x: 640, y: 480 },
    );
    assert_eq!(
        verdict,
        Verdict::Visible(Placement { x: 640, y: 480, mode: Mode::Primary, extra: 0 })
    );
}

#[test]
fn apply_edge_table() {
    let visible = Verdict::Visible(Placement { x: 0, y: 0, mode: Mode::Primary, extra: 0 });
    assert_eq!(apply_edge(false, visible), (true, EdgeAction::Show));
    assert_eq!(apply_edge(true, visible), (true, EdgeAction::Unchanged));
    assert_eq!(apply_edge(true, Verdict::Hidden), (false, EdgeAction::Hide));
    assert_eq!(apply_edge(false, Verdict::Hidden), (false, EdgeAction::Unchanged));
}

#[test]
fn apply_edge_never_repeats_a_transition() {
    let visible = Verdict::Visible(Placement { x: 3, y: 4, mode: Mode::Alternate, extra: 5 });
    for verdict in [visible, Verdict::Hidden] {
        assert_ne!(apply_edge(true, verdict).1, EdgeAction::Show);
        assert_ne!(apply_edge(false, verdict).1, EdgeAction::Hide);
        let (active, _) = apply_edge(false, verdict);
        assert_eq!(apply_edge(active, verdict), (active, EdgeAction::Unchanged));
    }
}

#[test]
fn alternating_verdicts_give_alternating_actions() {
    let config = indicator(true, true);
    let present = [true, true, false, false, true];
    let mut active = false;
    let mut actions = Vec::new();
    for matched in present {
        let verdict = evaluate(&config, Mode::Primary, Signal::Pointer { matched, x: 0, y: 0 });
        let (next, action) = apply_edge(active, verdict);
        active = next;
        actions.push(action);
    }
    assert_eq!(
        actions,
        vec![
            EdgeAction::Show,
            EdgeAction::Unchanged,
            EdgeAction::Hide,
            EdgeAction::Unchanged,
            EdgeAction::Show
        ]
    );
}
