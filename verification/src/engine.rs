//! The visibility engine: a pure decision function from sensor snapshots to a
//! verdict, and the edge detector that turns verdicts into show/hide actions.

use vstd::prelude::*;

verus! {

/// The two input-method states that drive the marker colour.
#[derive(Clone, Copy, Debug, PartialEq, Eq, Structural)]
pub enum Mode {
    Primary,
    Alternate,
}

/// Position and height of the text caret in screen space.
#[derive(Clone, Copy, Debug, PartialEq, Eq, Structural)]
pub struct CaretSample {
    pub x: i32,
    pub y: i32,
    pub height: i32,
}

/// What one indicator is configured to do. Fixed once loaded.
#[derive(Clone, Copy, Debug, PartialEq, Eq, Structural)]
pub struct IndicatorConfig {
    pub enabled: bool,
    pub color_primary: u32,
    pub color_alternate: u32,
    pub size: i32,
    pub offset_x: i32,
    pub offset_y: i32,
    pub show_in_alternate_mode: bool,
}

/// The positional signal of one indicator.
#[derive(Clone, Copy, Debug, PartialEq, Eq, Structural)]
pub enum Signal {
    /// The caret indicator follows the text caret, where one can be resolved.
    Caret(Option<CaretSample>),
    /// The mouse indicator follows the pointer while its shape is a watched one.
    Pointer { matched: bool, x: i32, y: i32 },
}

/// Where a visible marker is drawn, and under which mode.
#[derive(Clone, Copy, Debug, PartialEq, Eq, Structural)]
pub struct Placement {
    pub x: i32,
    pub y: i32,
    pub mode: Mode,
    /// The caret's height for the caret marker, zero for the mouse marker.
    pub extra: i32,
}

/// The engine's output for one indicator.
#[derive(Clone, Copy, Debug, PartialEq, Eq, Structural)]
pub enum Verdict {
    Hidden,
    Visible(Placement),
}

/// What the overlay is told on a change of visibility.
#[derive(Clone, Copy, Debug, PartialEq, Eq, Structural)]
pub enum EdgeAction {
    Unchanged,
    Show,
    Hide,
}

impl Signal {
    /// Whether the signal carries a position to draw at.
    pub open spec fn present(self) -> bool {
        match self {
            Signal::Caret(sample) => sample.is_some(),
            Signal::Pointer { matched, .. } => matched,
        }
    }

    /// The placement that a present signal gives under `mode`.
    pub open spec fn placement(self, mode: Mode) -> Placement {
        match self {
            Signal::Caret(sample) => Placement {
                x: sample.unwrap().x,
                y: sample.unwrap().y,
                mode,
                extra: sample.unwrap().height,
            },
            Signal::Pointer { x, y, .. } => Placement { x, y, mode, extra: 0 },
        }
    }
}

/// An indicator is visible exactly when it is enabled, its signal is present,
/// and the mode is primary or the indicator also shows in alternate mode.
pub open spec fn should_show(config: IndicatorConfig, mode: Mode, signal: Signal) -> bool {
    config.enabled && signal.present() && (mode == Mode::Primary || config.show_in_alternate_mode)
}

pub open spec fn verdict_of(config: IndicatorConfig, mode: Mode, signal: Signal) -> Verdict {
    if should_show(config, mode, signal) {
        Verdict::Visible(signal.placement(mode))
    } else {
        Verdict::Hidden
    }
}

/// Decides whether an indicator is visible and, if so, where.
pub fn evaluate(config: &IndicatorConfig, mode: Mode, signal: Signal) -> (verdict: Verdict)
    ensures
        verdict == verdict_of(*config, mode, signal),
        !config.enabled ==> verdict == Verdict::Hidden,
        mode == Mode::Alternate && !config.show_in_alternate_mode ==> verdict == Verdict::Hidden,
{
    if !config.enabled {
        return Verdict::Hidden;
    }
    let mode_allows = match mode {
        Mode::Primary => true,
        Mode::Alternate => config.show_in_alternate_mode,
    };
    if !mode_allows {
        return Verdict::Hidden;
    }
    match signal {
        Signal::Caret(Some(sample)) => Verdict::Visible(
            Placement { x: sample.x, y: sample.y, mode, extra: sample.height },
        ),
        Signal::Caret(None) => Verdict::Hidden,
        Signal::Pointer { matched, x, y } => {
            if matched {
                Verdict::Visible(Placement { x, y, mode, extra: 0 })
            } else {
                Verdict::Hidden
            }
        },
    }
}

pub open spec fn edge_of(previous_active: bool, verdict: Verdict) -> (bool, EdgeAction) {
    match verdict {
        Verdict::Visible(_) => if previous_active {
            (true, EdgeAction::Unchanged)
        } else {
            (true, EdgeAction::Show)
        },
        Verdict::Hidden => if previous_active {
            (false, EdgeAction::Hide)
        } else {
            (false, EdgeAction::Unchanged)
        },
    }
}

/// Turns a verdict into the new visibility and the action owed to the
/// overlay. An action is emitted only when the visibility changes.
pub fn apply_edge(previous_active: bool, verdict: Verdict) -> (result: (bool, EdgeAction))
    ensures
        result == edge_of(previous_active, verdict),
        result.0 == (verdict != Verdict::Hidden),
        previous_active ==> result.1 != EdgeAction::Show,
        !previous_active ==> result.1 != EdgeAction::Hide,
        (result.1 == EdgeAction::Unchanged) == (result.0 == previous_active),
{
    match verdict {
        Verdict::Visible(_) => {
            if previous_active {
                (true, EdgeAction::Unchanged)
            } else {
                (true, EdgeAction::Show)
            }
        },
        Verdict::Hidden => {
            if previous_active {
                (false, EdgeAction::Hide)
            } else {
                (false, EdgeAction::Unchanged)
            }
        },
    }
}

/// Re-applying a verdict to the visibility it produced emits nothing: a
/// transition is announced once.
pub proof fn lemma_edge_settles(previous_active: bool, verdict: Verdict)
    ensures
        edge_of(edge_of(previous_active, verdict).0, verdict) == (
            edge_of(previous_active, verdict).0,
            EdgeAction::Unchanged,
        ),
        previous_active ==> edge_of(previous_active, verdict).1 != EdgeAction::Show,
        !previous_active ==> edge_of(previous_active, verdict).1 != EdgeAction::Hide,
{
}

/// Whether the marker shows after a run of verdicts that started from
/// `active`.
pub open spec fn active_after(active: bool, verdicts: Seq<Verdict>) -> bool
    decreases verdicts.len(),
{
    if verdicts.len() == 0 {
        active
    } else {
        edge_of(active_after(active, verdicts.drop_last()), verdicts.last()).0
    }
}

/// The actions that a run of verdicts gives, one per verdict, starting from
/// `active`.
pub open spec fn actions_of(active: bool, verdicts: Seq<Verdict>) -> Seq<EdgeAction>
    decreases verdicts.len(),
{
    if verdicts.len() == 0 {
        Seq::empty()
    } else {
        actions_of(active, verdicts.drop_last()).push(
            edge_of(active_after(active, verdicts.drop_last()), verdicts.last()).1,
        )
    }
}

/// Over any run of verdicts the actions are the changes of visibility and
/// nothing else: each action is read off its verdict and the one before it,
/// `Show` where hidden turns visible, `Hide` where visible turns hidden, and
/// `Unchanged` where the two agree.
pub proof fn lemma_actions_are_edges(active: bool, verdicts: Seq<Verdict>)
    ensures
        actions_of(active, verdicts).len() == verdicts.len(),
        active_after(active, verdicts) == if verdicts.len() == 0 {
            active
        } else {
            verdicts.last() != Verdict::Hidden
        },
        forall|i: int|
            0 <= i < verdicts.len() ==> #[trigger] actions_of(active, verdicts)[i] == edge_of(
                if i == 0 {
                    active
                } else {
                    verdicts[i - 1] != Verdict::Hidden
                },
                verdicts[i],
            ).1,
    decreases verdicts.len(),
{
    if verdicts.len() > 0 {
        let shorter = verdicts.drop_last();
        lemma_actions_are_edges(active, shorter);
        assert forall|i: int| 0 <= i < verdicts.len() implies #[trigger] actions_of(
            active,
            verdicts,
        )[i] == edge_of(
            if i == 0 {
                active
            } else {
                verdicts[i - 1] != Verdict::Hidden
            },
            verdicts[i],
        ).1 by {
            if i < shorter.len() {
                assert(actions_of(active, verdicts)[i] == actions_of(active, shorter)[i]);
                assert(shorter[i] == verdicts[i]);
                if i > 0 {
                    assert(shorter[i - 1] == verdicts[i - 1]);
                }
            } else if i > 0 {
                assert(shorter.last() == verdicts[i - 1]);
            }
        }
    }
}

/// A disabled indicator is hidden whatever the sensors say, and so is one
/// that does not show in alternate mode while that mode is on.
pub proof fn lemma_hidden_when_off(config: IndicatorConfig, mode: Mode, signal: Signal)
    ensures
        !config.enabled ==> verdict_of(config, mode, signal) == Verdict::Hidden,
        mode == Mode::Alternate && !config.show_in_alternate_mode ==> verdict_of(
            config,
            mode,
            signal,
        ) == Verdict::Hidden,
{
}

} // verus!
