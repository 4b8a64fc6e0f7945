//! The dual-rate scheduler: a slow state cadence that recomputes visibility
//! and a fast tracking cadence that only follows positions. The scheduler
//! decides; the caller reads the sensors, drives the overlays and sleeps.

use vstd::prelude::*;
use crate::config::Config;
use crate::engine::{
    apply_edge, edge_of, evaluate, should_show, verdict_of, CaretSample, EdgeAction,
    IndicatorConfig, Mode, Placement, Signal,
};

verus! {

/// One polling cadence: its interval and the instant it last fired, both in
/// milliseconds of one monotonic clock.
#[derive(Clone, Copy, Debug, PartialEq, Eq, Structural)]
pub struct PollClock {
    pub interval: u64,
    pub last_fired: u64,
}

impl PollClock {
    /// Time since the cadence last fired; zero for an instant before that.
    pub open spec fn elapsed_at(self, now: u64) -> int {
        if now >= self.last_fired {
            now - self.last_fired
        } else {
            0
        }
    }

    /// The cadence is due once a whole interval has passed since it fired.
    pub open spec fn due_at(self, now: u64) -> bool {
        self.elapsed_at(now) >= self.interval
    }

    /// The clock after firing at `now`: the cadence restarts from `now`, and
    /// the recorded instant never moves backward.
    pub open spec fn fired_at(self, now: u64) -> PollClock {
        PollClock {
            interval: self.interval,
            last_fired: if now >= self.last_fired {
                now
            } else {
                self.last_fired
            },
        }
    }

    pub fn new(interval: u64, now: u64) -> (clock: PollClock)
        ensures
            clock == (PollClock { interval, last_fired: now }),
    {
        PollClock { interval, last_fired: now }
    }

    pub fn due(&self, now: u64) -> (due: bool)
        ensures
            due == self.due_at(now),
    {
        let elapsed: u64 = if now >= self.last_fired {
            now - self.last_fired
        } else {
            0
        };
        elapsed >= self.interval
    }

    pub fn fire(&mut self, now: u64)
        ensures
            *final(self) == old(self).fired_at(now),
            final(self).last_fired >= old(self).last_fired,
            final(self).last_fired >= now,
    {
        if now >= self.last_fired {
            self.last_fired = now;
        }
    }
}

/// After a cadence has fired it is not due again before a whole interval has
/// passed, however late the firing was: a stall of many intervals is answered
/// by one tick, and nothing is replayed.
pub proof fn lemma_no_catch_up(clock: PollClock, now: u64, later: u64)
    requires
        clock.interval > 0,
    ensures
        !clock.fired_at(now).due_at(now),
        later < clock.fired_at(now).last_fired + clock.interval ==> !clock.fired_at(now).due_at(
            later,
        ),
        now >= clock.last_fired ==> (clock.fired_at(now).due_at(later) <==> later - now
            >= clock.interval),
{
}

/// A cadence that is due stays due until it fires, and firing never moves
/// its clock backward.
pub proof fn lemma_due_until_fired(clock: PollClock, now: u64, later: u64)
    requires
        now <= later,
    ensures
        clock.due_at(now) ==> clock.due_at(later),
        clock.fired_at(now).last_fired >= clock.last_fired,
        clock.fired_at(now).fired_at(later).last_fired >= clock.fired_at(now).last_fired,
        clock.fired_at(now).interval == clock.interval,
{
}

/// What the sensors gave on one state tick: every value is read once and
/// serves both indicators.
#[derive(Clone, Copy, Debug, PartialEq, Eq, Structural)]
pub struct Snapshot {
    pub mode: Mode,
    pub caret: Option<CaretSample>,
    pub pointer_match: bool,
    pub pointer_x: i32,
    pub pointer_y: i32,
}

impl Snapshot {
    pub open spec fn caret_signal(self) -> Signal {
        Signal::Caret(self.caret)
    }

    pub open spec fn pointer_signal(self) -> Signal {
        Signal::Pointer { matched: self.pointer_match, x: self.pointer_x, y: self.pointer_y }
    }
}

/// The show/hide actions of one state tick, one per indicator.
#[derive(Clone, Copy, Debug, PartialEq, Eq, Structural)]
pub struct StateActions {
    pub caret: EdgeAction,
    pub mouse: EdgeAction,
}

/// The position updates of one tracking tick, one per visible indicator.
#[derive(Clone, Copy, Debug, PartialEq, Eq, Structural)]
pub struct TrackingActions {
    pub caret: Option<Placement>,
    pub mouse: Option<Placement>,
}

/// The scheduler's state as contracts see it.
pub struct SchedulerView {
    pub caret: IndicatorConfig,
    pub mouse: IndicatorConfig,
    pub state_clock: PollClock,
    pub track_interval: u64,
    pub mode: Mode,
    pub caret_active: bool,
    pub mouse_active: bool,
}

impl SchedulerView {
    /// A visible indicator is an enabled one.
    pub open spec fn consistent(self) -> bool {
        &&& self.caret_active ==> self.caret.enabled
        &&& self.mouse_active ==> self.mouse.enabled
    }

    /// State and actions after a state tick at `now` on `snapshot`.
    pub open spec fn after_state_tick(self, now: u64, snapshot: Snapshot) -> (
        SchedulerView,
        StateActions,
    ) {
        let caret = edge_of(
            self.caret_active,
            verdict_of(self.caret, snapshot.mode, snapshot.caret_signal()),
        );
        let mouse = edge_of(
            self.mouse_active,
            verdict_of(self.mouse, snapshot.mode, snapshot.pointer_signal()),
        );
        (
            SchedulerView {
                caret: self.caret,
                mouse: self.mouse,
                state_clock: self.state_clock.fired_at(now),
                track_interval: self.track_interval,
                mode: snapshot.mode,
                caret_active: caret.0,
                mouse_active: mouse.0,
            },
            StateActions { caret: caret.1, mouse: mouse.1 },
        )
    }

    /// State and actions after the scheduler was offered a state tick at
    /// `now`: the tick runs where the state cadence is due, and nothing
    /// happens where it is not.
    pub open spec fn after_offer(self, now: u64, snapshot: Snapshot) -> (
        SchedulerView,
        Option<StateActions>,
    ) {
        if self.state_clock.due_at(now) {
            (
                self.after_state_tick(now, snapshot).0,
                Some(self.after_state_tick(now, snapshot).1),
            )
        } else {
            (self, None)
        }
    }

    /// The caret's position is followed while the caret marker is visible.
    pub open spec fn tracks_caret(self) -> bool {
        self.caret.enabled && self.caret_active
    }

    /// The pointer's position is followed while the mouse marker is visible.
    pub open spec fn tracks_pointer(self) -> bool {
        self.mouse.enabled && self.mouse_active
    }

    /// The updates of a tracking tick on freshly read positions. The mode is
    /// the one that the last state tick read.
    pub open spec fn tracking_actions(
        self,
        caret: Option<CaretSample>,
        pointer: Option<(i32, i32)>,
    ) -> TrackingActions {
        TrackingActions {
            caret: if self.tracks_caret() && caret.is_some() {
                Some(Signal::Caret(caret).placement(self.mode))
            } else {
                None
            },
            mouse: if self.tracks_pointer() && pointer.is_some() {
                Some(
                    Placement {
                        x: pointer.unwrap().0,
                        y: pointer.unwrap().1,
                        mode: self.mode,
                        extra: 0,
                    },
                )
            } else {
                None
            },
        }
    }
}

/// Visibility state of both indicators and the clock of the state cadence.
pub struct Scheduler {
    caret: IndicatorConfig,
    mouse: IndicatorConfig,
    state_clock: PollClock,
    track_interval: u64,
    mode: Mode,
    caret_active: bool,
    mouse_active: bool,
}

impl View for Scheduler {
    type V = SchedulerView;

    closed spec fn view(&self) -> SchedulerView {
        SchedulerView {
            caret: self.caret,
            mouse: self.mouse,
            state_clock: self.state_clock,
            track_interval: self.track_interval,
            mode: self.mode,
            caret_active: self.caret_active,
            mouse_active: self.mouse_active,
        }
    }
}

impl Scheduler {
    /// A scheduler that starts at `now` with both markers hidden and the mode
    /// taken as alternate until the first state tick reads it.
    pub fn new(
        caret: IndicatorConfig,
        mouse: IndicatorConfig,
        state_interval: u64,
        track_interval: u64,
        now: u64,
    ) -> (scheduler: Scheduler)
        ensures
            scheduler@ == (SchedulerView {
                caret,
                mouse,
                state_clock: PollClock { interval: state_interval, last_fired: now },
                track_interval,
                mode: Mode::Alternate,
                caret_active: false,
                mouse_active: false,
            }),
            scheduler@.consistent(),
    {
        Scheduler {
            caret,
            mouse,
            state_clock: PollClock::new(state_interval, now),
            track_interval,
            mode: Mode::Alternate,
            caret_active: false,
            mouse_active: false,
        }
    }

    /// The scheduler that `config` describes, started at `now`.
    pub fn from_config(config: &Config, now: u64) -> (scheduler: Scheduler)
        ensures
            scheduler@ == (SchedulerView {
                caret: config.caret_indicator_spec(),
                mouse: config.mouse_indicator_spec(),
                state_clock: PollClock {
                    interval: config.poll_state_interval_ms,
                    last_fired: now,
                },
                track_interval: config.poll_track_interval_ms,
                mode: Mode::Alternate,
                caret_active: false,
                mouse_active: false,
            }),
            scheduler@.consistent(),
    {
        Scheduler::new(
            config.caret_indicator(),
            config.mouse_indicator(),
            config.poll_state_interval_ms,
            config.poll_track_interval_ms,
            now,
        )
    }

    /// Whether the state cadence is due at `now`.
    pub fn state_tick_due(&self, now: u64) -> (due: bool)
        ensures
            due == self@.state_clock.due_at(now),
    {
        self.state_clock.due(now)
    }

    /// Offers a state tick at `now`. Where the state cadence is due, both
    /// indicators are evaluated on the one snapshot, the cadence restarts from
    /// `now`, and the actions are returned. Where it is not, nothing changes
    /// and `None` is returned.
    pub fn state_tick(&mut self, now: u64, snapshot: Snapshot) -> (actions: Option<StateActions>)
        ensures
            final(self)@ == old(self)@.after_offer(now, snapshot).0,
            actions == old(self)@.after_offer(now, snapshot).1,
            actions.is_some() == old(self)@.state_clock.due_at(now),
            old(self)@.consistent() || actions.is_some() ==> final(self)@.consistent(),
            actions.is_some() ==> final(self)@.caret_active == should_show(
                old(self)@.caret,
                snapshot.mode,
                snapshot.caret_signal(),
            ),
            actions.is_some() ==> final(self)@.mouse_active == should_show(
                old(self)@.mouse,
                snapshot.mode,
                snapshot.pointer_signal(),
            ),
            actions.is_some() && old(self)@.caret_active ==> actions.unwrap().caret
                != EdgeAction::Show,
            actions.is_some() && !old(self)@.caret_active ==> actions.unwrap().caret
                != EdgeAction::Hide,
            actions.is_some() && old(self)@.mouse_active ==> actions.unwrap().mouse
                != EdgeAction::Show,
            actions.is_some() && !old(self)@.mouse_active ==> actions.unwrap().mouse
                != EdgeAction::Hide,
    {
        if !self.state_clock.due(now) {
            return None;
        }
        let caret_verdict = evaluate(&self.caret, snapshot.mode, Signal::Caret(snapshot.caret));
        let mouse_verdict = evaluate(
            &self.mouse,
            snapshot.mode,
            Signal::Pointer {
                matched: snapshot.pointer_match,
                x: snapshot.pointer_x,
                y: snapshot.pointer_y,
            },
        );
        let (caret_active, caret_action) = apply_edge(self.caret_active, caret_verdict);
        let (mouse_active, mouse_action) = apply_edge(self.mouse_active, mouse_verdict);
        self.mode = snapshot.mode;
        self.caret_active = caret_active;
        self.mouse_active = mouse_active;
        self.state_clock.fire(now);
        Some(StateActions { caret: caret_action, mouse: mouse_action })
    }

    /// Whether a tracking tick needs the caret's position.
    pub fn tracks_caret(&self) -> (tracks: bool)
        ensures
            tracks == self@.tracks_caret(),
    {
        self.caret.enabled && self.caret_active
    }

    /// Whether a tracking tick needs the pointer's position.
    pub fn tracks_pointer(&self) -> (tracks: bool)
        ensures
            tracks == self@.tracks_pointer(),
    {
        self.mouse.enabled && self.mouse_active
    }

    /// Runs a tracking tick: each visible indicator whose position could be
    /// read is moved there. Visibility is not recomputed and nothing changes
    /// in the scheduler.
    pub fn tracking_tick(&self, caret: Option<CaretSample>, pointer: Option<(i32, i32)>) -> (actions:
        TrackingActions)
        ensures
            actions == self@.tracking_actions(caret, pointer),
    {
        let caret_update = match caret {
            Some(sample) if self.caret.enabled && self.caret_active => Some(
                Placement { x: sample.x, y: sample.y, mode: self.mode, extra: sample.height },
            ),
            _ => None,
        };
        let mouse_update = match pointer {
            Some(position) if self.mouse.enabled && self.mouse_active => Some(
                Placement { x: position.0, y: position.1, mode: self.mode, extra: 0 },
            ),
            _ => None,
        };
        TrackingActions { caret: caret_update, mouse: mouse_update }
    }

    /// How long the caller sleeps between two tracking ticks, in milliseconds.
    pub fn track_interval(&self) -> (interval: u64)
        ensures
            interval == self@.track_interval,
    {
        self.track_interval
    }

    /// The interval of the state cadence, in milliseconds.
    pub fn state_interval(&self) -> (interval: u64)
        ensures
            interval == self@.state_clock.interval,
    {
        self.state_clock.interval
    }

    /// The mode that the last state tick read.
    pub fn mode(&self) -> (mode: Mode)
        ensures
            mode == self@.mode,
    {
        self.mode
    }

    /// Whether the caret marker is showing.
    pub fn caret_active(&self) -> (active: bool)
        ensures
            active == self@.caret_active,
    {
        self.caret_active
    }

    /// Whether the mouse marker is showing.
    pub fn mouse_active(&self) -> (active: bool)
        ensures
            active == self@.mouse_active,
    {
        self.mouse_active
    }
}

/// However long the scheduler was stalled, one state tick answers it: once
/// the tick has run at `now`, every further offer before `now` plus the
/// interval is refused and changes nothing.
pub proof fn lemma_one_tick_after_stall(
    state: SchedulerView,
    now: u64,
    later: u64,
    snapshot: Snapshot,
    again: Snapshot,
)
    requires
        state.state_clock.interval > 0,
        state.state_clock.due_at(now),
        later < now + state.state_clock.interval,
    ensures
        state.after_offer(now, snapshot).1.is_some(),
        state.after_offer(now, snapshot).0.after_offer(later, again) == (
            state.after_offer(now, snapshot).0,
            None::<StateActions>,
        ),
{
}

/// Between two state ticks only positions move: a tracking tick inside the
/// window after a state tick gives one update for each visible marker whose
/// position could be read, under the mode of that state tick, while every
/// state tick offered inside the window shows and hides nothing.
pub proof fn lemma_tracking_window(
    state: SchedulerView,
    now: u64,
    snapshot: Snapshot,
    later: u64,
    caret: CaretSample,
    pointer: (i32, i32),
)
    requires
        state.state_clock.interval > 0,
        state.state_clock.due_at(now),
        later < now + state.state_clock.interval,
    ensures
        ({
            let ticked = state.after_offer(now, snapshot).0;
            let updates = ticked.tracking_actions(Some(caret), Some(pointer));
            &&& ticked.after_offer(later, snapshot).1.is_none()
            &&& ticked.mode == snapshot.mode
            &&& ticked.consistent()
            &&& ticked.caret_active ==> updates.caret == Some(
                Placement { x: caret.x, y: caret.y, mode: snapshot.mode, extra: caret.height },
            )
            &&& ticked.mouse_active ==> updates.mouse == Some(
                Placement { x: pointer.0, y: pointer.1, mode: snapshot.mode, extra: 0 },
            )
            &&& !ticked.caret_active ==> updates.caret.is_none()
            &&& !ticked.mouse_active ==> updates.mouse.is_none()
        }),
{
}

/// A second state tick on the same snapshot emits nothing: show and hide are
/// sent on changes of visibility only.
pub proof fn lemma_state_tick_settles(state: SchedulerView, now: u64, later: u64, snapshot: Snapshot)
    ensures
        state.after_state_tick(now, snapshot).0.after_state_tick(later, snapshot).1 == (
        StateActions { caret: EdgeAction::Unchanged, mouse: EdgeAction::Unchanged }),
        state.after_state_tick(now, snapshot).0.consistent(),
{
}

} // verus!
