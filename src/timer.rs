//! The activity state: current mode, accumulated sitting or treadmill time,
//! AFK flag and configured thresholds, with its transitions.
use vstd::prelude::*;
use crate::stage::{Stage, classify, stage_of};
use crate::settings::{DEFAULT_AFK_THRESHOLD_MIN, DEFAULT_WARN_AT_MIN, DEFAULT_SHAKE_AT_MIN};

verus! {

/// The activity being timed; exactly one is current.
#[derive(Debug, Clone, Copy, PartialEq, Eq, Structural)]
pub enum Mode {
    Sitting,
    Treadmill,
}

impl Mode {
    /// The mode's name as shown to observers.
    pub open spec fn name(self) -> Seq<char> {
        match self {
            Mode::Sitting => "Sitting"@,
            Mode::Treadmill => "Treadmill"@,
        }
    }

    pub fn as_str(&self) -> (r: &'static str)
        ensures
            r@ == self.name(),
    {
        match self {
            Mode::Sitting => "Sitting",
            Mode::Treadmill => "Treadmill",
        }
    }
}

/// The mutable record of what is being timed.
#[derive(Debug, Clone)]
pub struct TimerState {
    pub mode: Mode,
    /// Seconds accumulated in the current mode while not AFK.
    pub elapsed_s: u64,
    /// Unix time at which the current treadmill session started.
    pub treadmill_start: Option<i64>,
    /// Sitting time carried over from before the last transition.
    pub sitting_before_s: u64,
    pub is_afk: bool,
    /// Idle seconds from which the user counts as AFK.
    pub afk_threshold_s: u64,
    pub warn_at_min: u64,
    pub shake_at_min: u64,
}

/// Payload published to observers on every tick.
#[derive(Debug, Clone)]
pub struct TimerTickPayload {
    pub mode: String,
    pub elapsed_s: u64,
    pub stage: String,
    pub is_afk: bool,
    pub is_treadmill: bool,
}

impl TimerTickPayload {
    /// The payload reports the state `t`.
    pub open spec fn describes(self, t: TimerState) -> bool {
        &&& self.mode@ == t.mode.name()
        &&& self.elapsed_s == t.elapsed_s
        &&& self.stage@ == t.stage().color()
        &&& self.is_afk == t.is_afk
        &&& self.is_treadmill == (t.mode == Mode::Treadmill)
    }
}

impl TimerState {
    /// A treadmill start time is held exactly while on the treadmill.
    pub open spec fn wf(self) -> bool {
        self.treadmill_start.is_some() <==> self.mode == Mode::Treadmill
    }

    /// The current stage under the configured thresholds.
    pub open spec fn stage(self) -> Stage {
        stage_of(self.elapsed_s as int, self.warn_at_min as int, self.shake_at_min as int)
    }

    /// The state after one tick that observed `idle_s` idle seconds.
    pub open spec fn ticked(self, idle_s: u64) -> TimerState {
        let afk = idle_s >= self.afk_threshold_s;
        TimerState {
            is_afk: afk,
            elapsed_s: if afk { self.elapsed_s } else { (self.elapsed_s + 1) as u64 },
            ..self
        }
    }

    /// The state after a completed sitting session.
    pub open spec fn after_reset(self) -> TimerState {
        TimerState {
            sitting_before_s: self.elapsed_s,
            elapsed_s: 0,
            mode: Mode::Sitting,
            treadmill_start: None,
            ..self
        }
    }

    /// The state after a treadmill session starts at `now`.
    pub open spec fn treadmill_started(self, now: i64) -> TimerState {
        TimerState {
            sitting_before_s: self.elapsed_s,
            elapsed_s: 0,
            mode: Mode::Treadmill,
            treadmill_start: Some(now),
            ..self
        }
    }

    /// The state after a treadmill session stops.
    pub open spec fn treadmill_stopped(self) -> TimerState {
        TimerState {
            elapsed_s: 0,
            mode: Mode::Sitting,
            treadmill_start: None,
            sitting_before_s: 0,
            ..self
        }
    }

    /// What stopping the treadmill at `now` reports: start time (`now` if
    /// none was recorded), duration in seconds, and sitting time before.
    pub open spec fn stop_report(self, now: i64) -> (i64, u64, u64) {
        (
            match self.treadmill_start {
                Some(t) => t,
                None => now,
            },
            self.elapsed_s,
            self.sitting_before_s,
        )
    }

    /// A fresh state: sitting, nothing elapsed, under the default
    /// thresholds of the stored settings.
    pub fn new() -> (r: Self)
        ensures
            r.wf(),
            r.mode == Mode::Sitting,
            r.elapsed_s == 0,
            r.treadmill_start.is_none(),
            r.sitting_before_s == 0,
            !r.is_afk,
            r.afk_threshold_s == DEFAULT_AFK_THRESHOLD_MIN * 60,
            r.warn_at_min == DEFAULT_WARN_AT_MIN,
            r.shake_at_min == DEFAULT_SHAKE_AT_MIN,
    {
        TimerState {
            mode: Mode::Sitting,
            elapsed_s: 0,
            treadmill_start: None,
            sitting_before_s: 0,
            is_afk: false,
            afk_threshold_s: DEFAULT_AFK_THRESHOLD_MIN * 60,
            warn_at_min: DEFAULT_WARN_AT_MIN,
            shake_at_min: DEFAULT_SHAKE_AT_MIN,
        }
    }

    pub fn calculate_stage(&self) -> (r: Stage)
        ensures
            r == self.stage(),
    {
        classify(self.elapsed_s, self.warn_at_min, self.shake_at_min)
    }

    /// Advances time by one interval in which the user had been idle for
    /// `idle_s` seconds; returns whether the AFK flag changed.
    pub fn tick(&mut self, idle_s: u64) -> (changed: bool)
        requires
            old(self).elapsed_s < u64::MAX,
        ensures
            *final(self) == old(self).ticked(idle_s),
            final(self).is_afk == (idle_s >= old(self).afk_threshold_s),
            idle_s >= old(self).afk_threshold_s ==> final(self).elapsed_s == old(self).elapsed_s,
            idle_s < old(self).afk_threshold_s ==> final(self).elapsed_s == old(self).elapsed_s + 1,
            changed == (old(self).is_afk != final(self).is_afk),
            old(self).wf() ==> final(self).wf(),
    {
        let was_afk = self.is_afk;
        self.is_afk = idle_s >= self.afk_threshold_s;
        if !self.is_afk {
            self.elapsed_s = self.elapsed_s + 1;
        }
        was_afk != self.is_afk
    }

    /// Ends a sitting session, whatever the current mode.
    pub fn reset(&mut self)
        ensures
            *final(self) == old(self).after_reset(),
            final(self).elapsed_s == 0,
            final(self).mode == Mode::Sitting,
            final(self).sitting_before_s == old(self).elapsed_s,
            final(self).wf(),
    {
        self.sitting_before_s = self.elapsed_s;
        self.elapsed_s = 0;
        self.mode = Mode::Sitting;
        self.treadmill_start = None;
    }

    /// Starts a treadmill session at Unix time `now`. Calling it while a
    /// session runs starts a new one: the earlier start time is replaced.
    pub fn start_treadmill(&mut self, now: i64)
        ensures
            *final(self) == old(self).treadmill_started(now),
            final(self).wf(),
    {
        self.sitting_before_s = self.elapsed_s;
        self.elapsed_s = 0;
        self.mode = Mode::Treadmill;
        self.treadmill_start = Some(now);
    }

    /// Stops the treadmill session at Unix time `now`, returning its start
    /// time, duration and the sitting time before it.
    pub fn stop_treadmill(&mut self, now: i64) -> (r: (i64, u64, u64))
        ensures
            r == old(self).stop_report(now),
            *final(self) == old(self).treadmill_stopped(),
            final(self).wf(),
    {
        let started = match self.treadmill_start {
            Some(t) => t,
            None => now,
        };
        let duration = self.elapsed_s;
        let sitting_before = self.sitting_before_s;
        self.elapsed_s = 0;
        self.mode = Mode::Sitting;
        self.treadmill_start = None;
        self.sitting_before_s = 0;
        (started, duration, sitting_before)
    }

    /// Replaces the thresholds; elapsed time is not reinterpreted.
    pub fn apply_config(&mut self, afk_threshold_s: u64, warn_at_min: u64, shake_at_min: u64)
        ensures
            *final(self) == (TimerState {
                afk_threshold_s,
                warn_at_min,
                shake_at_min,
                ..*old(self)
            }),
    {
        self.afk_threshold_s = afk_threshold_s;
        self.warn_at_min = warn_at_min;
        self.shake_at_min = shake_at_min;
    }

    /// The payload that reports this state.
    pub fn tick_payload(&self) -> (r: TimerTickPayload)
        ensures
            r.describes(*self),
    {
        let stage = self.calculate_stage();
        TimerTickPayload {
            mode: self.mode.as_str().to_owned(),
            elapsed_s: self.elapsed_s,
            stage: stage.as_str().to_owned(),
            is_afk: self.is_afk,
            is_treadmill: self.mode == Mode::Treadmill,
        }
    }
}

/// The state after a run of ticks, one for each idle reading in `idles`, in order.
pub open spec fn ticks_applied(s: TimerState, idles: Seq<u64>) -> TimerState
    decreases idles.len(),
{
    if idles.len() == 0 {
        s
    } else {
        ticks_applied(s, idles.drop_last()).ticked(idles.last())
    }
}

/// How many of the idle readings `idles` fall below the AFK threshold.
pub open spec fn active_ticks(idles: Seq<u64>, afk_threshold_s: u64) -> nat
    decreases idles.len(),
{
    if idles.len() == 0 {
        0
    } else {
        active_ticks(idles.drop_last(), afk_threshold_s) + if idles.last() < afk_threshold_s {
            1nat
        } else {
            0nat
        }
    }
}

proof fn lemma_ticks_from_zero(s: TimerState, idles: Seq<u64>)
    requires
        s.elapsed_s == 0,
        idles.len() < u64::MAX,
    ensures
        ticks_applied(s, idles).elapsed_s == active_ticks(idles, s.afk_threshold_s),
        active_ticks(idles, s.afk_threshold_s) <= idles.len(),
        ticks_applied(s, idles).afk_threshold_s == s.afk_threshold_s,
        ticks_applied(s, idles).treadmill_start == s.treadmill_start,
        ticks_applied(s, idles).sitting_before_s == s.sitting_before_s,
    decreases idles.len(),
{
    if idles.len() > 0 {
        lemma_ticks_from_zero(s, idles.drop_last());
    }
}

/// Timing a treadmill session: after a start at `started_at`, any run of
/// ticks, and a stop at `stopped_at`, the reported duration is the number of
/// ticks that were not AFK, the start time is `started_at`, and the sitting
/// time before is the elapsed time at the start.
pub proof fn lemma_treadmill_duration_counts_active_ticks(
    s: TimerState,
    started_at: i64,
    idles: Seq<u64>,
    stopped_at: i64,
)
    requires
        idles.len() < u64::MAX,
    ensures
        ticks_applied(s.treadmill_started(started_at), idles).stop_report(stopped_at) == (
            started_at,
            active_ticks(idles, s.afk_threshold_s) as u64,
            s.elapsed_s,
        ),
{
    lemma_ticks_from_zero(s.treadmill_started(started_at), idles);
}

} // verus!
