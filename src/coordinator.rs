//! The decisions of one tick of the periodic driver: update the state from
//! the idle reading, recompute the stage, and decide what observers and the
//! usage log must be told.
use vstd::prelude::*;
use crate::stage::Stage;
use crate::timer::{TimerState, TimerTickPayload};

verus! {

/// The activity state together with what observers last saw of it.
#[derive(Debug, Clone)]
pub struct Coordinator {
    pub timer: TimerState,
    /// The stage at the last indicator update; `None` before the first.
    pub last_stage: Option<Stage>,
}

/// What one tick asks of the outside world.
#[derive(Debug, Clone)]
pub struct TickOutcome {
    /// The stage after the tick.
    pub stage: Stage,
    /// Whether the indicator must be redrawn for `stage`.
    pub render: bool,
    /// The heartbeat published on every tick.
    pub payload: TimerTickPayload,
    /// Seconds of active use to add to today's usage.
    pub active_delta_s: u64,
    /// Seconds of AFK time to add to today's usage.
    pub afk_delta_s: u64,
}

impl Coordinator {
    /// Whether a tick with `idle_s` idle seconds redraws the indicator: the
    /// stage or the AFK flag after it differs from what was last observed.
    pub open spec fn renders(self, idle_s: u64) -> bool {
        let next = self.timer.ticked(idle_s);
        self.last_stage != Some(next.stage()) || self.timer.is_afk != next.is_afk
    }

    /// The coordinator after a tick with `idle_s` idle seconds.
    pub open spec fn ticked(self, idle_s: u64) -> Coordinator {
        let next = self.timer.ticked(idle_s);
        Coordinator { timer: next, last_stage: Some(next.stage()) }
    }

    pub fn new(timer: TimerState) -> (r: Self)
        ensures
            r.timer == timer,
            r.last_stage.is_none(),
    {
        Coordinator { timer, last_stage: None }
    }

    /// One interval of the driver, in which the user had been idle for
    /// `idle_s` seconds. The indicator is redrawn exactly when the stage or
    /// the AFK flag differs from what was last observed.
    pub fn on_tick(&mut self, idle_s: u64) -> (r: TickOutcome)
        requires
            old(self).timer.elapsed_s < u64::MAX,
        ensures
            *final(self) == old(self).ticked(idle_s),
            final(self).timer == old(self).timer.ticked(idle_s),
            idle_s >= old(self).timer.afk_threshold_s ==> final(self).timer.elapsed_s
                == old(self).timer.elapsed_s && final(self).timer.is_afk,
            idle_s < old(self).timer.afk_threshold_s ==> final(self).timer.elapsed_s
                == old(self).timer.elapsed_s + 1 && !final(self).timer.is_afk,
            r.stage == final(self).timer.stage(),
            r.render == old(self).renders(idle_s),
            r.render == (old(self).last_stage != Some(r.stage) || old(self).timer.is_afk
                != final(self).timer.is_afk),
            final(self).last_stage == Some(r.stage),
            r.payload.describes(final(self).timer),
            r.active_delta_s == (if final(self).timer.is_afk { 0u64 } else { 1u64 }),
            r.afk_delta_s == (if final(self).timer.is_afk { 1u64 } else { 0u64 }),
    {
        let afk_changed = self.timer.tick(idle_s);
        let stage = self.timer.calculate_stage();
        let stage_changed = match self.last_stage {
            Some(s) => s != stage,
            None => true,
        };
        let render = stage_changed || afk_changed;
        if render {
            self.last_stage = Some(stage);
        }
        let payload = self.timer.tick_payload();
        let is_afk = self.timer.is_afk;
        TickOutcome {
            stage,
            render,
            payload,
            active_delta_s: if is_afk { 0 } else { 1 },
            afk_delta_s: if is_afk { 1 } else { 0 },
        }
    }
}

/// Between two consecutive ticks the indicator is redrawn exactly when the
/// pair (stage, AFK flag) observed after the second differs from the pair
/// observed after the first.
pub proof fn lemma_render_iff_observed_pair_changes(c: Coordinator, first_idle_s: u64, idle_s: u64)
    ensures
        c.ticked(first_idle_s).renders(idle_s) == ((c.ticked(first_idle_s).timer.stage(),
            c.ticked(first_idle_s).timer.is_afk) != (c.ticked(first_idle_s).ticked(idle_s).timer.stage(),
            c.ticked(first_idle_s).ticked(idle_s).timer.is_afk)),
{
}

/// The pair (stage, AFK flag) that observers see of `c`.
pub open spec fn observed(c: Coordinator) -> (Stage, bool) {
    (c.timer.stage(), c.timer.is_afk)
}

/// The coordinator after one tick for each idle reading in `idles`, in order.
pub open spec fn run_ticks(c: Coordinator, idles: Seq<u64>) -> Coordinator
    decreases idles.len(),
{
    if idles.len() == 0 {
        c
    } else {
        run_ticks(c, idles.drop_last()).ticked(idles.last())
    }
}

/// Over any scripted run of ticks, the tick at position `i > 0` redraws the
/// indicator exactly when the observed pair after it differs from the
/// observed pair after the tick before it.
pub proof fn lemma_run_renders_iff_observed_pair_changes(c: Coordinator, idles: Seq<u64>, i: int)
    requires
        0 < i < idles.len(),
    ensures
        run_ticks(c, idles.take(i)).renders(idles[i]) == (observed(run_ticks(c, idles.take(i)))
            != observed(run_ticks(c, idles.take(i + 1)))),
{
    assert(idles.take(i + 1).drop_last() =~= idles.take(i));
    assert(idles.take(i).drop_last() =~= idles.take(i - 1));
    let prev = run_ticks(c, idles.take(i - 1));
    lemma_render_iff_observed_pair_changes(prev, idles[i - 1], idles[i]);
}

} // verus!
