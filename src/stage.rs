//! Urgency stages and the classifier from elapsed time to stage.
use vstd::prelude::*;

verus! {

/// Ordered urgency classification of continuous sitting time.
#[derive(Debug, Clone, Copy, PartialEq, Eq, Structural, PartialOrd, Ord)]
pub enum Stage {
    Green,
    Yellow,
    Orange,
    Red,
    Critical,
}

impl Stage {
    /// Position of the stage in the urgency order, `Green` lowest.
    pub open spec fn rank(self) -> nat {
        match self {
            Stage::Green => 0,
            Stage::Yellow => 1,
            Stage::Orange => 2,
            Stage::Red => 3,
            Stage::Critical => 4,
        }
    }

    /// Presentation color of the stage; `Red` and `Critical` share one.
    pub open spec fn color(self) -> Seq<char> {
        match self {
            Stage::Green => "green"@,
            Stage::Yellow => "yellow"@,
            Stage::Orange => "orange"@,
            Stage::Red => "red"@,
            Stage::Critical => "red"@,
        }
    }

    /// The color name under which the stage is presented.
    pub fn as_str(&self) -> (r: &'static str)
        ensures
            r@ == self.color(),
    {
        match self {
            Stage::Green => "green",
            Stage::Yellow => "yellow",
            Stage::Orange => "orange",
            Stage::Red => "red",
            Stage::Critical => "red",
        }
    }
}

/// The minute at which `Orange` begins: halfway from `warn` to `shake`,
/// never below `warn` even when the thresholds are inverted.
pub open spec fn orange_from(warn_at_min: int, shake_at_min: int) -> int {
    if shake_at_min >= warn_at_min {
        warn_at_min + (shake_at_min - warn_at_min) / 2
    } else {
        warn_at_min
    }
}

/// Minutes past `shake` at which `Red` escalates to `Critical`.
pub const CRITICAL_AFTER_SHAKE_MIN: u64 = 15;

/// The stage for `elapsed_s` seconds of sitting under the given minute thresholds.
pub open spec fn stage_of(elapsed_s: int, warn_at_min: int, shake_at_min: int) -> Stage {
    let minutes = elapsed_s / 60;
    if minutes < warn_at_min {
        Stage::Green
    } else if minutes < orange_from(warn_at_min, shake_at_min) {
        Stage::Yellow
    } else if minutes < shake_at_min {
        Stage::Orange
    } else if minutes < shake_at_min + CRITICAL_AFTER_SHAKE_MIN {
        Stage::Red
    } else {
        Stage::Critical
    }
}

/// Classifies `elapsed_s` seconds of sitting against the warn and shake
/// thresholds, given in minutes.
pub fn classify(elapsed_s: u64, warn_at_min: u64, shake_at_min: u64) -> (r: Stage)
    ensures
        r == stage_of(elapsed_s as int, warn_at_min as int, shake_at_min as int),
{
    let minutes = elapsed_s / 60;
    let mid: u64 = if shake_at_min >= warn_at_min {
        warn_at_min + (shake_at_min - warn_at_min) / 2
    } else {
        warn_at_min
    };
    if minutes < warn_at_min {
        Stage::Green
    } else if minutes < mid {
        Stage::Yellow
    } else if minutes < shake_at_min {
        Stage::Orange
    } else if minutes - shake_at_min < CRITICAL_AFTER_SHAKE_MIN {
        Stage::Red
    } else {
        Stage::Critical
    }
}

/// With the thresholds held fixed, the stage never regresses as sitting time
/// grows.
pub proof fn lemma_classify_monotone(e1: u64, e2: u64, warn_at_min: u64, shake_at_min: u64)
    requires
        e1 <= e2,
    ensures
        stage_of(e1 as int, warn_at_min as int, shake_at_min as int).rank()
            <= stage_of(e2 as int, warn_at_min as int, shake_at_min as int).rank(),
{
    assert(e1 as int / 60 <= e2 as int / 60) by (nonlinear_arith)
        requires e1 <= e2;
}

} // verus!
