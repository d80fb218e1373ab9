//! The exploration schedule: epsilon falls linearly from its start value to
//! its end value over a number of steps, then stays at the end value.
use vstd::prelude::*;

verus! {

/// Where a step stands in the schedule.
#[derive(Clone, Copy, Debug, PartialEq, Eq, Structural)]
pub enum SchedulePoint {
    /// Epsilon is `start + (end - start) * step / total`.
    Between { step: u32, total: u32 },
    /// Epsilon is `end`.
    End,
}

/// The point of `step` in a schedule of `total` steps.
pub open spec fn schedule_point(step: u32, total: u32) -> SchedulePoint {
    if step >= total {
        SchedulePoint::End
    } else {
        SchedulePoint::Between { step, total }
    }
}

/// The share of the way from start to end, as numerator and denominator.
pub open spec fn progress(p: SchedulePoint) -> (int, int) {
    match p {
        SchedulePoint::Between { step, total } => (step as int, total as int),
        SchedulePoint::End => (1, 1),
    }
}

/// Locates `step` in a schedule of `total_steps` steps.
pub fn exploration_point(step: u32, total_steps: u32) -> (r: SchedulePoint)
    ensures
        r == schedule_point(step, total_steps),
{
    if step >= total_steps {
        SchedulePoint::End
    } else {
        SchedulePoint::Between { step, total: total_steps }
    }
}

/// The schedule starts at its start value, reaches its end value at the last
/// step and stays there, and moves monotonically from one to the other.
pub proof fn lemma_schedule_shape(s1: u32, s2: u32, total: u32)
    requires
        total > 0,
    ensures
        progress(schedule_point(0, total)) == (0int, total as int),
        progress(schedule_point(total, total)) == (1int, 1int),
        s1 > total ==> schedule_point(s1, total) == SchedulePoint::End,
        progress(schedule_point(s1, total)).1 > 0,
        s1 <= s2 ==> progress(schedule_point(s1, total)).0 * progress(schedule_point(s2, total)).1
            <= progress(schedule_point(s2, total)).0 * progress(schedule_point(s1, total)).1,
{
    if s1 <= s2 && s2 < total {
        assert((s1 as int) * (total as int) <= (s2 as int) * (total as int)) by (nonlinear_arith)
            requires s1 <= s2;
    }
}

} // verus!
