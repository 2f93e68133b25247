//! Pacing of the window's redraws and of the simulation loop. Times and
//! durations are whole nanoseconds on one monotonic clock.
use vstd::prelude::*;

verus! {

/// The time at which the window next wants to be redrawn.
#[derive(Clone, Copy, Debug, PartialEq, Eq, Structural)]
pub struct RedrawTimer {
    pub render_target: u64,
}

impl RedrawTimer {
    /// A timer whose first redraw is due at `now`.
    pub fn new(now: u64) -> (timer: Self)
        ensures
            timer.render_target == now,
    {
        RedrawTimer { render_target: now }
    }

    /// Called when the window has just been redrawn at `now`. When the
    /// target has been reached, the next redraw is set one frame time after
    /// `now` and a redraw is requested.
    pub fn after_redraw(&mut self, now: u64, frame_time: u64) -> (request_redraw: bool)
        requires
            old(self).render_target <= now ==> now + frame_time <= u64::MAX,
        ensures
            request_redraw == (old(self).render_target <= now),
            request_redraw ==> final(self).render_target == now + frame_time,
            !request_redraw ==> final(self).render_target == old(self).render_target,
            final(self).render_target >= old(self).render_target,
    {
        if self.render_target <= now {
            self.render_target = now + frame_time;
            true
        } else {
            false
        }
    }

    /// Called when new events arrive at `now`. When the target has been
    /// reached, it moves on by one frame time and a redraw is due.
    pub fn new_events(&mut self, now: u64, frame_time: u64) -> (redraw_due: bool)
        requires
            old(self).render_target <= now ==> old(self).render_target + frame_time <= u64::MAX,
        ensures
            redraw_due == (old(self).render_target <= now),
            redraw_due ==> final(self).render_target == old(self).render_target + frame_time,
            !redraw_due ==> final(self).render_target == old(self).render_target,
            final(self).render_target >= old(self).render_target,
    {
        if self.render_target <= now {
            self.render_target = self.render_target + frame_time;
            true
        } else {
            false
        }
    }
}

/// Whether a frame drawn at `last_draw` is to be followed by a new one at
/// `now`: at least `period` has passed since.
pub fn draw_due(last_draw: u64, period: u64, now: u64) -> (due: bool)
    ensures
        due == (last_draw + period <= now),
{
    if now < last_draw {
        false
    } else {
        now - last_draw >= period
    }
}

/// How long the simulation loop sleeps after a step that took `processing`
/// out of a step budget of `budget`: the rest of the budget, or nothing when
/// the step overran its budget.
pub fn sleep_time(processing: u64, budget: u64) -> (sleep: Option<u64>)
    ensures
        processing <= budget ==> sleep == Some((budget - processing) as u64),
        processing > budget ==> sleep is None,
{
    if processing <= budget {
        Some(budget - processing)
    } else {
        None
    }
}

} // verus!
