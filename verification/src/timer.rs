//! Model of the low-power compare-match timer and its two entry points:
//! the timer arming task and the timer interrupt handler.
//!
//! The peripheral counts one tick per millisecond.  It is idle exactly
//! when its remaining count is zero; arming while a countdown is running
//! is rejected and leaves the running countdown untouched, so at most one
//! timer is ever armed.  When a countdown reaches zero the compare-match
//! flag is raised, which on hardware raises the timer interrupt.

use vstd::prelude::*;

use crate::events::Event;

verus! {

/// The single-shot countdown timer.
///
/// `remaining` is the current count (0 means idle); `compare_match` is
/// the interrupt flag raised when a countdown expires, cleared by the
/// interrupt handler.
#[derive(Debug, Clone, Copy, PartialEq, Eq, Structural)]
pub struct LpTimer {
    pub remaining: u16,
    pub compare_match: bool,
}

impl LpTimer {
    /// The timer is armed exactly when a countdown is in progress.
    pub open spec fn is_armed(self) -> bool {
        self.remaining != 0
    }

    /// What arming does: accepted only when idle; a running countdown is
    /// never altered by a second request.
    pub open spec fn spec_arm(self, ticks: u16) -> (LpTimer, bool) {
        if self.remaining != 0 {
            (self, false)
        } else {
            (LpTimer { remaining: ticks, compare_match: self.compare_match }, true)
        }
    }

    /// What one hardware tick does: an idle timer is unchanged; a running
    /// countdown decreases by one and raises the compare-match flag when
    /// it reaches zero.  The second component says whether the flag was
    /// raised by this tick.
    pub open spec fn spec_tick(self) -> (LpTimer, bool) {
        if self.remaining == 0 {
            (self, false)
        } else if self.remaining == 1 {
            (LpTimer { remaining: 0, compare_match: true }, true)
        } else {
            (LpTimer { remaining: (self.remaining - 1) as u16, compare_match: self.compare_match }, false)
        }
    }

    /// The timer state and the number of compare-match expiries after `k`
    /// hardware ticks.
    pub open spec fn spec_run_ticks(self, k: nat) -> (LpTimer, nat)
        decreases k,
    {
        if k == 0 {
            (self, 0)
        } else {
            let (stepped, fired) = self.spec_tick();
            let (rest, fires) = stepped.spec_run_ticks((k - 1) as nat);
            (rest, fires + if fired { 1nat } else { 0nat })
        }
    }

    /// A fresh, idle timer with no pending interrupt.
    pub fn new() -> (t: LpTimer)
        ensures
            t.remaining == 0,
            !t.compare_match,
    {
        LpTimer { remaining: 0, compare_match: false }
    }

    /// Current count of the countdown; zero means idle.
    pub fn cnt(&self) -> (c: u16)
        ensures
            c == self.remaining,
    {
        self.remaining
    }

    /// The timer arming task: arm a single-shot countdown of `ticks`
    /// milliseconds.
    ///
    /// If the timer is already running the request is a conflict: it is
    /// rejected and the in-flight countdown is left untouched (the last
    /// request always loses to an already-armed timer; nothing is
    /// queued).  On hardware this runs under a priority-ceiling lock on
    /// the timer handle.
    pub fn arm(&mut self, ticks: u16) -> (accepted: bool)
        ensures
            (*final(self), accepted) == old(self).spec_arm(ticks),
            accepted <==> !old(self).is_armed(),
            !accepted ==> *final(self) == *old(self),
    {
        if self.remaining != 0 {
            false
        } else {
            self.remaining = ticks;
            true
        }
    }

    /// Advance the countdown by one hardware tick (the peripheral model;
    /// a host harness calls this where the clock would).
    ///
    /// Returns true exactly when this tick made the countdown expire and
    /// raised the compare-match flag.
    pub fn tick(&mut self) -> (fired: bool)
        ensures
            (*final(self), fired) == old(self).spec_tick(),
            fired <==> old(self).remaining == 1,
            final(self).remaining == if old(self).remaining == 0 { 0u16 } else { (old(self).remaining - 1) as u16 },
    {
        if self.remaining == 0 {
            false
        } else if self.remaining == 1 {
            self.remaining = 0;
            self.compare_match = true;
            true
        } else {
            self.remaining = self.remaining - 1;
            false
        }
    }

    /// Clear the compare-match interrupt flag.
    pub fn clear_compare_irq(&mut self)
        ensures
            !final(self).compare_match,
            final(self).remaining == old(self).remaining,
    {
        self.compare_match = false;
    }
}

/// The timer interrupt handler: acknowledge the compare-match interrupt
/// and translate it into a `TimeoutFired` event for the event dispatch
/// task.  It performs no protocol logic.
pub fn timer_irq(timer: &mut LpTimer) -> (e: Event)
    ensures
        e == Event::TimeoutFired,
        !final(timer).compare_match,
        final(timer).remaining == old(timer).remaining,
{
    timer.clear_compare_irq();
    Event::TimeoutFired
}

/// At most one countdown is ever in flight: an arm request that finds
/// the timer running is rejected outright and does not alter the running
/// countdown's remaining count or its interrupt flag.
pub proof fn lemma_arm_conflict_preserves_countdown(t: LpTimer, ticks: u16)
    requires
        t.is_armed(),
    ensures
        !t.spec_arm(ticks).1,
        t.spec_arm(ticks).0 == t,
{
}

/// Arming an idle timer for `n > 0` ticks and then running exactly `n`
/// hardware ticks raises the compare-match interrupt exactly once and
/// returns the timer to idle (count back to zero).
pub proof fn lemma_timer_round_trip(t: LpTimer, n: u16)
    requires
        !t.is_armed(),
        n > 0,
    ensures
        t.spec_arm(n).1,
        t.spec_arm(n).0.spec_run_ticks(n as nat) == (
            LpTimer { remaining: 0, compare_match: true },
            1nat,
        ),
{
    let armed = t.spec_arm(n).0;
    lemma_countdown_runs_out(armed, n as nat);
}

/// A timer whose remaining count is `k > 0` expires exactly once over the
/// next `k` ticks and ends idle with the compare-match flag raised.
proof fn lemma_countdown_runs_out(t: LpTimer, k: nat)
    requires
        t.remaining == k,
        k > 0,
    ensures
        t.spec_run_ticks(k) == (LpTimer { remaining: 0, compare_match: true }, 1nat),
    decreases k,
{
    if k == 1 {
        let (stepped, fired) = t.spec_tick();
        assert(stepped.spec_run_ticks(0) == (stepped, 0nat));
    } else {
        let (stepped, fired) = t.spec_tick();
        lemma_countdown_runs_out(stepped, (k - 1) as nat);
    }
}

} // verus!
