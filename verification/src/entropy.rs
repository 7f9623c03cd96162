//! Models of the entropy source peripheral and of the clock control that
//! gates it.
//!
//! The entropy source supplies 32-bit values on demand and may fail; on
//! failure a fixed fallback constant is returned.  That fallback is an
//! explicit, documented weakness of the design, not a hidden one: a
//! production build would not ship it.

use vstd::prelude::*;

verus! {

/// The value handed out when the entropy source fails.
pub const ENTROPY_FALLBACK: u32 = 0xFAFA_FAFA;

/// Clock and power control for the entropy source.
///
/// On hardware this is the reset-and-clock-control block; here only the
/// one gate the core touches is modeled.  Access runs under a
/// priority-ceiling lock on the handle.
#[derive(Debug, Clone, Copy, PartialEq, Eq, Structural)]
pub struct ClockControl {
    pub entropy_clock_enabled: bool,
}

impl ClockControl {
    /// Clock control as it stands after reset: the entropy clock is off.
    pub fn new() -> (c: ClockControl)
        ensures
            !c.entropy_clock_enabled,
    {
        ClockControl { entropy_clock_enabled: false }
    }

    /// Enable the entropy source's peripheral clock.
    pub fn enable_entropy_clock(&mut self)
        ensures
            final(self).entropy_clock_enabled,
    {
        self.entropy_clock_enabled = true;
    }
}

/// The entropy source peripheral.
///
/// The model is a scripted stream: `values` holds the words the hardware
/// will produce next, newest last.  An exhausted stream models the
/// peripheral failing, in which case the fixed fallback constant is
/// returned instead.
#[derive(Debug, Clone, PartialEq)]
pub struct EntropySource {
    pub values: Vec<u32>,
}

impl EntropySource {
    /// The word the next draw returns: the first scripted value, or the
    /// fallback constant once the source fails.
    pub open spec fn spec_draw_value(self) -> u32 {
        if self.values@.len() == 0 {
            ENTROPY_FALLBACK
        } else {
            self.values@[0]
        }
    }

    /// The scripted stream as it stands after one draw.
    pub open spec fn spec_rest_values(self) -> Seq<u32> {
        if self.values@.len() == 0 {
            self.values@
        } else {
            self.values@.drop_first()
        }
    }

    /// A source scripted to produce `values` in order, then fail.
    pub fn new(values: Vec<u32>) -> (s: EntropySource)
        ensures
            s.values == values,
    {
        EntropySource { values }
    }

    /// Draw one random 32-bit word.
    ///
    /// The entropy source's peripheral clock must be enabled; the event
    /// dispatch task enables it before any draw can happen.  When the
    /// source fails (here: the scripted stream is exhausted) the fixed
    /// fallback constant is returned.
    pub fn next_random_u32(&mut self, clock: &ClockControl) -> (r: u32)
        requires
            clock.entropy_clock_enabled,
        ensures
            r == old(self).spec_draw_value(),
            final(self).values@ == old(self).spec_rest_values(),
    {
        if self.values.len() == 0 {
            ENTROPY_FALLBACK
        } else {
            self.values.remove(0)
        }
    }
}

} // verus!
