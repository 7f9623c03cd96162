//! Model of the sub-GHz radio transceiver at the narrow interface the
//! core reads: interrupt status read/clear, mode switching, and the radio
//! interrupt handler that turns a raised interrupt into an event.

use vstd::prelude::*;

use crate::events::Event;
use crate::events::RadioEventPayload;

verus! {

/// Radio interrupt flag raised when a transmission completes.
pub const IRQ_TX_DONE: u16 = 0x0001;

/// Radio interrupt flag raised when a frame was received.
pub const IRQ_RX_DONE: u16 = 0x0002;

/// Which signal path the radio front end is switched to.
#[derive(Debug, Clone, Copy, PartialEq, Eq, Structural)]
pub enum RadioMode {
    Receive,
    Transmit,
}

/// The radio transceiver.
///
/// `status` is the raw status byte and `irq_flags` the pending interrupt
/// flag word; on hardware a nonzero flag word raises the radio interrupt
/// line.  A host harness injects a synthetic interrupt by setting the two
/// fields before calling the handler.
#[derive(Debug, Clone, Copy, PartialEq, Eq, Structural)]
pub struct Radio {
    pub status: u8,
    pub irq_flags: u16,
    pub mode: RadioMode,
}

impl Radio {
    /// A radio with no pending interrupt, switched to receive.
    pub fn new() -> (r: Radio)
        ensures
            r.status == 0,
            r.irq_flags == 0,
            r.mode == RadioMode::Receive,
    {
        Radio { status: 0, irq_flags: 0, mode: RadioMode::Receive }
    }

    /// Read the status byte and pending interrupt flags, clearing the
    /// flags (acknowledging the interrupt).
    pub fn read_and_clear_irq(&mut self) -> (r: (u8, u16))
        ensures
            r == (old(self).status, old(self).irq_flags),
            final(self).irq_flags == 0,
            final(self).status == old(self).status,
            final(self).mode == old(self).mode,
    {
        let flags = self.irq_flags;
        self.irq_flags = 0;
        (self.status, flags)
    }

    /// Switch the front end to the receive path.
    pub fn set_receive_mode(&mut self)
        ensures
            final(self).mode == RadioMode::Receive,
            final(self).status == old(self).status,
            final(self).irq_flags == old(self).irq_flags,
    {
        self.mode = RadioMode::Receive;
    }

    /// Switch the front end to the transmit path.
    pub fn set_transmit_mode(&mut self)
        ensures
            final(self).mode == RadioMode::Transmit,
            final(self).status == old(self).status,
            final(self).irq_flags == old(self).irq_flags,
    {
        self.mode = RadioMode::Transmit;
    }
}

/// The radio interrupt handler: read and clear the radio's status and
/// interrupt flags, and translate them into a `PhyEvent` for the event
/// dispatch task.  It performs no protocol logic.
pub fn radio_irq(radio: &mut Radio) -> (e: Event)
    ensures
        e == Event::RadioEvent(RadioEventPayload::PhyEvent {
            status: old(radio).status,
            irq_flags: old(radio).irq_flags,
        }),
        final(radio).irq_flags == 0,
        final(radio).status == old(radio).status,
        final(radio).mode == old(radio).mode,
{
    let (status, irq_flags) = radio.read_and_clear_irq();
    Event::RadioEvent(RadioEventPayload::PhyEvent { status, irq_flags })
}

} // verus!
