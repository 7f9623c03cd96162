//! Event-dispatch core of an interrupt-driven LoRaWAN-class endpoint.
//!
//! The crate verifies the scheduling and ownership-handoff layer of the
//! firmware: the shared resource store that holds the single movable
//! protocol-state object, the event dispatch task that feeds it events,
//! the response handling task that interprets what comes back, the timer
//! arming task that arbitrates the one hardware timer, and the two
//! interrupt handlers that translate hardware signals into events.
//!
//! The hardware peripherals (low-power timer, radio, entropy source,
//! clock control) are modeled as plain capability types, so the core can
//! be verified and exercised host-side with synthetic interrupt
//! injection; a driver around the library performs the real or simulated
//! hardware work.

pub mod entropy;
pub mod events;
pub mod protocol;
pub mod radio;
pub mod scheduler;
pub mod timer;
