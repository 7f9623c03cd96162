//! The closed event, response and error unions exchanged between the
//! interrupt handlers, the event dispatch task and the response handling
//! task.

use vstd::prelude::*;

verus! {

/// Payload of a radio-originated event.
///
/// `PhyEvent` carries the raw transceiver status byte and the interrupt
/// flag word that the radio interrupt handler read and cleared.
#[derive(Debug, Clone, PartialEq)]
pub enum RadioEventPayload {
    TxRequest,
    RxRequest,
    CancelRx,
    PhyEvent { status: u8, irq_flags: u16 },
}

/// An event consumed exactly once by the event dispatch task.
///
/// Events are produced by the interrupt handlers (`TimeoutFired`,
/// `RadioEvent`), by the response handling task (`NewSessionRequest`
/// re-issued after a failed or expired session), or by the application
/// (`NewSessionRequest` at startup, `SendDataRequest` with an uplink
/// payload).
#[derive(Debug, Clone, PartialEq)]
pub enum Event {
    NewSessionRequest,
    RadioEvent(RadioEventPayload),
    TimeoutFired,
    SendDataRequest(Vec<u8>),
}

/// One response per event dispatch invocation, paired with the returned
/// new protocol state.
#[derive(Debug, Clone, Copy, PartialEq, Eq)]
pub enum Response {
    /// Ask the timer arming task for a single-shot countdown of `ms`
    /// milliseconds (one hardware tick per millisecond).
    TimeoutRequest(u32),
    JoinSuccess,
    ReadyToSend,
    /// A downlink frame was accepted; carries the new downlink frame
    /// counter.
    DownlinkReceived(u32),
    NoAck,
    NoJoinAccept,
    SessionExpired,
    NoUpdate,
    /// An uplink started transmitting; carries the uplink frame counter
    /// used for it.
    UplinkSending(u32),
    JoinRequestSending,
}

/// Protocol-layer failures; mutually exclusive with [`Response`] for a
/// given dispatch invocation.
#[derive(Debug, Clone, Copy, PartialEq, Eq)]
pub enum ErrorKind {
    RadioError,
    SessionError,
    NoSessionError,
}

} // verus!
