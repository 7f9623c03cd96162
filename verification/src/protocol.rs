//! The protocol state machine at the interface the dispatch core drives:
//! one transition operation that consumes an event and yields the new
//! state paired with a response or an error, and one extraction operation
//! for a pending downlink.
//!
//! The session-layer internals (channel plans, key derivation,
//! cryptography) are an external collaborator of the core; what stands
//! here is a small deterministic stand-in that honours the collaborator's
//! contract, covers every response and error variant, and lets the
//! scheduler be driven host-side.

use vstd::prelude::*;

use crate::events::ErrorKind;
use crate::events::Event;
use crate::events::RadioEventPayload;
use crate::events::Response;
use crate::radio::IRQ_RX_DONE;
use crate::radio::IRQ_TX_DONE;

verus! {

/// Countdown requested after a join request goes out, waiting for the
/// join accept (milliseconds).
pub const JOIN_ACCEPT_TIMEOUT_MS: u32 = 5000;

/// Countdown requested after an uplink finishes transmitting, opening
/// the receive window (milliseconds).
pub const RX_WINDOW_TIMEOUT_MS: u32 = 1000;

/// Where the session stands.
#[derive(Debug, Clone, Copy, PartialEq, Eq, Structural)]
pub enum Phase {
    /// No session: nothing joined, nothing in flight.
    Idle,
    /// A join request went out; waiting for the join accept.
    Joining,
    /// A session is established.
    Joined,
}

/// A received downlink as the collaborator exposes it: the MAC-command
/// option fields from the frame header (one command identifier each,
/// already enumerated), the application payload bytes, and whether the
/// payload decoded cleanly.  A malformed payload is reported, never
/// propagated as an error.
#[derive(Debug, Clone, PartialEq)]
pub struct Downlink {
    pub fopts: Vec<u8>,
    pub payload: Vec<u8>,
    pub malformed: bool,
}

/// The single movable protocol state object.
///
/// Created once at system initialization with fixed identity and key
/// material; it then lives until power loss, moving between the shared
/// resource store and whichever task momentarily holds it.
#[derive(Debug, Clone, PartialEq)]
pub struct ProtocolState {
    /// Device identifier, as provisioned.
    pub dev_eui: [u8; 8],
    /// Application identifier, as provisioned.
    pub app_eui: [u8; 8],
    /// Root key material, as provisioned.
    pub app_key: [u8; 16],
    /// Where the session stands.
    pub phase: Phase,
    /// Nonce drawn from the entropy source for the last join request.
    pub dev_nonce: u32,
    /// Uplink frame counter of the current session.
    pub fcnt_up: u32,
    /// Downlink frame counter of the current session.
    pub fcnt_down: u32,
    /// Whether the last uplink still waits for its acknowledgement.
    pub awaiting_ack: bool,
    /// A received downlink not yet handed to the application.
    pub pending_downlink: Option<Downlink>,
}

impl ProtocolState {
    /// The transition relation: what one dispatched event does to the
    /// state, and the response or error it reports.  `rand` is the word
    /// the entropy source supplied for this invocation.
    pub open spec fn spec_transition(self, event: Event, rand: u32) -> (ProtocolState, Result<
        Response,
        ErrorKind,
    >) {
        match event {
            Event::NewSessionRequest => (
                ProtocolState {
                    phase: Phase::Joining,
                    dev_nonce: rand,
                    fcnt_up: 0,
                    fcnt_down: 0,
                    awaiting_ack: false,
                    pending_downlink: None,
                    ..self
                },
                Ok(Response::TimeoutRequest(JOIN_ACCEPT_TIMEOUT_MS)),
            ),
            Event::TimeoutFired => match self.phase {
                Phase::Idle => (self, Err(ErrorKind::SessionError)),
                Phase::Joining => (
                    ProtocolState { phase: Phase::Idle, ..self },
                    Ok(Response::NoJoinAccept),
                ),
                Phase::Joined => if self.awaiting_ack {
                    (ProtocolState { awaiting_ack: false, ..self }, Ok(Response::NoAck))
                } else {
                    (self, Ok(Response::ReadyToSend))
                },
            },
            Event::SendDataRequest(_) => match self.phase {
                Phase::Joined => if self.fcnt_up == u32::MAX {
                    (self, Ok(Response::SessionExpired))
                } else {
                    (
                        ProtocolState {
                            fcnt_up: (self.fcnt_up + 1) as u32,
                            awaiting_ack: true,
                            ..self
                        },
                        Ok(Response::UplinkSending((self.fcnt_up + 1) as u32)),
                    )
                },
                _ => (self, Err(ErrorKind::NoSessionError)),
            },
            Event::RadioEvent(payload) => match payload {
                RadioEventPayload::TxRequest => match self.phase {
                    Phase::Idle => (self, Err(ErrorKind::NoSessionError)),
                    Phase::Joining => (self, Ok(Response::JoinRequestSending)),
                    Phase::Joined => (self, Ok(Response::NoUpdate)),
                },
                RadioEventPayload::RxRequest => (self, Ok(Response::NoUpdate)),
                RadioEventPayload::CancelRx => (self, Ok(Response::NoUpdate)),
                RadioEventPayload::PhyEvent { status: _, irq_flags } => match self.phase {
                    Phase::Idle => (self, Err(ErrorKind::RadioError)),
                    Phase::Joining => if irq_flags & IRQ_RX_DONE != 0 {
                        (ProtocolState { phase: Phase::Joined, ..self }, Ok(Response::JoinSuccess))
                    } else if irq_flags & IRQ_TX_DONE != 0 {
                        (self, Ok(Response::TimeoutRequest(RX_WINDOW_TIMEOUT_MS)))
                    } else {
                        (self, Err(ErrorKind::RadioError))
                    },
                    Phase::Joined => if irq_flags & IRQ_RX_DONE != 0 {
                        if self.fcnt_down == u32::MAX {
                            (self, Ok(Response::SessionExpired))
                        } else {
                            (
                                ProtocolState {
                                    fcnt_down: (self.fcnt_down + 1) as u32,
                                    awaiting_ack: false,
                                    ..self
                                },
                                Ok(Response::DownlinkReceived((self.fcnt_down + 1) as u32)),
                            )
                        }
                    } else if irq_flags & IRQ_TX_DONE != 0 {
                        (self, Ok(Response::TimeoutRequest(RX_WINDOW_TIMEOUT_MS)))
                    } else {
                        (self, Err(ErrorKind::RadioError))
                    },
                },
            },
        }
    }

    /// A fresh protocol state as built at system initialization: the
    /// provisioned identity and key material, no session yet.
    pub fn new(dev_eui: [u8; 8], app_eui: [u8; 8], app_key: [u8; 16]) -> (s: ProtocolState)
        ensures
            s.dev_eui == dev_eui,
            s.app_eui == app_eui,
            s.app_key == app_key,
            s.phase == Phase::Idle,
            s.dev_nonce == 0,
            s.fcnt_up == 0,
            s.fcnt_down == 0,
            !s.awaiting_ack,
            s.pending_downlink is None,
    {
        ProtocolState {
            dev_eui,
            app_eui,
            app_key,
            phase: Phase::Idle,
            dev_nonce: 0,
            fcnt_up: 0,
            fcnt_down: 0,
            awaiting_ack: false,
            pending_downlink: None,
        }
    }

    /// The single transition operation of the state machine: consume one
    /// event, yield the new state and the response or error for it.
    /// `rand` is the word the entropy source supplied for this
    /// invocation (the machine may need randomness, e.g. for a join
    /// nonce).
    pub fn transition(self, event: Event, rand: u32) -> (r: (ProtocolState, Result<
        Response,
        ErrorKind,
    >))
        ensures
            r == self.spec_transition(event, rand),
    {
        match event {
            Event::NewSessionRequest => (
                ProtocolState {
                    phase: Phase::Joining,
                    dev_nonce: rand,
                    fcnt_up: 0,
                    fcnt_down: 0,
                    awaiting_ack: false,
                    pending_downlink: None,
                    ..self
                },
                Ok(Response::TimeoutRequest(JOIN_ACCEPT_TIMEOUT_MS)),
            ),
            Event::TimeoutFired => match self.phase {
                Phase::Idle => (self, Err(ErrorKind::SessionError)),
                Phase::Joining => (
                    ProtocolState { phase: Phase::Idle, ..self },
                    Ok(Response::NoJoinAccept),
                ),
                Phase::Joined => if self.awaiting_ack {
                    (ProtocolState { awaiting_ack: false, ..self }, Ok(Response::NoAck))
                } else {
                    (self, Ok(Response::ReadyToSend))
                },
            },
            Event::SendDataRequest(_payload) => match self.phase {
                Phase::Joined => if self.fcnt_up == u32::MAX {
                    (self, Ok(Response::SessionExpired))
                } else {
                    let next_fcnt = self.fcnt_up + 1;
                    (
                        ProtocolState { fcnt_up: next_fcnt, awaiting_ack: true, ..self },
                        Ok(Response::UplinkSending(next_fcnt)),
                    )
                },
                _ => (self, Err(ErrorKind::NoSessionError)),
            },
            Event::RadioEvent(payload) => match payload {
                RadioEventPayload::TxRequest => match self.phase {
                    Phase::Idle => (self, Err(ErrorKind::NoSessionError)),
                    Phase::Joining => (self, Ok(Response::JoinRequestSending)),
                    Phase::Joined => (self, Ok(Response::NoUpdate)),
                },
                RadioEventPayload::RxRequest => (self, Ok(Response::NoUpdate)),
                RadioEventPayload::CancelRx => (self, Ok(Response::NoUpdate)),
                RadioEventPayload::PhyEvent { status: _, irq_flags } => match self.phase {
                    Phase::Idle => (self, Err(ErrorKind::RadioError)),
                    Phase::Joining => if irq_flags & IRQ_RX_DONE != 0 {
                        (ProtocolState { phase: Phase::Joined, ..self }, Ok(Response::JoinSuccess))
                    } else if irq_flags & IRQ_TX_DONE != 0 {
                        (self, Ok(Response::TimeoutRequest(RX_WINDOW_TIMEOUT_MS)))
                    } else {
                        (self, Err(ErrorKind::RadioError))
                    },
                    Phase::Joined => if irq_flags & IRQ_RX_DONE != 0 {
                        if self.fcnt_down == u32::MAX {
                            (self, Ok(Response::SessionExpired))
                        } else {
                            let next_fcnt = self.fcnt_down + 1;
                            (
                                ProtocolState {
                                    fcnt_down: next_fcnt,
                                    awaiting_ack: false,
                                    ..self
                                },
                                Ok(Response::DownlinkReceived(next_fcnt)),
                            )
                        }
                    } else if irq_flags & IRQ_TX_DONE != 0 {
                        (self, Ok(Response::TimeoutRequest(RX_WINDOW_TIMEOUT_MS)))
                    } else {
                        (self, Err(ErrorKind::RadioError))
                    },
                },
            },
        }
    }

    /// Hand over the pending downlink, if any, leaving none pending.
    pub fn take_data_downlink(&mut self) -> (d: Option<Downlink>)
        ensures
            d == old(self).pending_downlink,
            (final(self).pending_downlink is None),
            *final(self) == (ProtocolState { pending_downlink: None, ..*old(self) }),
    {
        self.pending_downlink.take()
    }

    /// Store a received downlink for the application to pick up (the
    /// receive path of the collaborator; a host harness uses it to stage
    /// a frame).
    pub fn load_downlink(&mut self, downlink: Downlink)
        ensures
            *final(self) == (ProtocolState { pending_downlink: Some(downlink), ..*old(self) }),
    {
        self.pending_downlink = Some(downlink);
    }
}

/// Every timeout the state machine requests fits the timer's counter
/// width: a `TimeoutRequest(ms)` response always carries `ms <= 65535`.
pub proof fn lemma_timeout_request_in_range(s: ProtocolState, event: Event, rand: u32)
    ensures
        s.spec_transition(event, rand).1 matches Ok(Response::TimeoutRequest(ms)) ==> ms
            <= 65535,
{
}

} // verus!
