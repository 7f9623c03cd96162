//! The transition table of the protocol state machine stand-in, one exact
//! expectation per response and error variant.

use lorawan_dispatch::events::ErrorKind;
use lorawan_dispatch::events::Event;
use lorawan_dispatch::events::RadioEventPayload;
use lorawan_dispatch::events::Response;
use lorawan_dispatch::protocol::Phase;
use lorawan_dispatch::protocol::ProtocolState;
use lorawan_dispatch::radio::IRQ_RX_DONE;
use lorawan_dispatch::radio::IRQ_TX_DONE;

fn idle_state() -> ProtocolState {
    ProtocolState::new([1; 8], [2; 8], [3; 16])
}

fn joined_state() -> ProtocolState {
    let mut s = idle_state();
    s.phase = Phase::Joined;
    s
}

fn phy(irq_flags: u16) -> Event {
    Event::RadioEvent(RadioEventPayload::PhyEvent { status: 0, irq_flags })
}

#[test]
fn new_session_request_starts_join() {
    let (s, r) = idle_state().transition(Event::NewSessionRequest, 42);
    assert_eq!(r, Ok(Response::TimeoutRequest(5000)));
    assert_eq!(s.phase, Phase::Joining);
    assert_eq!(s.dev_nonce, 42);
    assert_eq!(s.fcnt_up, 0);
    assert_eq!(s.fcnt_down, 0);
    assert!(s.pending_downlink.is_none());
}

#[test]
fn new_session_request_resets_running_session() {
    let mut joined = joined_state();
    joined.fcnt_up = 17;
    joined.fcnt_down = 5;
    joined.awaiting_ack = true;
    let (s, r) = joined.transition(Event::NewSessionRequest, 7);
    assert_eq!(r, Ok(Response::TimeoutRequest(5000)));
    assert_eq!(s.phase, Phase::Joining);
    assert_eq!(s.fcnt_up, 0);
    assert_eq!(s.fcnt_down, 0);
    assert!(!s.awaiting_ack);
}

#[test]
fn timeout_while_joining_is_no_join_accept() {
    let (joining, _) = idle_state().transition(Event::NewSessionRequest, 1);
    let (s, r) = joining.transition(Event::TimeoutFired, 0);
    assert_eq!(r, Ok(Response::NoJoinAccept));
    assert_eq!(s.phase, Phase::Idle);
}

#[test]
fn timeout_with_ack_pending_is_no_ack() {
    let mut joined = joined_state();
    joined.awaiting_ack = true;
    let (s, r) = joined.transition(Event::TimeoutFired, 0);
    assert_eq!(r, Ok(Response::NoAck));
    assert!(!s.awaiting_ack);
}

#[test]
fn timeout_without_ack_pending_is_ready_to_send() {
    let (s, r) = joined_state().transition(Event::TimeoutFired, 0);
    assert_eq!(r, Ok(Response::ReadyToSend));
    assert_eq!(s.phase, Phase::Joined);
}

#[test]
fn timeout_with_no_session_is_session_error() {
    let (_, r) = idle_state().transition(Event::TimeoutFired, 0);
    assert_eq!(r, Err(ErrorKind::SessionError));
}

#[test]
fn send_data_when_joined_is_uplink_sending() {
    let (s, r) = joined_state().transition(Event::SendDataRequest(vec![1, 2, 3]), 0);
    assert_eq!(r, Ok(Response::UplinkSending(1)));
    assert_eq!(s.fcnt_up, 1);
    assert!(s.awaiting_ack);
}

#[test]
fn send_data_without_session_is_no_session_error() {
    let (_, r) = idle_state().transition(Event::SendDataRequest(vec![]), 0);
    assert_eq!(r, Err(ErrorKind::NoSessionError));
}

#[test]
fn send_data_with_exhausted_counter_is_session_expired() {
    let mut joined = joined_state();
    joined.fcnt_up = u32::MAX;
    let (s, r) = joined.transition(Event::SendDataRequest(vec![]), 0);
    assert_eq!(r, Ok(Response::SessionExpired));
    assert_eq!(s.fcnt_up, u32::MAX);
}

#[test]
fn rx_done_while_joining_is_join_success() {
    let (joining, _) = idle_state().transition(Event::NewSessionRequest, 1);
    let (s, r) = joining.transition(phy(IRQ_RX_DONE), 0);
    assert_eq!(r, Ok(Response::JoinSuccess));
    assert_eq!(s.phase, Phase::Joined);
}

#[test]
fn rx_done_while_joined_is_downlink_received() {
    let mut joined = joined_state();
    joined.fcnt_down = 6;
    let (s, r) = joined.transition(phy(IRQ_RX_DONE), 0);
    assert_eq!(r, Ok(Response::DownlinkReceived(7)));
    assert_eq!(s.fcnt_down, 7);
}

#[test]
fn rx_done_with_exhausted_counter_is_session_expired() {
    let mut joined = joined_state();
    joined.fcnt_down = u32::MAX;
    let (s, r) = joined.transition(phy(IRQ_RX_DONE), 0);
    assert_eq!(r, Ok(Response::SessionExpired));
    assert_eq!(s.fcnt_down, u32::MAX);
}

#[test]
fn tx_done_opens_receive_window() {
    let (_, r) = joined_state().transition(phy(IRQ_TX_DONE), 0);
    assert_eq!(r, Ok(Response::TimeoutRequest(1000)));
    let (joining, _) = idle_state().transition(Event::NewSessionRequest, 1);
    let (_, r) = joining.transition(phy(IRQ_TX_DONE), 0);
    assert_eq!(r, Ok(Response::TimeoutRequest(1000)));
}

#[test]
fn unexpected_radio_interrupt_is_radio_error() {
    let (_, r) = joined_state().transition(phy(0), 0);
    assert_eq!(r, Err(ErrorKind::RadioError));
    let (_, r) = idle_state().transition(phy(IRQ_RX_DONE), 0);
    assert_eq!(r, Err(ErrorKind::RadioError));
}

#[test]
fn tx_request_while_joining_is_join_request_sending() {
    let (joining, _) = idle_state().transition(Event::NewSessionRequest, 1);
    let (_, r) = joining.transition(Event::RadioEvent(RadioEventPayload::TxRequest), 0);
    assert_eq!(r, Ok(Response::JoinRequestSending));
}

#[test]
fn tx_request_elsewhere() {
    let (_, r) = joined_state().transition(Event::RadioEvent(RadioEventPayload::TxRequest), 0);
    assert_eq!(r, Ok(Response::NoUpdate));
    let (_, r) = idle_state().transition(Event::RadioEvent(RadioEventPayload::TxRequest), 0);
    assert_eq!(r, Err(ErrorKind::NoSessionError));
}

#[test]
fn rx_request_and_cancel_rx_are_no_update() {
    let (_, r) = joined_state().transition(Event::RadioEvent(RadioEventPayload::RxRequest), 0);
    assert_eq!(r, Ok(Response::NoUpdate));
    let (_, r) = idle_state().transition(Event::RadioEvent(RadioEventPayload::CancelRx), 0);
    assert_eq!(r, Ok(Response::NoUpdate));
}

#[test]
fn take_data_downlink_hands_over_once() {
    let mut s = joined_state();
    s.load_downlink(lorawan_dispatch::protocol::Downlink {
        fopts: vec![0x06],
        payload: vec![1, 2, 3],
        malformed: false,
    });
    let first = s.take_data_downlink();
    assert!(first.is_some());
    assert_eq!(first.unwrap().fopts, vec![0x06]);
    assert!(s.take_data_downlink().is_none());
}
