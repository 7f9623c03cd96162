//! The shared resource store, the event dispatch task and the response
//! handling task.
//!
//! The store holds the single movable protocol-state slot, the timer
//! handle, the clock-control handle and the entropy source.  On hardware,
//! mutual exclusion over the slot is structural (only the dispatch and
//! response priority level ever touches it, and that level is
//! non-reentrant); here the same discipline is enforced by the type
//! system: every task takes the store by exclusive reference, and the
//! state object is checked out of the slot and checked back in before the
//! task returns, on every path.

use vstd::prelude::*;

use crate::entropy::ClockControl;
use crate::entropy::EntropySource;
use crate::events::ErrorKind;
use crate::events::Event;
use crate::events::Response;
use crate::protocol::Downlink;
use crate::protocol::ProtocolState;
use crate::timer::LpTimer;

verus! {

/// What the event dispatch task did with an event.
#[derive(Debug, Clone, Copy, PartialEq, Eq)]
pub enum DispatchOutcome {
    /// The protocol state was not in the store (a previous invocation
    /// still held it), so the event was silently dropped.  This is the
    /// explicit drop policy of the dispatch task, not an error.
    Dropped,
    /// The state machine consumed the event and reported this response
    /// or error.
    Dispatched(Result<Response, ErrorKind>),
}

/// What the response handling task saw when it extracted a pending
/// downlink: how many MAC-command options the frame header carried, and
/// whether the application payload decoded cleanly.
#[derive(Debug, Clone, Copy, PartialEq, Eq, Structural)]
pub struct DownlinkSummary {
    pub mac_command_count: usize,
    pub payload_decoded: bool,
}

/// The side effects one response handling invocation asked for.
#[derive(Debug, Clone, Copy, PartialEq, Eq)]
pub struct ResponseOutcome {
    /// The one timer-arm request issued, with its tick count.
    pub timer_request: Option<u16>,
    /// Whether the arm request was accepted (false also when no request
    /// was issued, or when it lost to an already-armed timer).
    pub timer_accepted: bool,
    /// Whether a `NewSessionRequest` event is to be re-delivered to the
    /// event dispatch task.
    pub reissued_new_session: bool,
    /// What the downlink-extraction branch found, when it ran.
    pub downlink: Option<DownlinkSummary>,
}

/// The response carries a timer-arm request.
pub open spec fn is_timeout_request(r: Result<Response, ErrorKind>) -> bool {
    r matches Ok(Response::TimeoutRequest(_))
}

/// The requested countdown, in milliseconds.
pub open spec fn timeout_ms(r: Result<Response, ErrorKind>) -> u32
    recommends
        is_timeout_request(r),
{
    match r {
        Ok(Response::TimeoutRequest(ms)) => ms,
        _ => 0,
    }
}

/// The responses after which exactly one `NewSessionRequest` event is
/// re-delivered to the event dispatch task.
pub open spec fn triggers_new_session(r: Result<Response, ErrorKind>) -> bool {
    r == Ok::<Response, ErrorKind>(Response::NoJoinAccept) || r == Ok::<Response, ErrorKind>(
        Response::SessionExpired,
    )
}

/// The response announces an accepted downlink.
pub open spec fn is_downlink_received(r: Result<Response, ErrorKind>) -> bool {
    r matches Ok(Response::DownlinkReceived(_))
}

/// The shared resource store: allocated once at startup, never
/// reallocated.  The protocol-state slot toggles present/absent exactly
/// bracketing each dispatch or downlink-extraction operation; the other
/// handles are permanent.
pub struct SharedResources {
    /// The single movable protocol-state slot.
    pub lorawan: Option<ProtocolState>,
    /// The low-power timer handle.
    pub lptim: LpTimer,
    /// The clock-control handle.
    pub clock: ClockControl,
    /// The entropy source peripheral.
    pub entropy: EntropySource,
}

impl SharedResources {
    /// The store as built at system initialization: the freshly created
    /// protocol state is present, the timer idle, the entropy clock
    /// still off.
    pub fn new(state: ProtocolState, entropy: EntropySource) -> (r: SharedResources)
        ensures
            r.lorawan == Some(state),
            r.lptim.remaining == 0,
            !r.lptim.compare_match,
            !r.clock.entropy_clock_enabled,
            r.entropy == entropy,
    {
        SharedResources { lorawan: Some(state), lptim: LpTimer::new(), clock: ClockControl::new(), entropy }
    }

    /// The event dispatch task: feed one event to the protocol state
    /// machine.
    ///
    /// The state is removed from the slot for the duration of the
    /// transition and unconditionally placed back before the task
    /// returns, also when the transition reports an error.  If the slot
    /// is empty the event is silently dropped — a transient condition,
    /// not an error.  Before the transition the entropy source's clock
    /// is enabled and one random word is drawn for the state machine.
    pub fn dispatch_event(&mut self, event: Event) -> (out: DispatchOutcome)
        ensures
            (final(self).clock.entropy_clock_enabled),
            final(self).lptim == old(self).lptim,
            ((final(self).lorawan is Some) <==> (old(self).lorawan is Some)),
            (old(self).lorawan is None ==> (out is Dropped) && (final(self).lorawan is None)
                && final(self).entropy == old(self).entropy),
            (old(self).lorawan matches Some(s) ==> ({
                let step = s.spec_transition(event, old(self).entropy.spec_draw_value());
                &&& out == DispatchOutcome::Dispatched(step.1)
                &&& final(self).lorawan == Some(step.0)
                &&& final(self).entropy.values@ == old(self).entropy.spec_rest_values()
            })),
    {
        self.clock.enable_entropy_clock();
        if let Some(state) = self.lorawan.take() {
            let rand = self.entropy.next_random_u32(&self.clock);
            let (new_state, response) = state.transition(event, rand);
            self.lorawan = Some(new_state);
            DispatchOutcome::Dispatched(response)
        } else {
            DispatchOutcome::Dropped
        }
    }

    /// The response handling task: interpret one response or error from
    /// the state machine, synchronously.
    ///
    /// A `TimeoutRequest` issues exactly one timer-arm request for the
    /// requested tick count; `NoJoinAccept` and `SessionExpired` ask for
    /// exactly one re-delivered `NewSessionRequest`; `DownlinkReceived`
    /// checks the state out, extracts the pending downlink and
    /// unconditionally restores the state, also when the payload was
    /// malformed.  Errors are informational at this layer: no retry.
    ///
    /// A requested countdown must fit the timer's counter width; the
    /// state machine never requests more (see
    /// `lemma_timeout_request_in_range`).
    pub fn handle_response(&mut self, response: Result<Response, ErrorKind>) -> (out:
        ResponseOutcome)
        requires
            is_timeout_request(response) ==> timeout_ms(response) <= 65535,
        ensures
            (is_timeout_request(response) ==> out.timer_request == Some(
                timeout_ms(response) as u16,
            ) && (final(self).lptim, out.timer_accepted) == old(self).lptim.spec_arm(
                timeout_ms(response) as u16,
            )),
            (!is_timeout_request(response) ==> (out.timer_request is None) && !out.timer_accepted
                && final(self).lptim == old(self).lptim),
            (out.reissued_new_session <==> triggers_new_session(response)),
            (is_downlink_received(response) ==> (old(self).lorawan matches Some(s) ==> ({
                &&& final(self).lorawan == Some(ProtocolState { pending_downlink: None, ..s })
                &&& (s.pending_downlink matches Some(d) ==> (out.downlink matches Some(sm)
                    && sm.mac_command_count == d.fopts@.len() && sm.payload_decoded
                    == !d.malformed))
                &&& (s.pending_downlink is None ==> (out.downlink is None))
            }))),
            (!is_downlink_received(response) ==> final(self).lorawan == old(self).lorawan && (
            out.downlink is None)),
            ((final(self).lorawan is Some) <==> (old(self).lorawan is Some)),
            final(self).clock == old(self).clock,
            final(self).entropy == old(self).entropy,
    {
        let mut out = ResponseOutcome {
            timer_request: None,
            timer_accepted: false,
            reissued_new_session: false,
            downlink: None,
        };
        match response {
            Ok(r) => match r {
                Response::TimeoutRequest(ms) => {
                    let ticks = ms as u16;
                    out.timer_request = Some(ticks);
                    out.timer_accepted = self.lptim.arm(ticks);
                },
                Response::JoinSuccess => {
                    // Join completion is informational here; the state is
                    // checked out and straight back in, reserving the spot
                    // where supplementary join logic would run.
                    if let Some(state) = self.lorawan.take() {
                        self.lorawan = Some(state);
                    }
                },
                Response::ReadyToSend => {},
                Response::DownlinkReceived(_fcnt_down) => {
                    if let Some(mut state) = self.lorawan.take() {
                        if let Some(downlink) = state.take_data_downlink() {
                            out.downlink = Some(summarize_downlink(&downlink));
                        }
                        // Restoring the state is unconditional: a missing
                        // or malformed downlink must not lose it.
                        self.lorawan = Some(state);
                    }
                },
                Response::NoAck => {},
                Response::NoJoinAccept => {
                    out.reissued_new_session = true;
                },
                Response::SessionExpired => {
                    out.reissued_new_session = true;
                },
                Response::NoUpdate => {},
                Response::UplinkSending(_fcnt_up) => {},
                Response::JoinRequestSending => {},
            },
            Err(err) => match err {
                // Protocol-layer failures are logged only; retry is an
                // emergent effect of the session responses above.
                ErrorKind::RadioError => {},
                ErrorKind::SessionError => {},
                ErrorKind::NoSessionError => {},
            },
        }
        out
    }
}

/// One pass of the control flow for one event: what the dispatch task
/// returned, what the response handler did with it, and the same pair
/// again for the one re-delivered `NewSessionRequest`, when there was
/// one.
#[derive(Debug, Clone, Copy, PartialEq, Eq)]
pub struct StepReport {
    pub first: DispatchOutcome,
    pub first_actions: Option<ResponseOutcome>,
    pub second: Option<DispatchOutcome>,
    pub second_actions: Option<ResponseOutcome>,
}

impl SharedResources {
    /// Run the full control flow for one event: dispatch it, handle the
    /// response, and deliver the one re-issued `NewSessionRequest` (with
    /// its own response handling) when the session failed or expired.
    ///
    /// A re-issued `NewSessionRequest` never asks for another session in
    /// turn, so the chain always ends after the second dispatch.
    pub fn process_event(&mut self, event: Event) -> (report: StepReport)
        ensures
            ((final(self).lorawan is Some) <==> (old(self).lorawan is Some)),
            (final(self).clock.entropy_clock_enabled),
            ((report.first is Dropped) <==> (old(self).lorawan is None)),
            (old(self).lorawan is None ==> (final(self).lorawan is None)
                && final(self).lptim == old(self).lptim
                && final(self).entropy == old(self).entropy
                && (report.first_actions is None) && (report.second is None)
                && (report.second_actions is None)),
            (old(self).lorawan matches Some(s) ==> ({
                let r1 = s.spec_transition(event, old(self).entropy.spec_draw_value()).1;
                &&& report.first == DispatchOutcome::Dispatched(r1)
                &&& (report.first_actions matches Some(a1) ==> {
                    &&& (a1.reissued_new_session <==> triggers_new_session(r1))
                    &&& (is_timeout_request(r1) ==> a1.timer_request == Some(
                        timeout_ms(r1) as u16,
                    ) && (a1.timer_accepted <==> !old(self).lptim.is_armed()))
                    &&& (!is_timeout_request(r1) ==> (a1.timer_request is None))
                }
                )
                &&& (report.first_actions is Some)
                &&& (is_timeout_request(r1) ==> final(self).lptim == old(self).lptim.spec_arm(
                    timeout_ms(r1) as u16,
                ).0)
                &&& (triggers_new_session(r1) ==> final(self).lptim == old(
                    self,
                ).lptim.spec_arm(crate::protocol::JOIN_ACCEPT_TIMEOUT_MS as u16).0 && (
                report.second_actions matches Some(a2) && a2.timer_request == Some(
                    crate::protocol::JOIN_ACCEPT_TIMEOUT_MS as u16,
                )))
                &&& (!is_timeout_request(r1) && !triggers_new_session(r1) ==> final(self).lptim
                    == old(self).lptim)
            })),
            (report.first_actions matches Some(a) ==> (a.reissued_new_session <==> (
            report.second is Some))),
            (report.second matches Some(o) ==> (o is Dispatched)),
            ((report.second is Some) <==> (report.second_actions is Some)),
            (report.second_actions matches Some(a2) ==> !a2.reissued_new_session),
    {
        let out1 = self.dispatch_event(event);
        match out1 {
            DispatchOutcome::Dropped => StepReport {
                first: out1,
                first_actions: None,
                second: None,
                second_actions: None,
            },
            DispatchOutcome::Dispatched(r1) => {
                proof {
                    if let Some(s) = old(self).lorawan {
                        crate::protocol::lemma_timeout_request_in_range(
                            s,
                            event,
                            old(self).entropy.spec_draw_value(),
                        );
                    }
                }
                let actions1 = self.handle_response(r1);
                if actions1.reissued_new_session {
                    let ghost mid = *self;
                    let out2 = self.dispatch_event(Event::NewSessionRequest);
                    match out2 {
                        DispatchOutcome::Dispatched(r2) => {
                            proof {
                                if let Some(s1) = mid.lorawan {
                                    crate::protocol::lemma_timeout_request_in_range(
                                        s1,
                                        Event::NewSessionRequest,
                                        mid.entropy.spec_draw_value(),
                                    );
                                }
                            }
                            let actions2 = self.handle_response(r2);
                            StepReport {
                                first: out1,
                                first_actions: Some(actions1),
                                second: Some(out2),
                                second_actions: Some(actions2),
                            }
                        },
                        DispatchOutcome::Dropped => {
                            // The slot was present through the first
                            // dispatch and the response handler restores
                            // it, so the re-delivered event cannot find
                            // it absent.
                            proof {
                                assert(false);
                            }
                            StepReport {
                                first: out1,
                                first_actions: Some(actions1),
                                second: None,
                                second_actions: None,
                            }
                        },
                    }
                } else {
                    StepReport {
                        first: out1,
                        first_actions: Some(actions1),
                        second: None,
                        second_actions: None,
                    }
                }
            },
        }
    }
}

/// Enumerate a downlink as the response handler reads it: walk the
/// MAC-command options one by one (as each would be handled), and note
/// whether the application payload decoded cleanly.  A malformed payload
/// is reported, never propagated.
pub fn summarize_downlink(downlink: &Downlink) -> (s: DownlinkSummary)
    ensures
        s.mac_command_count == downlink.fopts@.len(),
        s.payload_decoded == !downlink.malformed,
{
    let mut count: usize = 0;
    let mut i: usize = 0;
    while i < downlink.fopts.len()
        invariant
            i <= downlink.fopts@.len(),
            count == i,
        decreases downlink.fopts@.len() - i,
    {
        let _cid = downlink.fopts[i];
        count = count + 1;
        i = i + 1;
    }
    DownlinkSummary { mac_command_count: count, payload_decoded: !downlink.malformed }
}

} // verus!
