//! The peripheral models: timer arbitration and round trip, entropy
//! fallback, radio interrupt handling, clock gating.

use lorawan_dispatch::entropy::ClockControl;
use lorawan_dispatch::entropy::EntropySource;
use lorawan_dispatch::entropy::ENTROPY_FALLBACK;
use lorawan_dispatch::events::Event;
use lorawan_dispatch::events::RadioEventPayload;
use lorawan_dispatch::events::Response;
use lorawan_dispatch::protocol::ProtocolState;
use lorawan_dispatch::radio::radio_irq;
use lorawan_dispatch::radio::Radio;
use lorawan_dispatch::radio::RadioMode;
use lorawan_dispatch::scheduler::SharedResources;
use lorawan_dispatch::timer::timer_irq;
use lorawan_dispatch::timer::LpTimer;

/// Arming an idle timer for N ticks and simulating N compare-match ticks
/// yields exactly one expiry and returns the count to zero.
#[test]
fn timer_round_trip() {
    let mut t = LpTimer::new();
    assert!(t.arm(10));
    assert_eq!(t.cnt(), 10);
    let mut fires: u32 = 0;
    for _ in 0..10 {
        if t.tick() {
            fires += 1;
        }
    }
    assert_eq!(fires, 1);
    assert_eq!(t.cnt(), 0);
    assert!(t.compare_match);

    // Further ticks on the idle timer change nothing.
    for _ in 0..100 {
        assert!(!t.tick());
    }
    assert_eq!(t.cnt(), 0);
}

/// A second arm request while a countdown runs is rejected and does not
/// alter the running countdown.
#[test]
fn timer_arm_conflict_rejected() {
    let mut t = LpTimer::new();
    assert!(t.arm(100));
    assert!(!t.arm(50));
    assert_eq!(t.cnt(), 100);

    // Part of the countdown elapses; a conflict still changes nothing.
    for _ in 0..30 {
        t.tick();
    }
    assert!(!t.arm(7));
    assert_eq!(t.cnt(), 70);

    // Once the countdown ran out, the timer can be armed again.
    for _ in 0..70 {
        t.tick();
    }
    assert_eq!(t.cnt(), 0);
    assert!(t.arm(7));
    assert_eq!(t.cnt(), 7);
}

/// The timer interrupt handler acknowledges the compare-match flag and
/// produces exactly a `TimeoutFired` event.
#[test]
fn timer_irq_translates_to_event() {
    let mut t = LpTimer::new();
    assert!(t.arm(1));
    assert!(t.tick());
    assert!(t.compare_match);
    let e = timer_irq(&mut t);
    assert_eq!(e, Event::TimeoutFired);
    assert!(!t.compare_match);
    assert_eq!(t.cnt(), 0);
}

/// The entropy source hands out its scripted words in order, then falls
/// back to the fixed constant once it fails.
#[test]
fn entropy_scripted_then_fallback() {
    let mut clock = ClockControl::new();
    clock.enable_entropy_clock();
    let mut src = EntropySource::new(vec![5, 6]);
    assert_eq!(src.next_random_u32(&clock), 5);
    assert_eq!(src.next_random_u32(&clock), 6);
    assert_eq!(src.next_random_u32(&clock), ENTROPY_FALLBACK);
    assert_eq!(src.next_random_u32(&clock), 0xFAFA_FAFA);
}

/// A failing entropy source still lets a session start: the join nonce is
/// the documented fallback constant.
#[test]
fn entropy_fallback_reaches_state_machine() {
    let state = ProtocolState::new([0; 8], [0; 8], [0; 16]);
    let mut res = SharedResources::new(state, EntropySource::new(vec![]));
    let report = res.process_event(Event::NewSessionRequest);
    assert!(matches!(
        report.first,
        lorawan_dispatch::scheduler::DispatchOutcome::Dispatched(Ok(Response::TimeoutRequest(
            5000
        )))
    ));
    assert_eq!(res.lorawan.unwrap().dev_nonce, ENTROPY_FALLBACK);
}

/// The dispatch task enables the entropy clock before the state machine
/// runs.
#[test]
fn dispatch_enables_entropy_clock() {
    let state = ProtocolState::new([0; 8], [0; 8], [0; 16]);
    let mut res = SharedResources::new(state, EntropySource::new(vec![1]));
    assert!(!res.clock.entropy_clock_enabled);
    res.dispatch_event(Event::NewSessionRequest);
    assert!(res.clock.entropy_clock_enabled);
}

/// The radio interrupt handler reads status and flags, clears the flags,
/// and wraps them in a physical-layer event; modes switch as asked.
#[test]
fn radio_irq_and_modes() {
    let mut radio = Radio::new();
    assert_eq!(radio.mode, RadioMode::Receive);
    radio.set_transmit_mode();
    assert_eq!(radio.mode, RadioMode::Transmit);
    radio.set_receive_mode();
    assert_eq!(radio.mode, RadioMode::Receive);

    radio.status = 0x55;
    radio.irq_flags = 0x0003;
    let e = radio_irq(&mut radio);
    assert_eq!(
        e,
        Event::RadioEvent(RadioEventPayload::PhyEvent {
            status: 0x55,
            irq_flags: 0x0003,
        })
    );
    assert_eq!(radio.irq_flags, 0);
    assert_eq!(radio.status, 0x55);

    let (status, flags) = radio.read_and_clear_irq();
    assert_eq!(status, 0x55);
    assert_eq!(flags, 0);
}
