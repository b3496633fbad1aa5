use shooter::emitter::{
    join_rate_kind, pulses_allowed, record_tick, shots_allowed, CrisscrossState, PulseClock, PulseLimit,
    PulseTimer, Pulses, RateKind, ShotLimit, Shots,
};

#[test]
fn joined_rate_is_in_seconds_when_either_is() {
    assert_eq!(join_rate_kind(RateKind::Factor, RateKind::Factor), RateKind::Factor);
    assert_eq!(join_rate_kind(RateKind::Secs, RateKind::Factor), RateKind::Secs);
    assert_eq!(join_rate_kind(RateKind::Factor, RateKind::Secs), RateKind::Secs);
}

#[test]
fn pulse_timer_cycle() {
    let mut t = PulseTimer::new(3);
    assert!(t.is_waiting());
    assert_eq!(t.clock(), PulseClock::Wait);
    assert_eq!(t.tick(false), None);
    assert!(!t.just_finished());
    assert_eq!(t.tick(true), Some(PulseClock::Bullet));
    assert!(t.just_finished());
    assert_eq!(t.current_pulse(), 1);
    assert_eq!(t.clock(), PulseClock::Bullet);
    assert_eq!(t.tick(true), None);
    assert_eq!(t.current_pulse(), 2);
    assert!(!t.finished_pulse());
    assert_eq!(t.tick(true), Some(PulseClock::Wait));
    assert!(t.is_waiting());
    assert!(t.finished_pulse());
    assert_eq!(t.current_pulse(), 0);
}

#[test]
fn ready_timer_waits() {
    let t = PulseTimer::ready(5);
    assert!(t.is_waiting());
    assert_eq!(t.pulses(), 5);
}

#[test]
fn limits() {
    assert!(shots_allowed(&Shots(2), &ShotLimit(3)));
    assert!(!shots_allowed(&Shots(3), &ShotLimit(3)));
    assert!(pulses_allowed(&Pulses(0), &PulseLimit(1)));
    assert!(!pulses_allowed(&Pulses(4), &PulseLimit(1)));
}

#[test]
fn tick_bookkeeping() {
    let b = record_tick(true, true, Some(1), Some(2));
    assert!(b.spawn);
    assert_eq!(b.shots, Some(2));
    assert_eq!(b.pulses, Some(3));
    let b = record_tick(false, false, Some(1), None);
    assert!(!b.spawn);
    assert_eq!(b.shots, Some(1));
    assert_eq!(b.pulses, None);
}

#[test]
fn crisscross_swivels_at_burst_end() {
    let mut t = PulseTimer::new(2);
    let s = CrisscrossState::default();
    t.tick(true);
    assert_eq!(s.swivel(&t), CrisscrossState::Cross);
    t.tick(true);
    assert_eq!(s.swivel(&t), CrisscrossState::Plus);
    assert_eq!(CrisscrossState::Plus.swivel(&t), CrisscrossState::Cross);
}
