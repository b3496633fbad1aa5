use shooter::boss::{BossAttack, BossSchedule, BossStep, DanceCount, SoloSet};

#[test]
fn boss_alternates_dances_and_guns() {
    let (mut s, first) = BossSchedule::new();
    assert_eq!(first, BossAttack::SoloA);
    assert_eq!(s.switch(), BossStep { start: BossAttack::WavesA, end_solo: true, end_waves: false });
    assert_eq!(s.switch(), BossStep { start: BossAttack::SoloB, end_solo: false, end_waves: true });
    assert_eq!(s.switch(), BossStep { start: BossAttack::WavesB, end_solo: true, end_waves: false });
    assert_eq!(s.switch(), BossStep { start: BossAttack::SoloB, end_solo: false, end_waves: true });
    assert_eq!(s.switch().start, BossAttack::WavesB);
}

#[test]
fn solo_sets_toggle() {
    assert_eq!(SoloSet::A.toggle(), SoloSet::B);
    assert_eq!(SoloSet::B.toggle(), SoloSet::A);
}

#[test]
fn dances_count_up() {
    let mut c = DanceCount::new();
    assert_eq!(c.start(), 0);
    assert_eq!(c.start(), 1);
    assert_eq!(c.start(), 2);
    assert_eq!(c.get(), 3);
}

#[test]
fn schedule_reports_its_phase() {
    let (mut s, _) = BossSchedule::new();
    assert!(!s.in_waves());
    assert_eq!(s.waves_entered(), 0);
    s.switch();
    assert!(s.in_waves());
    assert_eq!(s.waves_entered(), 1);
    s.switch();
    assert!(!s.in_waves());
    assert_eq!(s.waves_entered(), 1);
}
