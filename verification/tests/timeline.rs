use shooter::timeline::WaveTimeline;

#[test]
fn waves_come_in_order() {
    let mut t = WaveTimeline::new(3);
    assert_eq!(t.next(false), None);
    assert_eq!(t.next(true), Some(0));
    assert_eq!(t.next(false), None);
    assert_eq!(t.next(true), Some(1));
    assert_eq!(t.next(true), Some(2));
    assert!(!t.finished());
    assert_eq!(t.next(true), None);
    assert!(t.finished());
    assert_eq!(t.next(true), None);
}

#[test]
fn skipping_flag() {
    let t = WaveTimeline::new(1);
    assert!(!t.is_skipping());
    let mut t = t.skip();
    assert!(t.is_skipping());
    t.stop_skipping();
    assert!(!t.is_skipping());
}
