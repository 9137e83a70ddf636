use picm::timer::AvgPerformanceTimer;

#[test]
fn timer_reports_every_period() {
    let mut t = AvgPerformanceTimer::new(2);
    t.begin();
    assert!(t.end().is_none());
    t.begin();
    assert!(t.end().is_none());
    t.begin();
    let r = t.end();
    assert!(r.is_some());
    assert_eq!(r.unwrap(), t.avg_us);
    assert_eq!(t.current_tick, 0);
    // the cycle starts over
    t.begin();
    assert!(t.end().is_none());
}

#[test]
fn timer_with_zero_period_reports_always() {
    let mut t = AvgPerformanceTimer::new(0);
    t.begin();
    assert!(t.end().is_some());
    t.begin();
    assert!(t.end().is_some());
}
