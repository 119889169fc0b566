use awstream::adaptation::Signal;
use awstream::controller::Monitor;

#[test]
fn congestion_tick_reports_the_discounted_rate_and_latency() {
    let mut m = Monitor::new();
    // Warm the smoothed rate up to 50,000 bytes per interval.
    assert_eq!(m.react_to_timer(100_000, 100_000), None);
    assert_eq!(m.queued, 0);

    // Over one interval: 150,000 bytes produced, 50,000 consumed. The
    // queue holds 100,000 bytes, the rate is 4,000 kbps, the estimated
    // latency 200 ms, and the signal carries 0.9 of the rate.
    let s = m.react_to_timer(150_000, 50_000);
    assert_eq!(m.queued, 100_000);
    assert_eq!(s, Some(Signal::QueueCongest(3_600, 200)));
}

#[test]
fn quiet_intervals_accumulate_into_one_queue_empty() {
    let mut m = Monitor::new();
    // Twenty quiet intervals are tolerated; the twenty-first reports an
    // empty queue and resets the count.
    for _ in 0..20 {
        assert_eq!(m.react_to_timer(1000, 1000), None);
    }
    assert_eq!(m.react_to_timer(1000, 1000), Some(Signal::QueueEmpty));
    assert_eq!(m.empty_count, 0);
}

#[test]
fn congestion_resets_the_quiet_count() {
    let mut m = Monitor::new();
    for _ in 0..10 {
        assert_eq!(m.react_to_timer(1000, 1000), None);
    }
    // A congested interval: lots produced, little consumed.
    let s = m.react_to_timer(100_000, 500);
    assert!(matches!(s, Some(Signal::QueueCongest(_, _))));
    assert_eq!(m.empty_count, 0);
}

#[test]
fn queue_gauge_is_produced_minus_consumed() {
    let mut m = Monitor::new();
    let ticks: Vec<(u64, u64)> = vec![(5000, 1000), (0, 2000), (3000, 3000), (1000, 0)];
    let mut produced_total: u64 = 0;
    let mut consumed_total: u64 = 0;
    for (p, c) in ticks {
        m.react_to_timer(p, c);
        produced_total += p;
        consumed_total += c;
        assert_eq!(m.queued, produced_total - consumed_total);
    }
}
