use awstream::bw_monitor::{BwMonitor, LatencyMonitor};
use awstream::server::Reporter;
use awstream::utils::{ExponentialSmooth, StreamingStat};
use awstream::AsDatumType;

#[test]
fn bw_monitor_turns_bytes_into_kbps() {
    let mut m = BwMonitor::new();
    m.add(50_000);
    m.add(75_000);
    assert_eq!(m.rate(), 0);
    m.update(1000);
    // 125,000 bytes over one second are 1,000 kbps.
    assert_eq!(m.rate(), 1000);
    assert_eq!(m.sample, 0);
}

#[test]
fn latency_monitor_averages_between_updates() {
    let mut m = LatencyMonitor::new();
    m.add(10);
    m.add(20);
    m.add(60);
    m.update();
    assert_eq!(m.rate(), 30);
    // With no samples the average is zero.
    m.update();
    assert_eq!(m.rate(), 0);
}

#[test]
fn exponential_smoothing_halves_toward_each_sample() {
    let mut s = ExponentialSmooth::new(500);
    s.add(100_000);
    assert_eq!(s.val(), 50_000);
    s.add(50_000);
    assert_eq!(s.val(), 50_000);
    s.add(0);
    assert_eq!(s.val(), 25_000);
}

#[test]
fn streaming_stat_keeps_the_window_minimum() {
    let mut w = StreamingStat::new(u64::MAX, 3);
    assert_eq!(w.min(), u64::MAX);
    w.add(50);
    assert_eq!(w.min(), 50);
    w.add(20);
    w.add(70);
    assert_eq!(w.min(), 20);
    // A fourth sample overwrites the oldest (50).
    w.add(90);
    assert_eq!(w.min(), 20);
    // Two more overwrite 20 and 70.
    w.add(80);
    w.add(60);
    assert_eq!(w.min(), 60);
}

#[test]
fn no_goodput_estimate_means_no_high_latency() {
    let r = Reporter::new();
    assert!(!r.latency_is_high(1_000_000, 5000));
}

#[test]
fn latency_is_high_beyond_the_stepped_tolerance() {
    let mut r = Reporter::new();
    // Goodput: 50,000 bytes over one second, 400 kbps.
    r.goodput.add(50_000);
    r.goodput.update(1000);
    // The best network latency seen is 10 ms.
    r.update_net_latency(10);
    // A 1,000-byte frame over 400 kbps adds 2 ms in the model; it
    // expects 12 ms, tolerated up to ten times that.
    assert!(!r.latency_is_high(120, 1000));
    assert!(r.latency_is_high(121, 1000));
}

#[test]
fn reports_are_rate_limited_to_one_per_half_second() {
    let mut r = Reporter::new();
    r.goodput.add(50_000);
    r.goodput.update(1000);
    r.throughput.add(60_000);
    r.throughput.update(1000);
    r.update_net_latency(10);
    r.last_report_time = 10_000;

    // A frame sent at 20,000 ms observed at 20,400 ms: 400 ms of latency
    // against a tolerance of 120 ms, and the last report long past.
    let report = r.report(1000, 20_000, 20_400).unwrap();
    assert_eq!(report.latency, 400);
    assert_eq!(report.goodput, 400);
    assert_eq!(report.throughput, 480);
    assert_eq!(r.last_report_time, 20_400);

    // The same situation a quarter second later is silenced.
    assert!(r.report(1000, 20_200, 20_600).is_none());

    // After the gap a report goes out again.
    assert!(r.report(1000, 20_600, 21_000).is_some());
}

#[test]
fn low_latency_frames_report_nothing() {
    let mut r = Reporter::new();
    r.goodput.add(50_000);
    r.goodput.update(1000);
    r.update_net_latency(10);
    r.last_report_time = 0;
    assert!(r.report(1000, 100_000, 100_050).is_none());
}

#[test]
fn every_datum_counts_toward_throughput_and_only_live_toward_goodput() {
    let mut r = Reporter::new();
    assert!(r.on_datum(AsDatumType::Dummy, 500, 0, 1000).is_none());
    assert_eq!(r.throughput.sample, 500);
    assert_eq!(r.goodput.sample, 0);
    assert!(r.on_datum(AsDatumType::Live(1, 7), 300, 900, 1000).is_none());
    assert_eq!(r.throughput.sample, 800);
    assert_eq!(r.goodput.sample, 300);
}

#[test]
fn latency_probes_feed_the_network_delay_window() {
    let mut r = Reporter::new();
    assert!(r.on_datum(AsDatumType::LatencyProbe, 17, 1000, 1040).is_none());
    assert_eq!(r.net_latency.min(), 40);
    assert_eq!(r.throughput.sample, 17);
    assert_eq!(r.goodput.sample, 0);
}

#[test]
fn a_live_frame_with_high_latency_reports_through_on_datum() {
    let mut r = Reporter::new();
    r.goodput.add(50_000);
    r.goodput.update(1000);
    r.update_net_latency(10);
    r.last_report_time = 0;
    // 1,000 bytes over 400 kbps: the model expects 12 ms, tolerated up to
    // 120 ms; the observed 400 ms is high and the last report long past.
    let report = r.on_datum(AsDatumType::Live(2, 5), 1000, 20_000, 20_400).unwrap();
    assert_eq!(report.latency, 400);
    assert_eq!(report.goodput, 400);
    assert_eq!(r.last_report_time, 20_400);
}
