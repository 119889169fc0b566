use awstream::errors::Error;
use awstream::profile::{Profile, Record};
use awstream::video::{VideoConfig, VideoSource};
use awstream::{Adapt, AdaptAction, AsDatumType, Experiment, ProbeTracker, TimerSource};

fn test_profile() -> Profile<VideoConfig> {
    let records = vec![
        Record { bandwidth: 500, config: VideoConfig { width: 320, skip: 29, quant: 50 }, accuracy: 500 },
        Record { bandwidth: 1000, config: VideoConfig { width: 960, skip: 9, quant: 30 }, accuracy: 800 },
        Record { bandwidth: 2000, config: VideoConfig { width: 1920, skip: 0, quant: 20 }, accuracy: 950 },
    ];
    Profile::new(records).unwrap()
}

fn test_source() -> VideoSource {
    // One row per level; frames count from one, so index zero is unused.
    let sizes = vec![vec![0, 100, 110, 120], vec![0, 200, 210, 220], vec![0, 400, 410, 420]];
    VideoSource::new(sizes, test_profile()).unwrap()
}

#[test]
fn pacer_emits_a_latency_probe_once_a_second() {
    let mut pacer = TimerSource::new(33);
    let prober = ProbeTracker::new(33);
    let mut source = test_source();
    // 1000 / 33 = 30 ticks to a second.
    for tick in 1..=30 {
        let out = pacer.tick_with_source(&mut source, &prober);
        if tick == 30 {
            assert_eq!(out.len(), 2);
            assert_eq!(out[0].datum_type(), AsDatumType::LatencyProbe);
            assert!(matches!(out[1].datum_type(), AsDatumType::Live(_, _)));
        } else {
            assert_eq!(out.len(), 1);
            assert!(matches!(out[0].datum_type(), AsDatumType::Live(_, _)));
        }
    }
}

#[test]
fn active_prober_adds_a_probe_before_the_live_frame() {
    let mut pacer = TimerSource::new(33);
    let mut prober = ProbeTracker::new(33);
    prober.start_probe(1050);
    let pace = prober.pace;
    let mut source = test_source();
    let out = pacer.tick_with_source(&mut source, &prober);
    assert_eq!(out.len(), 2);
    assert_eq!(out[0].datum_type(), AsDatumType::Dummy);
    assert_eq!(out[0].len(), 17 + pace);
    assert!(matches!(out[1].datum_type(), AsDatumType::Live(_, _)));
}

#[test]
fn live_frames_carry_the_level_and_the_trace_size() {
    let mut pacer = TimerSource::new(33);
    let prober = ProbeTracker::new(33);
    let mut source = test_source();
    let out = pacer.tick_with_source(&mut source, &prober);
    assert_eq!(out.len(), 1);
    assert_eq!(out[0].datum_type(), AsDatumType::Live(0, 1));
    // A live frame serializes to 33 bytes plus its payload.
    assert_eq!(out[0].len(), 33 + 100);
}

#[test]
fn frame_numbers_wrap_at_the_trace_end() {
    let mut source = test_source();
    assert_eq!(source.next_frame(), (100, 1));
    assert_eq!(source.next_frame(), (110, 2));
    assert_eq!(source.next_frame(), (120, 3));
    // After the last frame the cursor wraps back to one.
    assert_eq!(source.next_frame(), (100, 1));
}

#[test]
fn adapt_actions_drive_the_source_and_the_prober() {
    let mut prober = ProbeTracker::new(33);
    let mut source = test_source();

    // Starting a probe arms the prober and emits nothing.
    let r = TimerSource::apply_adapt_action(&mut source, &mut prober, AdaptAction::StartProbe(1050));
    assert!(r.is_none());
    assert!(prober.target_pace > 0);

    // Adjusting to a rate stops the probe and lowers the level.
    source.dec_degradation();
    source.dec_degradation();
    assert_eq!(source.current_level(), 2);
    let r = TimerSource::apply_adapt_action(&mut source, &mut prober, AdaptAction::ToRate(700));
    assert!(r.is_none());
    assert_eq!(prober.target_pace, 0);
    assert_eq!(source.current_level(), 0);

    // Raising the pace of a stopped probe completes it.
    let r = TimerSource::apply_adapt_action(&mut source, &mut prober, AdaptAction::IncreaseProbePace);
    assert_eq!(r, Some(awstream::adaptation::Signal::ProbeDone));
}

#[test]
fn a_trace_that_does_not_cover_its_profile_is_refused() {
    // Two rows for a three-level profile.
    let sizes = vec![vec![0, 100], vec![0, 200]];
    assert_eq!(VideoSource::new(sizes, test_profile()).unwrap_err(), Error::SourceData);

    // Rows of unequal length.
    let sizes = vec![vec![0, 100, 110], vec![0, 200], vec![0, 400, 410]];
    assert_eq!(VideoSource::new(sizes, test_profile()).unwrap_err(), Error::SourceData);
}

#[test]
fn the_source_reports_its_profile_and_period() {
    let source = test_source();
    assert_eq!(source.period_in_ms(), 33);
    let sp = source.simple_profile();
    assert_eq!(sp.levels, vec![500, 1000, 2000]);
    assert_eq!(sp.current(), 0);
}
