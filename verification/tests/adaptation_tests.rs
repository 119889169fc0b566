use awstream::adaptation::{Action, Adaptation, Signal, State};
use awstream::client::core_adapt;
use awstream::profile::SimpleProfile;
use awstream::{AdaptAction, ProbeTracker};

/// The tuned knobs: a conservatism factor of 0.9 and a probe margin of
/// 1.05, both in thousandths.
const K: u64 = 900;
const PROBE_EXTRA: u64 = 1050;

fn steady_machine() -> Adaptation {
    Adaptation {
        state: State::Steady,
        steady_count: 0,
        startup_congest: 0,
        steady_enough: 3,
        startup_congest_enough: 3,
    }
}

fn three_level_profile(current: usize) -> SimpleProfile {
    SimpleProfile { levels: vec![500, 1000, 2000], current, adjust_sticky_count: 3 }
}

#[test]
fn startup_ramps_one_level_per_empty_queue_until_max() {
    // Profile [(500, A, 0.5), (1000, B, 0.8), (2000, C, 0.95)], Startup.
    let mut machine = Adaptation::default();
    let mut profile = three_level_profile(0);

    let r = core_adapt(Signal::QueueEmpty, &mut machine, &mut profile, K, PROBE_EXTRA);
    assert_eq!(r, Some(AdaptAction::DecreaseDegradation));
    assert_eq!(profile.current(), 1);
    assert_eq!(machine.state, State::Startup);

    let r = core_adapt(Signal::QueueEmpty, &mut machine, &mut profile, K, PROBE_EXTRA);
    assert_eq!(r, Some(AdaptAction::DecreaseDegradation));
    assert_eq!(profile.current(), 2);
    assert_eq!(machine.state, State::Startup);

    // At the maximum level the machine settles into Steady.
    let r = core_adapt(Signal::QueueEmpty, &mut machine, &mut profile, K, PROBE_EXTRA);
    assert_eq!(r, None);
    assert_eq!(profile.current(), 2);
    assert_eq!(machine.state, State::Steady);
}

#[test]
fn steady_congestion_adjusts_to_the_conservative_rate() {
    // Steady at level 2; QueueCongest(rate=800, latency=120).
    let mut machine = steady_machine();
    let mut profile = three_level_profile(2);

    let r = core_adapt(Signal::QueueCongest(800, 120), &mut machine, &mut profile, K, PROBE_EXTRA);
    // K = 0.9 makes the conservative rate 720; the greatest level with
    // demand at most 720 is level 0.
    assert_eq!(r, Some(AdaptAction::ToRate(720)));
    assert_eq!(profile.current(), 0);
    assert_eq!(machine.state, State::Degrade);
}

#[test]
fn three_empty_queues_in_steady_start_the_probe() {
    // Steady at level 1: the third consecutive QueueEmpty starts a probe
    // for 1.05 times the gap to the next level: 1.05 * (2000 - 1000).
    let mut machine = steady_machine();
    let mut profile = three_level_profile(1);

    assert_eq!(core_adapt(Signal::QueueEmpty, &mut machine, &mut profile, K, PROBE_EXTRA), None);
    assert_eq!(core_adapt(Signal::QueueEmpty, &mut machine, &mut profile, K, PROBE_EXTRA), None);
    let r = core_adapt(Signal::QueueEmpty, &mut machine, &mut profile, K, PROBE_EXTRA);
    assert_eq!(r, Some(AdaptAction::StartProbe(1050)));
    assert_eq!(machine.state, State::Probe);

    // The prober enters active with the pace computed for the tick period.
    let mut prober = ProbeTracker::new(33);
    prober.start_probe(1050);
    assert_eq!(prober.target_pace, 1050 * 33 / 8);
    assert_eq!(prober.delta, prober.target_pace / 5);
    assert_eq!(prober.pace, prober.delta);
}

#[test]
fn probe_ramps_then_the_next_empty_queue_completes_it() {
    // In Probe with the pace ramping toward 1050 kbps over a 33 ms tick:
    // five consecutive QueueEmpty raise the pace past the target, and the
    // sixth yields ProbeDone, which advances the level and settles Steady.
    let mut prober = ProbeTracker::new(33);
    prober.start_probe(1050);
    for _ in 0..5 {
        assert!(prober.inc_pace());
    }
    assert!(prober.pace >= prober.target_pace);
    assert!(!prober.inc_pace());

    let mut machine = Adaptation {
        state: State::Probe,
        steady_count: 0,
        startup_congest: 0,
        steady_enough: 3,
        startup_congest_enough: 3,
    };
    let mut profile = three_level_profile(1);
    let r = core_adapt(Signal::ProbeDone, &mut machine, &mut profile, K, PROBE_EXTRA);
    assert_eq!(r, Some(AdaptAction::DecreaseDegradation));
    assert_eq!(profile.current(), 2);
    assert_eq!(machine.state, State::Steady);
}

#[test]
fn two_empty_queues_start_the_probe_exactly_once() {
    // The steady counter is already satisfied: the next QueueEmpty fires
    // StartProbe; the one after, now probing, only raises the pace.
    let mut machine = steady_machine();
    machine.steady_count = 2;
    let a1 = machine.transit(Signal::QueueEmpty, false);
    let a2 = machine.transit(Signal::QueueEmpty, false);
    assert_eq!(a1, Action::StartProbe);
    assert_eq!(a2, Action::IncreaseProbePace);
}

#[test]
fn steady_empty_queue_at_max_level_stays_steady() {
    let mut machine = steady_machine();
    let a = machine.transit(Signal::QueueEmpty, true);
    assert_eq!(a, Action::NoOp);
    assert_eq!(machine.state, State::Steady);
}

#[test]
fn startup_tolerates_transient_congestion() {
    let mut machine = Adaptation::default();
    // Three congestion signals are tolerated during startup.
    for _ in 0..3 {
        assert_eq!(machine.transit(Signal::QueueCongest(700, 5), false), Action::NoOp);
        assert_eq!(machine.state, State::Startup);
    }
    // The fourth degrades.
    assert_eq!(machine.transit(Signal::QueueCongest(700, 5), false), Action::AdjustConfig(700));
    assert_eq!(machine.state, State::Degrade);
}

#[test]
fn degrade_follows_congestion_and_settles_on_empty() {
    let mut machine = steady_machine();
    machine.state = State::Degrade;
    assert_eq!(machine.transit(Signal::RemoteCongest(600, 80), false), Action::AdjustConfig(600));
    assert_eq!(machine.state, State::Degrade);
    assert_eq!(machine.transit(Signal::QueueEmpty, false), Action::NoOp);
    assert_eq!(machine.state, State::Steady);
}

#[test]
fn probe_backs_off_on_congestion() {
    let mut machine = steady_machine();
    machine.state = State::Probe;
    assert_eq!(machine.transit(Signal::QueueCongest(900, 30), false), Action::StopProbe);
    assert_eq!(machine.state, State::Steady);
}

#[test]
fn stop_probe_twice_equals_stop_probe_once() {
    let mut prober = ProbeTracker::new(33);
    prober.start_probe(1050);
    prober.stop_probe();
    let once = prober;
    prober.stop_probe();
    assert_eq!(prober, once);
}

#[test]
fn inactive_prober_emits_nothing() {
    let mut prober = ProbeTracker::new(33);
    for _ in 0..10 {
        assert!(prober.next().is_none());
    }
    prober.start_probe(1050);
    assert!(prober.next().is_some());
    prober.stop_probe();
    for _ in 0..10 {
        assert!(prober.next().is_none());
    }
}
