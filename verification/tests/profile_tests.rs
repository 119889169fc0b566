use awstream::errors::Error;
use awstream::profile::{Profile, Record, SimpleProfile, ADJUST_STICKY_MAX};

#[derive(Clone, Copy, Debug)]
struct DummyConfig {
    pub v: usize,
}

fn create_profile(i: usize) -> Profile<DummyConfig> {
    let mut vec = Vec::new();
    // Populate sample test data: bandwidths 0, 1, 2, ...
    for i in 0..i {
        let c = DummyConfig { v: i };
        let record = Record { bandwidth: i as u64, config: c, accuracy: 0 };
        vec.push(record);
    }
    Profile::new(vec).unwrap()
}

#[test]
fn test_profile_simple_get() {
    let mut profile = create_profile(4);
    assert_eq!(profile.init_config().v, 0);
    assert_eq!(profile.last_config().v, 3);
    assert_eq!(profile.current_config().v, 0);
    assert!(profile.advance_config().is_some());
    assert!(profile.advance_config().is_some());
    assert_eq!(profile.current_config().v, 2);

    // cannot adjust to a higher config
    assert!(profile.adjust_config(4).is_none());

    // can adjust to a lower config
    assert_eq!(profile.adjust_config(1).unwrap().config.v, 1);
}

#[test]
fn test_profile_with_one_record() {
    let mut profile = create_profile(1);
    assert_eq!(profile.init_config().v, 0);
    assert_eq!(profile.last_config().v, 0);
    assert_eq!(profile.current_config().v, 0);
    assert!(profile.adjust_config(1).is_none());
}

#[test]
fn test_profile_stickiness() {
    let mut profile = create_profile(4);
    assert!(profile.advance_config().is_some());
    assert!(profile.advance_config().is_some());
    assert_eq!(profile.current_config().v, 2);

    // sticks to current config for ADJUST_STICKY_MAX times
    for _ in 0..ADJUST_STICKY_MAX {
        assert!(profile.adjust_config(2).is_none());
        assert_eq!(profile.current_config().v, 2);
    }

    assert_eq!(profile.adjust_config(2).unwrap().config.v, 1);
}

#[test]
fn empty_profile_is_refused() {
    let vec: Vec<Record<DummyConfig>> = Vec::new();
    assert_eq!(Profile::new(vec).unwrap_err(), Error::SourceData);
}

#[test]
fn unsorted_profile_is_refused() {
    let c = DummyConfig { v: 0 };
    let vec = vec![
        Record { bandwidth: 1000, config: c, accuracy: 0 },
        Record { bandwidth: 500, config: c, accuracy: 0 },
    ];
    assert_eq!(Profile::new(vec).unwrap_err(), Error::SourceData);
}

#[test]
fn next_rate_delta_at_last_level_is_none() {
    let mut sp = SimpleProfile { levels: vec![500, 1000, 2000], current: 2, adjust_sticky_count: 3 };
    assert!(sp.next_rate_delta().is_none());
    assert!(sp.next_rate().is_none());
    assert!(sp.is_max());
    // Advancing past the top changes nothing.
    assert!(sp.advance_level().is_none());
    assert_eq!(sp.current(), 2);
}

#[test]
fn next_rate_delta_below_the_top_is_the_gap() {
    let sp = SimpleProfile { levels: vec![500, 1000, 2000], current: 1, adjust_sticky_count: 3 };
    assert_eq!(sp.next_rate_delta(), Some(1000));
    assert_eq!(sp.next_rate(), Some(2000));
    assert!(!sp.is_max());
}

#[test]
fn adjust_below_the_smallest_level_lands_on_zero() {
    let mut sp = SimpleProfile { levels: vec![500, 1000, 2000], current: 2, adjust_sticky_count: 3 };
    assert_eq!(sp.adjust_level(100), Some(0));
    assert_eq!(sp.current(), 0);
}
