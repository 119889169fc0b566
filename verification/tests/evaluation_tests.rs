use awstream::analytics::{aggregate_stats, find_stat, match_config};
use awstream::evaluation::{get_frame_stats, stat_from_counts, FrameStat, Stat, VideoConfig};
use awstream::helper::{all_configurations, skip_to_fps};
use awstream::{video, Setting};

#[test]
fn derived_file_names_spell_the_configuration() {
    let vc = VideoConfig::new(1920, 0, 20);
    assert_eq!(vc.derive_acc_file("/data"), "/data/acc-1920x0x20.csv");
    assert_eq!(vc.derive_ts_file("/data"), "/data/ts-1920x0x20.csv");
    assert_eq!(vc.derive_bw_file("out"), "out/bw-1920x0x20.csv");
    let vc = VideoConfig::new(640, 14, 5);
    assert_eq!(vc.derive_acc_file("."), "./acc-640x14x5.csv");
}

#[test]
fn skip_to_fps_matches_the_ladder() {
    assert_eq!(skip_to_fps(0), 30);
    assert_eq!(skip_to_fps(2), 10);
    assert_eq!(skip_to_fps(5), 5);
    assert_eq!(skip_to_fps(9), 3);
    assert_eq!(skip_to_fps(14), 2);
    assert_eq!(skip_to_fps(29), 1);
    // A skip off the ladder rounds to the nearest tenth first.
    assert_eq!(skip_to_fps(3), 7);
    assert_eq!(skip_to_fps(7), 3);
}

#[test]
fn all_configurations_enumerates_the_full_product() {
    let all = all_configurations();
    assert_eq!(all.len(), 216);
    assert_eq!(all[0], VideoConfig::new(1920, 0, 0));
    assert_eq!(all[1], VideoConfig::new(1920, 0, 10));
    assert_eq!(all[6], VideoConfig::new(1920, 2, 0));
    assert_eq!(all[37], VideoConfig::new(1600, 0, 10));
    assert_eq!(all[215], VideoConfig::new(320, 29, 50));
}

#[test]
fn stats_count_matches_and_misses() {
    // Seven detections, five groundtruth objects, four matched.
    let stat = stat_from_counts(7, 5, 4);
    assert_eq!(stat, Stat::new(4, 3, 1));
    // More matches than groundtruth objects are capped.
    let stat = stat_from_counts(7, 3, 5);
    assert_eq!(stat, Stat::new(3, 4, 0));
}

#[test]
fn frame_stats_tag_each_stat_with_its_frame() {
    let vc = VideoConfig::new(960, 9, 30);
    let stats = vec![Stat::new(1, 0, 0), Stat::new(2, 1, 3)];
    let frames = get_frame_stats(&stats, vc);
    assert_eq!(frames.len(), 2);
    assert_eq!(frames[0], FrameStat::new(0, vc, stats[0]));
    assert_eq!(frames[1].to_tuple(), (1, 960, 9, 30, 2, 1, 3));
}

#[test]
fn matching_configs_agree_on_every_field() {
    let a = video::VideoConfig { width: 1280, skip: 5, quant: 40 };
    assert!(match_config(a, VideoConfig::new(1280, 5, 40)));
    assert!(!match_config(a, VideoConfig::new(1280, 5, 41)));
    assert!(!match_config(a, VideoConfig::new(1281, 5, 40)));
}

#[test]
fn a_setting_carries_the_connection_and_the_paths() {
    let s = Setting {
        server: String::from("127.0.0.1"),
        port: 14000,
        profile_path: String::from("profile.csv"),
        source_path: String::from("source.csv"),
        stat_path: String::from("stat.csv"),
    };
    assert_eq!(s.port, 14000);
    assert_eq!(s.clone().server, "127.0.0.1");
}

#[test]
fn the_log_tally_sums_matching_frame_stats() {
    let cfg_a = video::VideoConfig { width: 320, skip: 29, quant: 50 };
    let cfg_b = video::VideoConfig { width: 960, skip: 9, quant: 30 };
    let configs = vec![cfg_a, cfg_b];
    let eval_a = VideoConfig::new(320, 29, 50);
    let eval_b = VideoConfig::new(960, 9, 30);
    let stats = vec![
        FrameStat::new(1, eval_a, Stat::new(1, 2, 3)),
        FrameStat::new(1, eval_b, Stat::new(4, 0, 1)),
        FrameStat::new(2, eval_b, Stat::new(5, 1, 0)),
    ];
    let logs = vec![(1, 0), (1, 1), (2, 1)];
    assert_eq!(aggregate_stats(&logs, &configs, &stats), Some((10, 3, 4)));
    // A frame without a stat, or a level off the ladder, yields nothing.
    assert_eq!(aggregate_stats(&vec![(3, 0)], &configs, &stats), None);
    assert_eq!(aggregate_stats(&vec![(1, 2)], &configs, &stats), None);
}

#[test]
fn find_stat_returns_the_first_match() {
    let cfg = video::VideoConfig { width: 320, skip: 29, quant: 50 };
    let eval_cfg = VideoConfig::new(320, 29, 50);
    let stats = vec![
        FrameStat::new(1, eval_cfg, Stat::new(9, 9, 9)),
        FrameStat::new(1, eval_cfg, Stat::new(1, 1, 1)),
    ];
    assert_eq!(find_stat(&stats, 1, cfg), Some(Stat::new(9, 9, 9)));
    assert_eq!(find_stat(&stats, 2, cfg), None);
}
