use kvbench::config::{Compression, RunConfig, StoreTuning, WriteStrategy};
use kvbench::reporter::{seconds_hundredths, ProgressReporter};
use kvbench::workload::{encode_value, random_pair, KvPair, KEY_LEN};

#[test]
fn value_is_big_endian() {
    assert_eq!(encode_value(0x0102030405060708), [1, 2, 3, 4, 5, 6, 7, 8]);
    assert_eq!(encode_value(0), [0; 8]);
    assert_eq!(encode_value(u64::MAX), [0xff; 8]);
    assert_eq!(encode_value(0x1234), 0x1234u64.to_be_bytes());
    let p = KvPair { key: [7; 32], value: 258 };
    assert_eq!(p.value_bytes(), [0, 0, 0, 0, 0, 0, 1, 2]);
}

#[test]
fn random_pairs_differ() {
    let a = random_pair();
    let b = random_pair();
    assert_eq!(a.key.len(), KEY_LEN);
    assert_ne!(a.key, b.key);
}

#[test]
fn config_rejects_zero_sizes() {
    assert!(RunConfig::new(10, 0, 5, WriteStrategy::Batched).is_none());
    assert!(RunConfig::new(10, 5, 0, WriteStrategy::Batched).is_none());
    let c = RunConfig::new(10, 5, 3, WriteStrategy::Immediate).unwrap();
    assert_eq!((c.num_entries, c.batch_size, c.log_interval), (10, 5, 3));
    assert!(!c.groups());
    assert!(RunConfig::bulk_load(WriteStrategy::Batched).groups());
}

#[test]
fn bulk_load_profiles() {
    let c = RunConfig::bulk_load(WriteStrategy::Transactional);
    assert_eq!((c.num_entries, c.batch_size, c.log_interval), (1_000_000, 10_000, 10_000));
    let t = StoreTuning::bulk_load();
    assert_eq!(t.write_buffer_size, 536_870_912);
    assert_eq!(t.max_write_buffer_number, 3);
    assert_eq!(t.max_background_jobs, 4);
    assert_eq!(t.max_bytes_for_level_base, 1_073_741_824);
    assert_eq!(t.target_file_size_base, 134_217_728);
    assert_eq!((t.level0_compaction_trigger, t.level0_slowdown_trigger, t.level0_stop_trigger), (4, 20, 24));
    assert_eq!(t.point_lookup_cache_mb, 10);
    assert_eq!(t.compression, Compression::Snappy);
    assert!(!t.write_ahead_log);
}

#[test]
fn interval_clock_restarts() {
    let mut r = ProgressReporter::start(1_000);
    let s1 = r.sample(10, 5_000);
    assert_eq!((s1.entries, s1.elapsed_nanos), (10, 4_000));
    let s2 = r.sample(20, 5_500);
    assert_eq!(s2.elapsed_nanos, 500);
    let total = r.summary(20, 9_000);
    assert_eq!((total.entries, total.elapsed_nanos), (20, 8_000));
    // a reading before the interval start counts as no time
    assert_eq!(r.sample(30, 100).elapsed_nanos, 0);
}

#[test]
fn seconds_split() {
    assert_eq!(seconds_hundredths(1_234_567_890), (1, 23));
    assert_eq!(seconds_hundredths(999_999_999), (0, 99));
    assert_eq!(seconds_hundredths(0), (0, 0));
}
