//! Run configuration: the workload shape and the store's tuning profile.
use vstd::prelude::*;

verus! {

/// How generated pairs reach the store.
#[derive(Clone, Copy, Debug, PartialEq, Eq, Structural)]
pub enum WriteStrategy {
    /// Each pair is written on its own.
    Immediate,
    /// Pairs are gathered client-side and submitted as one atomic batch.
    Batched,
    /// Pairs are inserted inside a transaction that is committed per batch.
    Transactional,
}

/// The workload of one load run. Fixed for the run's duration.
#[derive(Clone, Copy, Debug, PartialEq, Eq, Structural)]
pub struct RunConfig {
    pub num_entries: u64,
    pub batch_size: u64,
    pub log_interval: u64,
    pub strategy: WriteStrategy,
}

impl RunConfig {
    pub open spec fn wf(self) -> bool {
        &&& self.batch_size > 0
        &&& self.log_interval > 0
    }

    /// Whether pairs are grouped into batches or transactions.
    pub open spec fn groups_pairs(self) -> bool {
        self.strategy != WriteStrategy::Immediate
    }

    /// A configuration, unless the batch size or the log interval is zero.
    pub fn new(num_entries: u64, batch_size: u64, log_interval: u64, strategy: WriteStrategy) -> (r:
        Option<RunConfig>)
        ensures
            r is Some <==> (batch_size > 0 && log_interval > 0),
            r matches Some(c) ==> c.wf() && c == (RunConfig {
                num_entries,
                batch_size,
                log_interval,
                strategy,
            }),
    {
        if batch_size == 0 || log_interval == 0 {
            None
        } else {
            Some(RunConfig { num_entries, batch_size, log_interval, strategy })
        }
    }

    /// The bulk load used for both engines: a million pairs, ten thousand per
    /// batch, progress every ten thousand.
    pub fn bulk_load(strategy: WriteStrategy) -> (r: RunConfig)
        ensures
            r.wf(),
            r.num_entries == 1_000_000,
            r.batch_size == 10_000,
            r.log_interval == 10_000,
            r.strategy == strategy,
    {
        RunConfig { num_entries: 1_000_000, batch_size: 10_000, log_interval: 10_000, strategy }
    }

    pub fn groups(&self) -> (r: bool)
        ensures
            r == self.groups_pairs(),
    {
        match self.strategy {
            WriteStrategy::Immediate => false,
            _ => true,
        }
    }
}

/// Block compression applied by the store.
#[derive(Clone, Copy, Debug, PartialEq, Eq, Structural)]
pub enum Compression {
    Uncompressed,
    Snappy,
}

/// Tunables handed to a log-structured store when it is opened.
#[derive(Clone, Copy, Debug, PartialEq, Eq, Structural)]
pub struct StoreTuning {
    pub write_buffer_size: u64,
    pub max_write_buffer_number: u32,
    pub max_background_jobs: u32,
    pub max_bytes_for_level_base: u64,
    pub target_file_size_base: u64,
    pub level0_compaction_trigger: u32,
    pub level0_slowdown_trigger: u32,
    pub level0_stop_trigger: u32,
    pub point_lookup_cache_mb: u64,
    pub compression: Compression,
    pub write_ahead_log: bool,
}

impl StoreTuning {
    /// Level-0 thresholds must escalate: compaction starts before writes slow
    /// down, and writes slow down before they stop.
    pub open spec fn wf(self) -> bool {
        &&& 0 < self.level0_compaction_trigger
        &&& self.level0_compaction_trigger <= self.level0_slowdown_trigger
        &&& self.level0_slowdown_trigger <= self.level0_stop_trigger
        &&& self.max_write_buffer_number > 0
        &&& self.max_background_jobs > 0
    }

    /// A profile for write throughput: 512 MiB memtables, three of them, four
    /// background jobs, a 1 GiB level base, 128 MiB files, level-0 triggers
    /// 4 / 20 / 24, Snappy, and no write-ahead log.
    pub fn bulk_load() -> (r: StoreTuning)
        ensures
            r.wf(),
            r.write_buffer_size == 512 * 1024 * 1024,
            r.max_write_buffer_number == 3,
            r.max_background_jobs == 4,
            r.max_bytes_for_level_base == 1024 * 1024 * 1024,
            r.target_file_size_base == 128 * 1024 * 1024,
            r.level0_compaction_trigger == 4,
            r.level0_slowdown_trigger == 20,
            r.level0_stop_trigger == 24,
            r.point_lookup_cache_mb == 10,
            r.compression == Compression::Snappy,
            !r.write_ahead_log,
    {
        StoreTuning {
            write_buffer_size: 512 * 1024 * 1024,
            max_write_buffer_number: 3,
            max_background_jobs: 4,
            max_bytes_for_level_base: 1024 * 1024 * 1024,
            target_file_size_base: 128 * 1024 * 1024,
            level0_compaction_trigger: 4,
            level0_slowdown_trigger: 20,
            level0_stop_trigger: 24,
            point_lookup_cache_mb: 10,
            compression: Compression::Snappy,
            write_ahead_log: false,
        }
    }
}

} // verus!
