//! Counters of the cache, collected here and published by the caller.

use vstd::prelude::*;

verus! {

/// Counts lookups that found a value and lookups that did not.
#[derive(Clone, Copy, Debug, PartialEq, Eq, Structural)]
pub struct HitRecorder {
    /// Lookups without a value since the last report.
    pub not_hit_cnt: u64,
    /// Lookups with a value since the last report.
    pub hit_cnt: u64,
}

/// Lookups since the last report.
#[derive(Clone, Copy, Debug, PartialEq, Eq, Structural)]
pub struct HitRatio {
    /// Lookups that found a value.
    pub hits: u64,
    /// All lookups.
    pub visits: u64,
}

/// The successor of `n`, zero after the largest.
pub open spec fn next_count(n: u64) -> u64 {
    if n == u64::MAX {
        0
    } else {
        (n + 1) as u64
    }
}

impl HitRecorder {
    /// No lookup yet.
    pub fn new() -> (r: Self)
        ensures
            r.not_hit_cnt == 0,
            r.hit_cnt == 0,
    {
        HitRecorder { not_hit_cnt: 0, hit_cnt: 0 }
    }

    /// The recorder after one more lookup, which found a value if `found`.
    pub open spec fn counted(self, found: bool) -> HitRecorder {
        if found {
            HitRecorder { hit_cnt: next_count(self.hit_cnt), ..self }
        } else {
            HitRecorder { not_hit_cnt: next_count(self.not_hit_cnt), ..self }
        }
    }

    /// Counts a lookup that found no value.
    pub fn not_hit(&mut self)
        ensures
            *final(self) == old(self).counted(false),
    {
        self.not_hit_cnt = self.not_hit_cnt.wrapping_add(1);
    }

    /// Counts a lookup that found a value.
    pub fn hit(&mut self)
        ensures
            *final(self) == old(self).counted(true),
    {
        self.hit_cnt = self.hit_cnt.wrapping_add(1);
    }

    /// What a report on this recorder says: nothing where there was no lookup.
    pub open spec fn ratio(self) -> Option<HitRatio> {
        if self.not_hit_cnt + self.hit_cnt > 0 {
            Some(HitRatio { hits: self.hit_cnt, visits: (self.not_hit_cnt + self.hit_cnt) as u64 })
        } else {
            None
        }
    }

    /// Reports the lookups since the last report and starts counting anew.
    pub fn report(&mut self) -> (r: Option<HitRatio>)
        requires
            old(self).not_hit_cnt + old(self).hit_cnt <= u64::MAX,
        ensures
            r == old(self).ratio(),
            final(self).not_hit_cnt == 0,
            final(self).hit_cnt == 0,
    {
        let not_hit_cnt = self.not_hit_cnt;
        let hit_cnt = self.hit_cnt;
        self.not_hit_cnt = 0;
        self.hit_cnt = 0;
        let visit_cnt: u64 = not_hit_cnt + hit_cnt;
        if visit_cnt > 0 {
            Some(HitRatio { hits: hit_cnt, visits: visit_cnt })
        } else {
            None
        }
    }
}

/// The counters of the cache.
#[derive(Clone, Copy, Debug, PartialEq, Eq, Structural)]
pub struct CacheMetricsReporter {
    /// Lookups of accounts, slots and code.
    pub block_cache_hit_record: HitRecorder,
    /// Lookups of trie nodes.
    pub trie_cache_hit_record: HitRecorder,
    /// Number of cached items at the last count.
    pub cached_items: u64,
    /// Latest merged block.
    pub merged_block_number: u64,
    /// Latest persisted block.
    pub persist_block_number: u64,
    /// Height of the latest state eviction.
    pub eviction_block_number: u64,
}

/// What the cache publishes about itself.
#[derive(Clone, Copy, Debug, PartialEq, Eq, Structural)]
pub struct CacheReport {
    /// Lookups of accounts, slots and code, `None` if there were none.
    pub block_cache_hits: Option<HitRatio>,
    /// Lookups of trie nodes, `None` if there were none.
    pub trie_cache_hits: Option<HitRatio>,
    /// Number of cached items.
    pub cache_num_items: u64,
    /// Latest merged block.
    pub latest_merged_block_number: u64,
    /// Latest persisted block.
    pub latest_persist_block_number: u64,
    /// Height of the latest state eviction.
    pub latest_eviction_block_number: u64,
}

impl CacheMetricsReporter {
    /// All counters at zero.
    pub open spec fn zero() -> CacheMetricsReporter {
        CacheMetricsReporter {
            block_cache_hit_record: HitRecorder { not_hit_cnt: 0, hit_cnt: 0 },
            trie_cache_hit_record: HitRecorder { not_hit_cnt: 0, hit_cnt: 0 },
            cached_items: 0,
            merged_block_number: 0,
            persist_block_number: 0,
            eviction_block_number: 0,
        }
    }

    /// All counters at zero.
    pub fn new() -> (r: Self)
        ensures
            r == Self::zero(),
            r.block_cache_hit_record.hit_cnt == 0,
            r.block_cache_hit_record.not_hit_cnt == 0,
            r.trie_cache_hit_record.hit_cnt == 0,
            r.trie_cache_hit_record.not_hit_cnt == 0,
            r.cached_items == 0,
            r.merged_block_number == 0,
            r.persist_block_number == 0,
            r.eviction_block_number == 0,
    {
        CacheMetricsReporter {
            block_cache_hit_record: HitRecorder::new(),
            trie_cache_hit_record: HitRecorder::new(),
            cached_items: 0,
            merged_block_number: 0,
            persist_block_number: 0,
            eviction_block_number: 0,
        }
    }

    /// The counters after one more lookup of an account, a slot or code.
    pub open spec fn block_lookup(self, found: bool) -> CacheMetricsReporter {
        CacheMetricsReporter {
            block_cache_hit_record: self.block_cache_hit_record.counted(found),
            ..self
        }
    }

    /// The counters after one more lookup of a trie node.
    pub open spec fn trie_lookup(self, found: bool) -> CacheMetricsReporter {
        CacheMetricsReporter {
            trie_cache_hit_record: self.trie_cache_hit_record.counted(found),
            ..self
        }
    }

    /// What a report on these counters says.
    pub open spec fn reported(self) -> CacheReport {
        CacheReport {
            block_cache_hits: self.block_cache_hit_record.ratio(),
            trie_cache_hits: self.trie_cache_hit_record.ratio(),
            cache_num_items: self.cached_items,
            latest_merged_block_number: self.merged_block_number,
            latest_persist_block_number: self.persist_block_number,
            latest_eviction_block_number: self.eviction_block_number,
        }
    }

    /// The counters after a report: the lookups start anew, the rest stays.
    pub open spec fn after_report(self) -> CacheMetricsReporter {
        CacheMetricsReporter {
            block_cache_hit_record: HitRecorder { not_hit_cnt: 0, hit_cnt: 0 },
            trie_cache_hit_record: HitRecorder { not_hit_cnt: 0, hit_cnt: 0 },
            ..self
        }
    }

    /// The lookups since the last report fit into a counter.
    pub open spec fn reportable(self) -> bool {
        &&& self.block_cache_hit_record.not_hit_cnt + self.block_cache_hit_record.hit_cnt
            <= u64::MAX
        &&& self.trie_cache_hit_record.not_hit_cnt + self.trie_cache_hit_record.hit_cnt <= u64::MAX
    }

    /// Reports all counters and starts counting lookups anew.
    pub fn report(&mut self) -> (r: CacheReport)
        requires
            old(self).reportable(),
        ensures
            r == old(self).reported(),
            *final(self) == old(self).after_report(),
    {
        let block_cache_hits = self.block_cache_hit_record.report();
        let trie_cache_hits = self.trie_cache_hit_record.report();
        CacheReport {
            block_cache_hits,
            trie_cache_hits,
            cache_num_items: self.cached_items,
            latest_merged_block_number: self.merged_block_number,
            latest_persist_block_number: self.persist_block_number,
            latest_eviction_block_number: self.eviction_block_number,
        }
    }
}

} // verus!
