//! Appservice transaction handling for bridges: duplicate detection,
//! per-bridge concurrency permits, active-transaction tracking and statistics.
use vstd::prelude::*;
use vstd::string::*;

use crate::bridge::BridgeCompatibilityConfig;
use crate::counters::{inc64, inc32, dec32, add64, bump64, bump32, drop32, sum64, copy_opt_string};
use crate::error::{ErrorKind, ServiceError, is_error, make_error};
use crate::strmap::StrMap;

verus! {

/// Where a transaction stands.
#[derive(Debug, Clone, Copy, PartialEq, Eq, Structural)]
pub enum TransactionStatus {
    Processing,
    Completed,
    Failed,
    TimedOut,
    Retried,
}

/// Per-appservice transaction counters.
#[derive(Debug, Clone, Copy, PartialEq, Eq, Structural)]
pub struct TransactionStats {
    pub total_transactions: u64,
    pub successful_transactions: u64,
    pub failed_transactions: u64,
    pub retried_transactions: u64,
    pub timed_out_transactions: u64,
    /// Time of the last recorded start, in milliseconds since the epoch.
    pub last_activity_ms: u64,
    pub concurrent_transactions: u32,
}

/// A transaction that has started and not yet completed.
#[derive(Debug)]
pub struct TransactionRecord {
    pub transaction_id: String,
    pub appservice_id: String,
    pub start_ms: u64,
    pub status: TransactionStatus,
    pub event_count: usize,
    pub retry_count: u32,
    pub last_error: Option<String>,
}

impl TransactionRecord {
    /// A field-by-field copy.
    pub fn duplicate(&self) -> (r: Self)
        ensures
            r == *self,
    {
        TransactionRecord {
            transaction_id: self.transaction_id.clone(),
            appservice_id: self.appservice_id.clone(),
            start_ms: self.start_ms,
            status: self.status,
            event_count: self.event_count,
            retry_count: self.retry_count,
            last_error: copy_opt_string(&self.last_error),
        }
    }
}

/// Fresh counters, as created on the first use of an appservice at `now`.
pub open spec fn fresh_stats(now: u64) -> TransactionStats {
    TransactionStats {
        total_transactions: 0,
        successful_transactions: 0,
        failed_transactions: 0,
        retried_transactions: 0,
        timed_out_transactions: 0,
        last_activity_ms: now,
        concurrent_transactions: 0,
    }
}

/// The counters of appservice `a`, or fresh ones.
pub open spec fn stats_of(m: Map<Seq<char>, TransactionStats>, a: Seq<char>, now: u64) -> TransactionStats {
    if m.contains_key(a) { m[a] } else { fresh_stats(now) }
}

/// Counters after a transaction starts at `now`.
pub open spec fn after_start(s: TransactionStats, now: u64) -> TransactionStats {
    TransactionStats {
        total_transactions: inc64(s.total_transactions),
        concurrent_transactions: inc32(s.concurrent_transactions),
        last_activity_ms: now,
        ..s
    }
}

/// Counters after a transaction succeeds.
pub open spec fn after_success(s: TransactionStats) -> TransactionStats {
    TransactionStats {
        successful_transactions: inc64(s.successful_transactions),
        concurrent_transactions: dec32(s.concurrent_transactions),
        ..s
    }
}

/// Counters after a transaction fails.
pub open spec fn after_failure(s: TransactionStats) -> TransactionStats {
    TransactionStats {
        failed_transactions: inc64(s.failed_transactions),
        concurrent_transactions: dec32(s.concurrent_transactions),
        ..s
    }
}

/// Counters after a transaction times out.
pub open spec fn after_timeout(s: TransactionStats) -> TransactionStats {
    TransactionStats {
        timed_out_transactions: inc64(s.timed_out_transactions),
        concurrent_transactions: dec32(s.concurrent_transactions),
        ..s
    }
}

/// The key under which a transaction is tracked: `appservice:txn`.
pub open spec fn txn_key(appservice_id: Seq<char>, txn_id: Seq<char>) -> Seq<char> {
    appservice_id + ":"@ + txn_id
}

/// The record of a transaction that has just started.
pub open spec fn started_record(r: TransactionRecord, appservice_id: Seq<char>, txn_id: Seq<char>, event_count: usize, now: u64) -> bool {
    &&& r.transaction_id@ == txn_id
    &&& r.appservice_id@ == appservice_id
    &&& r.start_ms == now
    &&& r.status == TransactionStatus::Processing
    &&& r.event_count == event_count
    &&& r.retry_count == 0
    &&& r.last_error.is_none()
}

/// `rec` is the record of some active transaction.
pub open spec fn is_active_record(m: Map<Seq<char>, TransactionRecord>, rec: TransactionRecord) -> bool {
    exists|k: Seq<char>| #[trigger] m.contains_key(k) && m[k] == rec
}

/// A record of a transaction started at `now` and then given `status`.
pub open spec fn started_marked(r: TransactionRecord, appservice_id: Seq<char>, txn_id: Seq<char>, event_count: usize, now: u64, status: TransactionStatus) -> bool {
    &&& r.transaction_id@ == txn_id
    &&& r.appservice_id@ == appservice_id
    &&& r.start_ms == now
    &&& r.status == status
    &&& r.event_count == event_count
    &&& r.retry_count == 0
}

/// History after recording `key` as processed: added once, and when the
/// history grows past 100000 keys the 10000 oldest are dropped.
pub open spec fn history_after(h: Seq<Seq<char>>, key: Seq<char>) -> Seq<Seq<char>> {
    let h1 = if h.contains(key) { h } else { h.push(key) };
    if h1.len() > 100000 { h1.subrange(10000, h1.len() as int) } else { h1 }
}

/// The result of checking a transaction's events before processing.
pub open spec fn events_check(event_count: usize, max: usize) -> Option<(ErrorKind, Seq<char>)> {
    if event_count == 0 {
        Some((ErrorKind::InvalidParam, "Transaction must contain at least one event"@))
    } else if event_count > max {
        Some((ErrorKind::TooLarge, "Transaction exceeds maximum size"@))
    } else {
        None
    }
}

/// Health summary of the transaction manager.
#[derive(Debug)]
pub struct TransactionHealth {
    pub total_appservices: usize,
    pub active_transactions: usize,
    pub total_transactions_processed: u64,
    pub total_successful: u64,
    pub transaction_history_size: usize,
    pub max_transaction_size: usize,
    pub transaction_timeout_ms: u64,
    pub max_concurrent_transactions: usize,
}

/// Sum of a counter over a sequence of stats, stopping at `u64::MAX`.
pub open spec fn sum_total(s: Seq<(String, TransactionStats)>) -> u64
    decreases s.len(),
{
    if s.len() == 0 { 0 } else { add64(sum_total(s.drop_last()), s.last().1.total_transactions) }
}

/// Sum of successful counts over a sequence of stats, stopping at `u64::MAX`.
pub open spec fn sum_successful(s: Seq<(String, TransactionStats)>) -> u64
    decreases s.len(),
{
    if s.len() == 0 { 0 } else { add64(sum_successful(s.drop_last()), s.last().1.successful_transactions) }
}

/// Tracks bridge transactions.
pub struct TransactionManager {
    config: BridgeCompatibilityConfig,
    stats: StrMap<TransactionStats>,
    active: StrMap<TransactionRecord>,
    history: Vec<String>,
    permits: StrMap<usize>,
}

impl TransactionManager {
    /// The configuration.
    pub closed spec fn config_view(&self) -> BridgeCompatibilityConfig {
        self.config
    }

    /// Counters per appservice.
    pub closed spec fn stats_view(&self) -> Map<Seq<char>, TransactionStats> {
        self.stats@
    }

    /// Active transactions by key.
    pub closed spec fn active_view(&self) -> Map<Seq<char>, TransactionRecord> {
        self.active@
    }

    /// Keys of processed transactions, oldest first.
    pub closed spec fn history_view(&self) -> Seq<Seq<char>> {
        self.history@.map_values(|s: String| s@)
    }

    /// Free concurrency permits per appservice.
    pub closed spec fn permits_view(&self) -> Map<Seq<char>, usize> {
        self.permits@
    }

    /// The permits `appservice_id` may take: its own count, or the
    /// configured limit before its first transaction.
    pub open spec fn permit_allowance(&self, appservice_id: Seq<char>) -> usize {
        if self.permits_view().contains_key(appservice_id) {
            self.permits_view()[appservice_id]
        } else {
            self.config_view().max_concurrent_transactions
        }
    }

    /// Number of appservices with counters.
    pub closed spec fn stats_len(&self) -> nat {
        self.stats.spec_len()
    }

    /// Number of active transactions.
    pub closed spec fn active_len(&self) -> nat {
        self.active.spec_len()
    }

    /// The counters in map order.
    pub closed spec fn stats_entries(&self) -> Seq<(String, TransactionStats)> {
        self.stats.entries_seq()
    }

    /// Internal consistency.
    pub closed spec fn wf(&self) -> bool {
        self.stats.wf() && self.active.wf() && self.permits.wf()
    }

    /// A manager with no counters, no active transactions and an empty history.
    pub fn new(config: &BridgeCompatibilityConfig) -> (m: Self)
        ensures
            m.wf(),
            m.config_view() == *config,
            m.stats_view() == Map::<Seq<char>, TransactionStats>::empty(),
            m.active_view() == Map::<Seq<char>, TransactionRecord>::empty(),
            m.history_view() == Seq::<Seq<char>>::empty(),
            m.permits_view() == Map::<Seq<char>, usize>::empty(),
    {
        let m = TransactionManager {
            config: *config,
            stats: StrMap::new(),
            active: StrMap::new(),
            history: Vec::new(),
            permits: StrMap::new(),
        };
        assert(m.history_view() =~= Seq::<Seq<char>>::empty());
        m
    }

    /// The key `appservice_id:txn_id`.
    pub fn transaction_key(appservice_id: &str, txn_id: &str) -> (k: String)
        ensures
            k@ == txn_key(appservice_id@, txn_id@),
    {
        let mut k = String::from_str(appservice_id);
        k.append(":");
        k.append(txn_id);
        k
    }

    /// Whether `txn_key` has already been processed.
    pub fn is_duplicate_transaction(&self, txn_key: &str) -> (r: bool)
        ensures
            r == self.history_view().contains(txn_key@),
    {
        let key = String::from_str(txn_key);
        let n = self.history.len();
        let mut i: usize = 0;
        while i < n
            invariant
                n == self.history@.len(),
                key@ == txn_key@,
                i <= n,
                forall|j: int| 0 <= j < i ==> self.history@[j]@ != txn_key@,
            decreases n - i,
        {
            if self.history[i] == key {
                assert(self.history_view()[i as int] == txn_key@);
                return true;
            }
            i = i + 1;
        }
        assert(!self.history_view().contains(txn_key@)) by {
            if self.history_view().contains(txn_key@) {
                let j = choose|j: int| 0 <= j < self.history_view().len() && self.history_view()[j] == txn_key@;
                assert(self.history@[j]@ == txn_key@);
            }
        }
        false
    }

    /// Drops the oldest `count` history entries.
    fn drop_oldest_history(&mut self, count: usize)
        requires
            count <= old(self).history@.len(),
        ensures
            final(self).history_view() == old(self).history_view().subrange(count as int, old(self).history_view().len() as int),
            final(self).stats == old(self).stats,
            final(self).active == old(self).active,
            final(self).permits == old(self).permits,
            final(self).config == old(self).config,
    {
        let ghost h0 = self.history_view();
        let n = self.history.len();
        let mut kept: Vec<String> = Vec::new();
        let mut i: usize = count;
        while i < n
            invariant
                n == self.history@.len(),
                count <= i <= n,
                h0 == self.history@.map_values(|s: String| s@),
                kept@.map_values(|s: String| s@) == h0.subrange(count as int, i as int),
            decreases n - i,
        {
            let ghost before = kept@;
            kept.push(self.history[i].clone());
            proof {
                assert(kept@ == before.push(self.history@[i as int]));
                assert(h0[i as int] == self.history@[i as int]@);
                assert(kept@.map_values(|s: String| s@) =~= before.map_values(|s: String| s@).push(self.history@[i as int]@));
                assert(kept@.map_values(|s: String| s@) =~= h0.subrange(count as int, i + 1));
            }
            i = i + 1;
        }
        self.history = kept;
    }

    /// Records `txn_key` as processed, keeping at most 100000 keys by
    /// dropping the 10000 oldest when the history grows past that.
    pub fn record_transaction_processed(&mut self, txn_key: String)
        ensures
            final(self).history_view() == history_after(old(self).history_view(), txn_key@),
            final(self).stats_view() == old(self).stats_view(),
            final(self).active_view() == old(self).active_view(),
            final(self).permits_view() == old(self).permits_view(),
            final(self).config_view() == old(self).config_view(),
            final(self).wf() == old(self).wf(),
    {
        let ghost h0 = self.history_view();
        if !self.is_duplicate_transaction(txn_key.as_str()) {
            let ghost k = txn_key@;
            self.history.push(txn_key);
            assert(self.history_view() =~= h0.push(k));
        }
        if self.history.len() > 100000 {
            self.drop_oldest_history(10000);
        }
    }

    /// Trims the history: when it holds more than 50000 keys the 10000
    /// oldest are dropped. Returns how many were dropped.
    pub fn cleanup_transaction_history(&mut self, _max_age_ms: u64) -> (removed: usize)
        ensures
            old(self).history_view().len() > 50000 ==> removed == 10000 && final(self).history_view() == old(self).history_view().subrange(10000, old(self).history_view().len() as int),
            old(self).history_view().len() <= 50000 ==> removed == 0 && final(self).history_view() == old(self).history_view(),
            final(self).stats_view() == old(self).stats_view(),
            final(self).active_view() == old(self).active_view(),
            final(self).permits_view() == old(self).permits_view(),
            final(self).config_view() == old(self).config_view(),
            final(self).wf() == old(self).wf(),
    {
        if self.history.len() > 50000 {
            self.drop_oldest_history(10000);
            10000
        } else {
            0
        }
    }

    /// Free permits of `appservice_id`, creating its allowance of
    /// `max_concurrent_transactions` on first use.
    pub fn get_concurrency_permits(&mut self, appservice_id: &str) -> (p: usize)
        requires
            old(self).wf(),
        ensures
            final(self).wf(),
            p == (if old(self).permits_view().contains_key(appservice_id@) { old(self).permits_view()[appservice_id@] } else { old(self).config_view().max_concurrent_transactions }),
            final(self).permits_view() == old(self).permits_view().insert(appservice_id@, p),
            final(self).stats_view() == old(self).stats_view(),
            final(self).active_view() == old(self).active_view(),
            final(self).history_view() == old(self).history_view(),
            final(self).config_view() == old(self).config_view(),
    {
        let p = match self.permits.get(appservice_id) {
            Some(p) => *p,
            None => self.config.max_concurrent_transactions,
        };
        self.permits.insert(appservice_id, p);
        proof {
            if old(self).permits_view().contains_key(appservice_id@) {
                assert(old(self).permits_view().insert(appservice_id@, p) =~= old(self).permits_view());
            }
        }
        p
    }

    /// The permits `appservice_id` may take now.
    pub fn available_permits(&self, appservice_id: &str) -> (p: usize)
        requires
            self.wf(),
        ensures
            p == self.permit_allowance(appservice_id@),
    {
        match self.permits.get(appservice_id) {
            Some(p) => *p,
            None => self.config.max_concurrent_transactions,
        }
    }

    /// The counters of `appservice_id`, or fresh ones stamped `now`.
    fn stats_entry(&self, appservice_id: &str, now: u64) -> (s: TransactionStats)
        requires
            self.wf(),
        ensures
            s == stats_of(self.stats_view(), appservice_id@, now),
    {
        match self.stats.get(appservice_id) {
            Some(s) => *s,
            None => TransactionStats {
                total_transactions: 0,
                successful_transactions: 0,
                failed_transactions: 0,
                retried_transactions: 0,
                timed_out_transactions: 0,
                last_activity_ms: now,
                concurrent_transactions: 0,
            },
        }
    }

    /// Records the start of transaction `txn_id` with `event_count` events at `now`.
    pub fn record_transaction_start(&mut self, appservice_id: &str, txn_id: &str, event_count: usize, now: u64)
        requires
            old(self).wf(),
        ensures
            final(self).wf(),
            final(self).active_view().dom() == old(self).active_view().dom().insert(txn_key(appservice_id@, txn_id@)),
            started_record(final(self).active_view()[txn_key(appservice_id@, txn_id@)], appservice_id@, txn_id@, event_count, now),
            forall|k: Seq<char>| k != txn_key(appservice_id@, txn_id@) && #[trigger] old(self).active_view().contains_key(k) ==> final(self).active_view()[k] == old(self).active_view()[k],
            final(self).stats_view() == old(self).stats_view().insert(appservice_id@, after_start(stats_of(old(self).stats_view(), appservice_id@, now), now)),
            final(self).history_view() == old(self).history_view(),
            final(self).permits_view() == old(self).permits_view(),
            final(self).config_view() == old(self).config_view(),
    {
        let key = Self::transaction_key(appservice_id, txn_id);
        let record = TransactionRecord {
            transaction_id: String::from_str(txn_id),
            appservice_id: String::from_str(appservice_id),
            start_ms: now,
            status: TransactionStatus::Processing,
            event_count,
            retry_count: 0,
            last_error: None,
        };
        self.active.insert(key.as_str(), record);
        let s = self.stats_entry(appservice_id, now);
        let s2 = TransactionStats {
            total_transactions: bump64(s.total_transactions),
            concurrent_transactions: bump32(s.concurrent_transactions),
            last_activity_ms: now,
            ..s
        };
        self.stats.insert(appservice_id, s2);
        assert(final(self).active_view().dom() =~= old(self).active_view().dom().insert(txn_key(appservice_id@, txn_id@)));
    }

    /// Records the success of the transaction under `txn_key`: it leaves the
    /// active set and enters the history.
    pub fn record_transaction_success(&mut self, appservice_id: &str, txn_key: &str, now: u64)
        requires
            old(self).wf(),
        ensures
            final(self).wf(),
            final(self).active_view() == old(self).active_view().remove(txn_key@),
            final(self).history_view() == history_after(old(self).history_view(), txn_key@),
            final(self).stats_view() == old(self).stats_view().insert(appservice_id@, after_success(stats_of(old(self).stats_view(), appservice_id@, now))),
            final(self).permits_view() == old(self).permits_view(),
            final(self).config_view() == old(self).config_view(),
    {
        let _ = self.active.remove(txn_key);
        self.record_transaction_processed(String::from_str(txn_key));
        let s = self.stats_entry(appservice_id, now);
        let s2 = TransactionStats {
            successful_transactions: bump64(s.successful_transactions),
            concurrent_transactions: drop32(s.concurrent_transactions),
            ..s
        };
        self.stats.insert(appservice_id, s2);
    }

    /// Marks the active transaction under `txn_key` with `status` and, when
    /// given, an error message.
    fn mark_active(&mut self, txn_key: &str, status: TransactionStatus, error: Option<String>)
        requires
            old(self).wf(),
        ensures
            final(self).wf(),
            active_marked(old(self).active_view(), final(self).active_view(), txn_key@, status, match error { Some(e) => Some(e@), None => None }),
            final(self).stats_view() == old(self).stats_view(),
            final(self).history_view() == old(self).history_view(),
            final(self).permits_view() == old(self).permits_view(),
            final(self).config_view() == old(self).config_view(),
    {
        match self.active.remove(txn_key) {
            Some(r) => {
                let r2 = TransactionRecord {
                    status,
                    last_error: match error {
                        Some(e) => Some(e),
                        None => r.last_error,
                    },
                    ..r
                };
                self.active.insert(txn_key, r2);
                proof {
                    assert(final(self).active_view().dom() =~= old(self).active_view().dom());
                }
            },
            None => {
                assert(final(self).active_view() =~= old(self).active_view());
            },
        }
    }

    /// Records the failure of the transaction under `txn_key` with `error_msg`.
    pub fn record_transaction_error(&mut self, appservice_id: &str, txn_key: &str, error_msg: &str, now: u64)
        requires
            old(self).wf(),
        ensures
            final(self).wf(),
            active_marked(old(self).active_view(), final(self).active_view(), txn_key@, TransactionStatus::Failed, Some(error_msg@)),
            final(self).stats_view() == old(self).stats_view().insert(appservice_id@, after_failure(stats_of(old(self).stats_view(), appservice_id@, now))),
            final(self).history_view() == old(self).history_view(),
            final(self).permits_view() == old(self).permits_view(),
            final(self).config_view() == old(self).config_view(),
    {
        let msg = String::from_str(error_msg);
        self.mark_active(txn_key, TransactionStatus::Failed, Some(msg));
        let s = self.stats_entry(appservice_id, now);
        let s2 = TransactionStats {
            failed_transactions: bump64(s.failed_transactions),
            concurrent_transactions: drop32(s.concurrent_transactions),
            ..s
        };
        self.stats.insert(appservice_id, s2);
    }

    /// Records the timeout of the transaction under `txn_key`.
    pub fn record_transaction_timeout(&mut self, appservice_id: &str, txn_key: &str, now: u64)
        requires
            old(self).wf(),
        ensures
            final(self).wf(),
            active_marked(old(self).active_view(), final(self).active_view(), txn_key@, TransactionStatus::TimedOut, None),
            final(self).stats_view() == old(self).stats_view().insert(appservice_id@, after_timeout(stats_of(old(self).stats_view(), appservice_id@, now))),
            final(self).history_view() == old(self).history_view(),
            final(self).permits_view() == old(self).permits_view(),
            final(self).config_view() == old(self).config_view(),
    {
        self.mark_active(txn_key, TransactionStatus::TimedOut, None);
        let s = self.stats_entry(appservice_id, now);
        let s2 = TransactionStats {
            timed_out_transactions: bump64(s.timed_out_transactions),
            concurrent_transactions: drop32(s.concurrent_transactions),
            ..s
        };
        self.stats.insert(appservice_id, s2);
    }

    /// Checks the number of events of a transaction: at least one, at most
    /// `max_transaction_size`.
    pub fn validate_transaction_events(&self, event_count: usize) -> (r: Result<(), ServiceError>)
        ensures
            match events_check(event_count, self.config_view().max_transaction_size) {
                None => r is Ok,
                Some((kind, msg)) => r matches Err(e) && is_error(e, kind, msg),
            },
    {
        if event_count == 0 {
            return Err(make_error(ErrorKind::InvalidParam, "Transaction must contain at least one event"));
        }
        if event_count > self.config.max_transaction_size {
            return Err(make_error(ErrorKind::TooLarge, "Transaction exceeds maximum size"));
        }
        Ok(())
    }

    /// What processing transaction `txn_id` of `appservice_id` with
    /// `event_count` events at `now` answers (`r`) and does, from `self` to
    /// `after`; `timed_out` tells whether processing ran past the timeout.
    pub open spec fn processed(
        self,
        after: Self,
        appservice_id: Seq<char>,
        txn_id: Seq<char>,
        event_count: usize,
        timed_out: bool,
        now: u64,
        r: Result<(), ServiceError>,
    ) -> bool {
        &&& after.wf()
        &&& after.config_view() == self.config_view()
        &&& {
            let key = txn_key(appservice_id, txn_id);
            let st0 = stats_of(self.stats_view(), appservice_id, now);
            let started = after_start(st0, now);
            let permits0 = self.permit_allowance(appservice_id);
            if self.history_view().contains(key) {
                &&& r is Ok
                &&& after.stats_view() == self.stats_view()
                &&& after.active_view() == self.active_view()
                &&& after.history_view() == self.history_view()
                &&& after.permits_view() == self.permits_view()
            } else {
                &&& after.permits_view() == self.permits_view().insert(appservice_id, permits0)
                &&& if timed_out {
                    &&& r matches Err(e) && is_error(e, ErrorKind::Unknown, "Transaction processing timed out"@)
                    &&& after.stats_view() == self.stats_view().insert(appservice_id, after_timeout(started))
                    &&& after.active_view().dom() == self.active_view().dom().insert(key)
                    &&& started_marked(after.active_view()[key], appservice_id, txn_id, event_count, now, TransactionStatus::TimedOut)
                    &&& after.history_view() == self.history_view()
                } else {
                    match events_check(event_count, self.config_view().max_transaction_size) {
                        Some((kind, msg)) => {
                            &&& r matches Err(e) && is_error(e, kind, msg)
                            &&& after.stats_view() == self.stats_view().insert(appservice_id, after_failure(started))
                            &&& after.active_view().dom() == self.active_view().dom().insert(key)
                            &&& started_marked(after.active_view()[key], appservice_id, txn_id, event_count, now, TransactionStatus::Failed)
                            &&& after.active_view()[key].last_error matches Some(m) && m@ == msg
                            &&& after.history_view() == self.history_view()
                        },
                        None => {
                            &&& r is Ok
                            &&& after.stats_view() == self.stats_view().insert(appservice_id, after_success(started))
                            &&& after.active_view() == self.active_view().remove(key)
                            &&& after.history_view() == history_after(self.history_view(), key)
                        },
                    }
                }
            }
            }
    }

    /// Processes transaction `txn_id` of `appservice_id` carrying
    /// `event_count` events, at `now`. `timed_out` tells whether processing
    /// ran past the configured timeout. A transaction already processed is
    /// skipped; otherwise it is recorded as started and then as succeeded,
    /// failed (when its events are empty or too many) or timed out. A new
    /// transaction takes one of the appservice's permits while it runs, so
    /// the appservice must have one (the caller waits for it).
    pub fn process_transaction(&mut self, appservice_id: &str, txn_id: &str, event_count: usize, timed_out: bool, now: u64) -> (r: Result<(), ServiceError>)
        requires
            old(self).wf(),
            old(self).history_view().contains(txn_key(appservice_id@, txn_id@)) || old(self).permit_allowance(appservice_id@) > 0,
        ensures
            old(self).processed(*final(self), appservice_id@, txn_id@, event_count, timed_out, now, r),
    {
        let key = Self::transaction_key(appservice_id, txn_id);
        if self.is_duplicate_transaction(key.as_str()) {
            return Ok(());
        }
        let permits = self.get_concurrency_permits(appservice_id);
        let ghost p0 = self.permits_view();
        let ghost before = self.stats_view();
        self.permits.insert(appservice_id, permits - 1);
        self.record_transaction_start(appservice_id, txn_id, event_count, now);
        let ghost mid_stats = self.stats_view();
        let result = if timed_out {
            self.record_transaction_timeout(appservice_id, key.as_str(), now);
            Err(make_error(ErrorKind::Unknown, "Transaction processing timed out"))
        } else {
            match self.validate_transaction_events(event_count) {
                Ok(()) => {
                    self.record_transaction_success(appservice_id, key.as_str(), now);
                    Ok(())
                },
                Err(e) => {
                    self.record_transaction_error(appservice_id, key.as_str(), e.message.as_str(), now);
                    Err(e)
                },
            }
        };
        self.permits.insert(appservice_id, permits);
        proof {
            assert(self.permits_view() =~= p0);
            assert(mid_stats[appservice_id@] == after_start(stats_of(before, appservice_id@, now), now));
            assert(stats_of(mid_stats, appservice_id@, now) == after_start(stats_of(before, appservice_id@, now), now));
            assert(self.stats_view() =~= old(self).stats_view().insert(appservice_id@, self.stats_view()[appservice_id@]));
            if result is Ok {
                assert(self.active_view() =~= old(self).active_view().remove(key@));
            }
        }
        result
    }

    /// The counters of `appservice_id`, if it has any.
    pub fn get_stats(&self, appservice_id: &str) -> (r: Option<TransactionStats>)
        requires
            self.wf(),
        ensures
            r == (if self.stats_view().contains_key(appservice_id@) { Some(self.stats_view()[appservice_id@]) } else { None::<TransactionStats> }),
    {
        match self.stats.get(appservice_id) {
            Some(s) => Some(*s),
            None => None,
        }
    }

    /// The counters of every appservice.
    pub fn get_all_stats(&self) -> (r: Vec<(String, TransactionStats)>)
        requires
            self.wf(),
        ensures
            r@.len() == self.stats_view().len(),
            forall|i: int| 0 <= i < r@.len() ==> #[trigger] self.stats_view().contains_key(r@[i].0@) && self.stats_view()[r@[i].0@]
                == r@[i].1,
    {
        let n = self.stats.len();
        proof {
            self.stats.lemma_len();
        }
        let mut out: Vec<(String, TransactionStats)> = Vec::new();
        let mut i: usize = 0;
        while i < n
            invariant
                n == self.stats.spec_len(),
                self.stats.wf(),
                i <= n,
                out@.len() == i,
                forall|k: int| 0 <= k < i ==> #[trigger] self.stats@.contains_key(out@[k].0@) && self.stats@[out@[k].0@] == out@[k].1,
            decreases n - i,
        {
            proof {
                self.stats.lemma_entry_in_map(i as int);
            }
            out.push((self.stats.key_at_index(i).clone(), *self.stats.value_at_index(i)));
            i = i + 1;
        }
        out
    }

    /// Copies of the active transaction records.
    pub fn get_active_transactions(&self) -> (r: Vec<TransactionRecord>)
        requires
            self.wf(),
        ensures
            r@.len() == self.active_len(),
            r@.len() == self.active_view().dom().len(),
            forall|i: int| 0 <= i < r@.len() ==> is_active_record(self.active_view(), #[trigger] r@[i]),
    {
        let n = self.active.len();
        let mut r: Vec<TransactionRecord> = Vec::new();
        let mut i: usize = 0;
        while i < n
            invariant
                self.wf(),
                n == self.active.spec_len(),
                i <= n,
                r@.len() == i,
                forall|j: int| 0 <= j < i ==> is_active_record(self.active_view(), #[trigger] r@[j]),
            decreases n - i,
        {
            let rec = self.active.value_at_index(i).duplicate();
            proof {
                self.active.lemma_entry_in_map(i as int);
                let k = self.active.entries_seq()[i as int].0@;
                assert(self.active_view().contains_key(k) && self.active_view()[k] == rec);
            }
            r.push(rec);
            i = i + 1;
        }
        proof {
            self.active.lemma_len();
        }
        r
    }

    /// The health summary: counts, summed counters and the configuration.
    pub fn get_health_status(&self) -> (h: TransactionHealth)
        requires
            self.wf(),
        ensures
            h.total_appservices == self.stats_len(),
            h.active_transactions == self.active_len(),
            h.transaction_history_size == self.history_view().len(),
            h.total_transactions_processed == sum_total(self.stats_entries()),
            h.total_successful == sum_successful(self.stats_entries()),
            h.max_transaction_size == self.config_view().max_transaction_size,
            h.transaction_timeout_ms == self.config_view().transaction_timeout_ms,
            h.max_concurrent_transactions == self.config_view().max_concurrent_transactions,
    {
        let n = self.stats.len();
        let mut total: u64 = 0;
        let mut successful: u64 = 0;
        let mut i: usize = 0;
        while i < n
            invariant
                n == self.stats.spec_len(),
                i <= n,
                total == sum_total(self.stats.entries_seq().subrange(0, i as int)),
                successful == sum_successful(self.stats.entries_seq().subrange(0, i as int)),
            decreases n - i,
        {
            let s = self.stats.value_at_index(i);
            proof {
                let s0 = self.stats.entries_seq();
                assert(s0.subrange(0, i + 1).drop_last() =~= s0.subrange(0, i as int));
            }
            total = sum64(total, s.total_transactions);
            successful = sum64(successful, s.successful_transactions);
            i = i + 1;
        }
        proof {
            assert(self.stats.entries_seq().subrange(0, n as int) =~= self.stats.entries_seq());
        }
        TransactionHealth {
            total_appservices: n,
            active_transactions: self.active.len(),
            total_transactions_processed: total,
            total_successful: successful,
            transaction_history_size: self.history.len(),
            max_transaction_size: self.config.max_transaction_size,
            transaction_timeout_ms: self.config.transaction_timeout_ms,
            max_concurrent_transactions: self.config.max_concurrent_transactions,
        }
    }
}

/// `new` is `old` with status `status` and, when `error` is given, that
/// error message.
pub open spec fn marked(old: TransactionRecord, new: TransactionRecord, status: TransactionStatus, error: Option<Seq<char>>) -> bool {
    &&& new.transaction_id == old.transaction_id
    &&& new.appservice_id == old.appservice_id
    &&& new.start_ms == old.start_ms
    &&& new.event_count == old.event_count
    &&& new.retry_count == old.retry_count
    &&& new.status == status
    &&& match error {
        Some(m) => new.last_error matches Some(e) && e@ == m,
        None => new.last_error == old.last_error,
    }
}

/// The active map after the record under `key` (when present) is marked.
pub open spec fn active_marked(old: Map<Seq<char>, TransactionRecord>, new: Map<Seq<char>, TransactionRecord>, key: Seq<char>, status: TransactionStatus, error: Option<Seq<char>>) -> bool {
    &&& new.dom() == old.dom()
    &&& old.contains_key(key) ==> marked(old[key], new[key], status, error)
    &&& forall|k: Seq<char>| k != key && #[trigger] old.contains_key(k) ==> new[k] == old[k]

}

/// A transaction is processed once: after a run that was answered `Ok`,
/// running it again is answered `Ok` and changes no counter, no active
/// transaction and no history.
pub proof fn lemma_replayed_transaction_skipped(
    m0: TransactionManager,
    m1: TransactionManager,
    m2: TransactionManager,
    appservice_id: Seq<char>,
    txn_id: Seq<char>,
    first_count: usize,
    second_count: usize,
    first_timed_out: bool,
    second_timed_out: bool,
    first_now: u64,
    second_now: u64,
    r1: Result<(), ServiceError>,
    r2: Result<(), ServiceError>,
)
    requires
        m0.processed(m1, appservice_id, txn_id, first_count, first_timed_out, first_now, r1),
        r1 is Ok,
        m1.processed(m2, appservice_id, txn_id, second_count, second_timed_out, second_now, r2),
    ensures
        r2 is Ok,
        m2.stats_view() == m1.stats_view(),
        m2.active_view() == m1.active_view(),
        m2.history_view() == m1.history_view(),
{
    let key = txn_key(appservice_id, txn_id);
    let h = m0.history_view();
    if !h.contains(key) {
        let h1 = h.push(key);
        assert(h1[h1.len() - 1] == key);
        if h1.len() > 100000 {
            let t = h1.subrange(10000, h1.len() as int);
            assert(t[t.len() - 1] == key);
            assert(t.contains(key));
        } else {
            assert(h1.contains(key));
        }
    }
    assert(m1.history_view().contains(key));
}

/// The counters of an appservice add up: every transaction counted as
/// started has succeeded, failed, timed out, or is still in progress.
pub open spec fn counters_balanced(s: TransactionStats) -> bool {
    s.successful_transactions + s.failed_transactions + s.timed_out_transactions + s.concurrent_transactions
        == s.total_transactions
}

/// One more start fits in the counters without saturating them.
pub open spec fn counters_have_room(s: TransactionStats) -> bool {
    s.total_transactions < u64::MAX && s.concurrent_transactions < u32::MAX
}

/// Fresh counters add up; a start keeps them adding up while no counter
/// saturates, and so does a success, a failure or a timeout of a
/// transaction in progress.
pub proof fn lemma_counter_steps_balanced(s: TransactionStats, now: u64)
    ensures
        counters_balanced(fresh_stats(now)),
        counters_balanced(s) && counters_have_room(s) ==> counters_balanced(after_start(s, now)),
        counters_balanced(s) && s.concurrent_transactions > 0 ==> {
            &&& counters_balanced(after_success(s))
            &&& counters_balanced(after_failure(s))
            &&& counters_balanced(after_timeout(s))
        },
{
}

/// Processing a transaction keeps every appservice's counters adding up,
/// short of saturation, and leaves the number in progress unchanged: a
/// transaction processed anew is counted once as started and once as
/// succeeded, failed or timed out.
pub proof fn lemma_processing_keeps_counters_balanced(
    m0: TransactionManager,
    m1: TransactionManager,
    appservice_id: Seq<char>,
    txn_id: Seq<char>,
    event_count: usize,
    timed_out: bool,
    now: u64,
    r: Result<(), ServiceError>,
)
    requires
        m0.processed(m1, appservice_id, txn_id, event_count, timed_out, now, r),
        forall|a: Seq<char>| #[trigger] m0.stats_view().contains_key(a) ==> counters_balanced(m0.stats_view()[a]),
        counters_have_room(stats_of(m0.stats_view(), appservice_id, now)),
    ensures
        forall|a: Seq<char>| #[trigger] m1.stats_view().contains_key(a) ==> counters_balanced(m1.stats_view()[a]),
        stats_of(m1.stats_view(), appservice_id, now).concurrent_transactions == stats_of(
            m0.stats_view(),
            appservice_id,
            now,
        ).concurrent_transactions,
        stats_of(m1.stats_view(), appservice_id, now).total_transactions == stats_of(
            m0.stats_view(),
            appservice_id,
            now,
        ).total_transactions + if m0.history_view().contains(txn_key(appservice_id, txn_id)) {
            0int
        } else {
            1int
        },
{
    let st0 = stats_of(m0.stats_view(), appservice_id, now);
    lemma_counter_steps_balanced(st0, now);
    lemma_counter_steps_balanced(after_start(st0, now), now);
}

} // verus!
