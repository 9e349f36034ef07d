//! Namespace checks for bridges: whether a user id or a room alias falls in
//! one of an appservice's namespaces, a cache of past answers that expire,
//! and counters per appservice.
use vstd::prelude::*;
use vstd::string::*;

use crate::bridge::BridgeCompatibilityConfig;
use crate::counters::{inc64, add64, bump64, sum64};
use crate::error::{ErrorKind, ServiceError, is_error, make_error};
use crate::strmap::StrMap;
use crate::text::{has_substring, contains_str, concat2, concat3};

verus! {

/// Above this many cached answers, expired answers are dropped on insert.
pub const MAX_CACHE_ENTRIES: usize = 10000;

/// How long a cached answer stays valid: five minutes.
pub const DEFAULT_CACHE_EXPIRY_MS: u64 = 300000;

/// A cached answer: whether the namespace matched, when (milliseconds), and
/// how often the answer was served since.
#[derive(Debug, Clone, Copy, PartialEq, Eq, Structural)]
pub struct CacheEntry {
    pub is_valid: bool,
    pub cached_at_ms: u64,
    pub hit_count: u64,
}

/// Counters of one appservice's namespace checks (the average time and the
/// hit rate are derived by the caller).
#[derive(Debug, Clone, Copy, PartialEq, Eq, Structural)]
pub struct NamespaceStats {
    pub total_validations: u64,
    pub cache_hits: u64,
    pub cache_misses: u64,
    pub user_validations: u64,
    pub alias_validations: u64,
    pub failed_validations: u64,
}

/// A summary of the cache.
#[derive(Debug, Clone, Copy, PartialEq, Eq, Structural)]
pub struct CacheStats {
    pub total_entries: usize,
    pub total_hits: u64,
    pub cache_expiry_seconds: u64,
    pub cache_enabled: bool,
}

/// Counters before any check.
pub open spec fn zero_stats() -> NamespaceStats {
    NamespaceStats {
        total_validations: 0,
        cache_hits: 0,
        cache_misses: 0,
        user_validations: 0,
        alias_validations: 0,
        failed_validations: 0,
    }
}

/// The counters of `app` in `m`, zero when it has none yet.
pub open spec fn current_stats(m: Map<Seq<char>, NamespaceStats>, app: Seq<char>) -> NamespaceStats {
    if m.contains_key(app) { m[app] } else { zero_stats() }
}

/// The counters after one more check (each counter stops at `u64::MAX`).
pub open spec fn counted(s: NamespaceStats, cache_hit: bool, alias: bool, ok: bool) -> NamespaceStats {
    NamespaceStats {
        total_validations: inc64(s.total_validations),
        cache_hits: if cache_hit { inc64(s.cache_hits) } else { s.cache_hits },
        cache_misses: if cache_hit { s.cache_misses } else { inc64(s.cache_misses) },
        user_validations: if alias { s.user_validations } else { inc64(s.user_validations) },
        alias_validations: if alias { inc64(s.alias_validations) } else { s.alias_validations },
        failed_validations: if ok { s.failed_validations } else { inc64(s.failed_validations) },
    }
}

/// A cached answer may still be served at `now`: less than the expiry has
/// passed since it was cached (a clock that went back serves nothing).
pub open spec fn is_fresh(e: CacheEntry, now: u64, expiry_ms: u64) -> bool {
    now >= e.cached_at_ms && now - e.cached_at_ms < expiry_ms
}

/// The entry served once more.
pub open spec fn bumped(e: CacheEntry) -> CacheEntry {
    CacheEntry { hit_count: inc64(e.hit_count), ..e }
}

/// `c` without the entries cached before `now - expiry_ms`.
pub open spec fn prune(c: Map<Seq<char>, CacheEntry>, now: u64, expiry_ms: u64) -> Map<Seq<char>, CacheEntry> {
    c.restrict(c.dom().filter(|k: Seq<char>| c[k].cached_at_ms + expiry_ms >= now))
}

/// The cache after answer `is_valid` is stored under `key` at `now`: when
/// that makes more than `MAX_CACHE_ENTRIES` entries, the expired ones go.
pub open spec fn after_set(
    c: Map<Seq<char>, CacheEntry>,
    key: Seq<char>,
    is_valid: bool,
    now: u64,
    expiry_ms: u64,
) -> Map<Seq<char>, CacheEntry> {
    let c1 = c.insert(key, CacheEntry { is_valid, cached_at_ms: now, hit_count: 0 });
    if c1.len() > MAX_CACHE_ENTRIES {
        prune(c1, now, expiry_ms)
    } else {
        c1
    }
}

/// `s` contains one of `namespaces` as a substring.
pub open spec fn matches_any(s: Seq<char>, namespaces: Seq<String>) -> bool {
    exists|i: int| 0 <= i < namespaces.len() && has_substring(s, #[trigger] namespaces[i]@)
}

/// The start of a cache key: `user:<app>:` or `alias:<app>:`.
pub open spec fn key_prefix(alias: bool, app: Seq<char>) -> Seq<char> {
    (if alias { "alias:"@ } else { "user:"@ }) + app + ":"@
}

/// The cache key of a check of `subject` for `app`.
pub open spec fn cache_key(alias: bool, app: Seq<char>, subject: Seq<char>) -> Seq<char> {
    key_prefix(alias, app) + subject
}

/// The message of a refused check.
pub open spec fn refusal(alias: bool) -> Seq<char> {
    if alias {
        "Room alias not in appservice namespace"@
    } else {
        "User ID not in appservice namespace"@
    }
}

/// The namespaces as values.
pub open spec fn ns_view(namespaces: Option<&Vec<String>>) -> Option<Seq<String>> {
    match namespaces {
        Some(v) => Some(v@),
        None => None,
    }
}

/// The sum of the hit counts, stopping at `u64::MAX`.
pub open spec fn hits_sum(s: Seq<CacheEntry>) -> u64
    decreases s.len(),
{
    if s.len() == 0 {
        0
    } else {
        add64(hits_sum(s.drop_last()), s.last().hit_count)
    }
}

/// Whether `subject` contains one of `namespaces`.
pub fn matches_namespaces(subject: &str, namespaces: &Vec<String>) -> (r: bool)
    ensures
        r == matches_any(subject@, namespaces@),
{
    let mut i: usize = 0;
    while i < namespaces.len()
        invariant
            i <= namespaces@.len(),
            forall|j: int| 0 <= j < i ==> !has_substring(subject@, #[trigger] namespaces@[j]@),
        decreases namespaces@.len() - i,
    {
        if contains_str(subject, namespaces[i].as_str()) {
            return true;
        }
        i = i + 1;
    }
    false
}

/// The namespace manager.
pub struct NamespaceManager {
    config: BridgeCompatibilityConfig,
    cache: StrMap<CacheEntry>,
    stats: StrMap<NamespaceStats>,
    cache_expiry_ms: u64,
}

impl NamespaceManager {
    /// The cached answers by key.
    pub closed spec fn cache_map(&self) -> Map<Seq<char>, CacheEntry> {
        self.cache@
    }

    /// The cached answers in the order they are kept.
    pub closed spec fn cache_entries(&self) -> Seq<CacheEntry> {
        self.cache.entries_seq().map_values(|p: (String, CacheEntry)| p.1)
    }

    /// The counters by appservice.
    pub closed spec fn stats_map(&self) -> Map<Seq<char>, NamespaceStats> {
        self.stats@
    }

    /// How long an answer stays valid, in milliseconds.
    pub closed spec fn expiry_ms(&self) -> u64 {
        self.cache_expiry_ms
    }

    /// Whether answers are cached.
    pub closed spec fn caching(&self) -> bool {
        self.config.enable_namespace_caching
    }

    /// Well-formedness: the maps keep distinct keys.
    pub closed spec fn wf(&self) -> bool {
        self.cache.wf() && self.stats.wf()
    }

    /// The keys of the cached answers, in the order they are kept.
    pub closed spec fn cache_keys(&self) -> Seq<Seq<char>> {
        self.cache.entries_seq().map_values(|p: (String, CacheEntry)| p.0@)
    }

    /// The kept entries are the values of the cache, one per key.
    pub proof fn lemma_cache_entries(&self)
        requires
            self.wf(),
        ensures
            self.cache_entries().len() == self.cache_map().len(),
            self.cache_keys().len() == self.cache_entries().len(),
            forall|i: int|
                0 <= i < self.cache_entries().len() ==> #[trigger] self.cache_map().contains_key(self.cache_keys()[i])
                    && self.cache_map()[self.cache_keys()[i]] == self.cache_entries()[i],
    {
        self.cache.lemma_len();
        assert forall|i: int| 0 <= i < self.cache_entries().len() implies #[trigger] self.cache_map().contains_key(
            self.cache_keys()[i],
        ) && self.cache_map()[self.cache_keys()[i]] == self.cache_entries()[i] by {
            self.cache.lemma_entry_in_map(i);
        }
    }

    /// A manager with an empty cache and no counters, whose answers expire
    /// after `expiry_ms` milliseconds.
    pub fn with_cache_expiry(config: &BridgeCompatibilityConfig, expiry_ms: u64) -> (m: Self)
        ensures
            m.wf(),
            m.cache_map() == Map::<Seq<char>, CacheEntry>::empty(),
            m.stats_map() == Map::<Seq<char>, NamespaceStats>::empty(),
            m.expiry_ms() == expiry_ms,
            m.caching() == config.enable_namespace_caching,
    {
        NamespaceManager { config: *config, cache: StrMap::new(), stats: StrMap::new(), cache_expiry_ms: expiry_ms }
    }

    /// A manager with an empty cache and no counters; answers expire after
    /// five minutes.
    pub fn new(config: &BridgeCompatibilityConfig) -> (m: Self)
        ensures
            m.wf(),
            m.cache_map() == Map::<Seq<char>, CacheEntry>::empty(),
            m.stats_map() == Map::<Seq<char>, NamespaceStats>::empty(),
            m.expiry_ms() == DEFAULT_CACHE_EXPIRY_MS,
            m.caching() == config.enable_namespace_caching,
    {
        Self::with_cache_expiry(config, DEFAULT_CACHE_EXPIRY_MS)
    }

    /// The cached answer under `key` at `now`: a fresh one is served and
    /// counted, a stale one is dropped.
    pub fn check_cache(&mut self, key: &str, now: u64) -> (r: Option<bool>)
        requires
            old(self).wf(),
        ensures
            final(self).wf(),
            final(self).stats_map() == old(self).stats_map(),
            final(self).expiry_ms() == old(self).expiry_ms(),
            final(self).caching() == old(self).caching(),
            ({
                let c = old(self).cache_map();
                if c.contains_key(key@) && is_fresh(c[key@], now, old(self).expiry_ms()) {
                    r == Some(c[key@].is_valid) && final(self).cache_map() == c.insert(key@, bumped(c[key@]))
                } else {
                    r is None && final(self).cache_map() == c.remove(key@)
                }
            }),
    {
        match self.cache.index_of(key) {
            Some(i) => {
                let e = *self.cache.value_at_index(i);
                if now >= e.cached_at_ms && now - e.cached_at_ms < self.cache_expiry_ms {
                    let b = CacheEntry { hit_count: bump64(e.hit_count), ..e };
                    self.cache.set_value_at_index(i, b);
                    Some(e.is_valid)
                } else {
                    self.cache.remove(key);
                    None
                }
            },
            None => {
                self.cache.remove(key);
                None
            },
        }
    }

    /// Stores answer `is_valid` under `key` at `now`; past
    /// `MAX_CACHE_ENTRIES` entries, the expired ones are dropped.
    pub fn set_cache(&mut self, key: &str, is_valid: bool, now: u64)
        requires
            old(self).wf(),
        ensures
            final(self).wf(),
            final(self).stats_map() == old(self).stats_map(),
            final(self).expiry_ms() == old(self).expiry_ms(),
            final(self).caching() == old(self).caching(),
            final(self).cache_map() == after_set(old(self).cache_map(), key@, is_valid, now, old(self).expiry_ms()),
    {
        let expiry = self.cache_expiry_ms;
        self.cache.insert(key, CacheEntry { is_valid, cached_at_ms: now, hit_count: 0 });
        let ghost c1 = self.cache@;
        let n = self.cache.len();
        if n > MAX_CACHE_ENTRIES {
            let ghost pred = |e: CacheEntry| e.cached_at_ms + expiry >= now;
            let mut keep: Vec<bool> = Vec::new();
            let mut i: usize = 0;
            while i < n
                invariant
                    n == self.cache.spec_len(),
                    i <= n,
                    keep@.len() == i,
                    pred == (|e: CacheEntry| e.cached_at_ms + expiry >= now),
                    forall|j: int| 0 <= j < i ==> keep@[j] == pred(#[trigger] self.cache.entries_seq()[j].1),
                decreases n - i,
            {
                let e = self.cache.value_at_index(i);
                keep.push(now < expiry || e.cached_at_ms >= now - expiry);
                i = i + 1;
            }
            self.cache.retain_marked(&keep, Ghost(pred));
            assert(self.cache@ =~= prune(c1, now, expiry));
        }
    }

    /// Counts one check for `app`: whether the cache answered, whether it
    /// was an alias, whether it passed.
    pub fn update_stats(&mut self, app: &str, cache_hit: bool, alias: bool, ok: bool)
        requires
            old(self).wf(),
        ensures
            final(self).wf(),
            final(self).cache_map() == old(self).cache_map(),
            final(self).expiry_ms() == old(self).expiry_ms(),
            final(self).caching() == old(self).caching(),
            final(self).stats_map() == old(self).stats_map().insert(
                app@,
                counted(current_stats(old(self).stats_map(), app@), cache_hit, alias, ok),
            ),
    {
        let s = match self.stats.get(app) {
            Some(s) => *s,
            None => NamespaceStats {
                total_validations: 0,
                cache_hits: 0,
                cache_misses: 0,
                user_validations: 0,
                alias_validations: 0,
                failed_validations: 0,
            },
        };
        let t = NamespaceStats {
            total_validations: bump64(s.total_validations),
            cache_hits: if cache_hit { bump64(s.cache_hits) } else { s.cache_hits },
            cache_misses: if cache_hit { s.cache_misses } else { bump64(s.cache_misses) },
            user_validations: if alias { s.user_validations } else { bump64(s.user_validations) },
            alias_validations: if alias { bump64(s.alias_validations) } else { s.alias_validations },
            failed_validations: if ok { s.failed_validations } else { bump64(s.failed_validations) },
        };
        self.stats.insert(app, t);
    }

    /// What one check of `subject` for `app` at `now` answers and does, from
    /// `self` to `after`. A fresh cached answer is served (and counted as a
    /// success); otherwise the appservice's namespaces decide, when it has a
    /// registration, and the answer is cached.
    pub open spec fn validated(
        self,
        after: Self,
        alias: bool,
        app: Seq<char>,
        subject: Seq<char>,
        namespaces: Option<Seq<String>>,
        now: u64,
        r: Result<(), ServiceError>,
    ) -> bool {
        let key = cache_key(alias, app, subject);
        let c = self.cache_map();
        let hit = self.caching() && c.contains_key(key) && is_fresh(c[key], now, self.expiry_ms());
        let cur = current_stats(self.stats_map(), app);
        &&& after.wf()
        &&& after.expiry_ms() == self.expiry_ms()
        &&& after.caching() == self.caching()
        &&& hit ==> {
            &&& (c[key].is_valid ==> r is Ok)
            &&& (!c[key].is_valid ==> (r matches Err(e) && is_error(e, ErrorKind::Exclusive, refusal(alias))))
            &&& after.stats_map() == self.stats_map().insert(app, counted(cur, true, alias, true))
            &&& after.cache_map() == c.insert(key, bumped(c[key]))
        }
        &&& (!hit && namespaces is None) ==> {
            &&& (r matches Err(e) && is_error(e, ErrorKind::NotFound, "AppService not found"@))
            &&& after.stats_map() == self.stats_map()
            &&& after.cache_map() == if self.caching() { c.remove(key) } else { c }
        }
        &&& (!hit && namespaces is Some) ==> {
            let m = matches_any(subject, namespaces->0);
            &&& (m ==> r is Ok)
            &&& (!m ==> (r matches Err(e) && is_error(e, ErrorKind::Exclusive, refusal(alias))))
            &&& after.stats_map() == self.stats_map().insert(app, counted(cur, false, alias, m))
            &&& after.cache_map() == if self.caching() {
                after_set(c.remove(key), key, m, now, self.expiry_ms())
            } else {
                c
            }
        }
    }

    fn validate(
        &mut self,
        alias: bool,
        app: &str,
        subject: &str,
        namespaces: Option<&Vec<String>>,
        now: u64,
    ) -> (r: Result<(), ServiceError>)
        requires
            old(self).wf(),
        ensures
            old(self).validated(*final(self), alias, app@, subject@, ns_view(namespaces), now, r),
    {
        proof {
            reveal_strlit("alias:");
            reveal_strlit("user:");
            reveal_strlit(":");
        }
        let prefix = if alias { concat3("alias:", app, ":") } else { concat3("user:", app, ":") };
        let key = concat2(prefix.as_str(), subject);
        assert(key@ == cache_key(alias, app@, subject@));
        if self.config.enable_namespace_caching {
            match self.check_cache(key.as_str(), now) {
                Some(is_valid) => {
                    self.update_stats(app, true, alias, true);
                    return if is_valid {
                        Ok(())
                    } else if alias {
                        Err(make_error(ErrorKind::Exclusive, "Room alias not in appservice namespace"))
                    } else {
                        Err(make_error(ErrorKind::Exclusive, "User ID not in appservice namespace"))
                    };
                },
                None => {},
            }
        }
        let ns = match namespaces {
            Some(ns) => ns,
            None => {
                return Err(make_error(ErrorKind::NotFound, "AppService not found"));
            },
        };
        let is_valid = matches_namespaces(subject, ns);
        if self.config.enable_namespace_caching {
            self.set_cache(key.as_str(), is_valid, now);
        }
        self.update_stats(app, false, alias, is_valid);
        if is_valid {
            Ok(())
        } else if alias {
            Err(make_error(ErrorKind::Exclusive, "Room alias not in appservice namespace"))
        } else {
            Err(make_error(ErrorKind::Exclusive, "User ID not in appservice namespace"))
        }
    }

    /// Checks at `now` that user `user_id` is in the user namespaces of
    /// appservice `app`, whose registration lists `namespaces` (`None` when
    /// it has no registration).
    pub fn validate_user_namespace(
        &mut self,
        app: &str,
        user_id: &str,
        namespaces: Option<&Vec<String>>,
        now: u64,
    ) -> (r: Result<(), ServiceError>)
        requires
            old(self).wf(),
        ensures
            old(self).validated(*final(self), false, app@, user_id@, ns_view(namespaces), now, r),
    {
        self.validate(false, app, user_id, namespaces, now)
    }

    /// Checks at `now` that room alias `room_alias` is in the alias
    /// namespaces of appservice `app`, whose registration lists `namespaces`
    /// (`None` when it has no registration).
    pub fn validate_alias_namespace(
        &mut self,
        app: &str,
        room_alias: &str,
        namespaces: Option<&Vec<String>>,
        now: u64,
    ) -> (r: Result<(), ServiceError>)
        requires
            old(self).wf(),
        ensures
            old(self).validated(*final(self), true, app@, room_alias@, ns_view(namespaces), now, r),
    {
        self.validate(true, app, room_alias, namespaces, now)
    }

    /// The answer a batch gives for user `u` of appservice `app` at `now`: an
    /// answer fresh in the cache before the batch, or else whether the
    /// namespaces hold the user (no registration: no).
    pub open spec fn batch_answer(self, app: Seq<char>, u: Seq<char>, namespaces: Option<Seq<String>>, now: u64) -> bool {
        let key = cache_key(false, app, u);
        let c = self.cache_map();
        if self.caching() && c.contains_key(key) && is_fresh(c[key], now, self.expiry_ms()) {
            c[key].is_valid
        } else {
            namespaces is Some && matches_any(u, namespaces->0)
        }
    }

    /// Checks each of `user_ids` in turn for appservice `app` at `now`, as
    /// `validate_user_namespace` does, and says for each whether it passed.
    pub fn validate_users_batch(
        &mut self,
        app: &str,
        user_ids: &Vec<String>,
        namespaces: Option<&Vec<String>>,
        now: u64,
    ) -> (r: Result<Vec<bool>, ServiceError>)
        requires
            old(self).wf(),
        ensures
            final(self).wf(),
            final(self).expiry_ms() == old(self).expiry_ms(),
            final(self).caching() == old(self).caching(),
            match r {
                Ok(v) => v@.len() == user_ids@.len() && forall|i: int|
                    0 <= i < v@.len() ==> #[trigger] v@[i] == old(self).batch_answer(
                        app@,
                        user_ids@[i]@,
                        ns_view(namespaces),
                        now,
                    ),
                Err(_) => false,
            },
    {
        let ghost c0 = self.cache_map();
        let ghost ns = ns_view(namespaces);
        let ghost expiry = self.cache_expiry_ms;
        let ghost pre = key_prefix(false, app@);
        let ghost s0 = *self;
        let mut results: Vec<bool> = Vec::new();
        let mut i: usize = 0;
        while i < user_ids.len()
            invariant
                self.wf(),
                i <= user_ids@.len(),
                results@.len() == i,
                self.expiry_ms() == expiry,
                self.caching() == s0.caching(),
                c0 == s0.cache_map(),
                expiry == s0.expiry_ms(),
                ns == ns_view(namespaces),
                pre == key_prefix(false, app@),
                !self.caching() ==> self.cache_map() == c0,
                forall|k: Seq<char>|
                    c0.contains_key(k) && is_fresh(c0[k], now, expiry) ==> #[trigger] self.cache_map().contains_key(k)
                        && is_fresh(self.cache_map()[k], now, expiry) && self.cache_map()[k].is_valid == c0[k].is_valid,
                forall|k: Seq<char>|
                    #[trigger] self.cache_map().contains_key(k) && is_fresh(self.cache_map()[k], now, expiry) && !(
                    c0.contains_key(k) && is_fresh(c0[k], now, expiry)) ==> pre.len() <= k.len() && k.subrange(
                        0,
                        pre.len() as int,
                    ) == pre && self.cache_map()[k].is_valid == (ns is Some && matches_any(
                        k.subrange(pre.len() as int, k.len() as int),
                        ns->0,
                    )),
                forall|j: int| 0 <= j < i ==> #[trigger] results@[j] == s0.batch_answer(app@, user_ids@[j]@, ns, now),
            decreases user_ids@.len() - i,
        {
            let ghost c = self.cache_map();
            let ghost u = user_ids@[i as int]@;
            let ghost key = cache_key(false, app@, u);
            proof {
                assert(key.subrange(0, pre.len() as int) =~= pre);
                assert(key.subrange(pre.len() as int, key.len() as int) =~= u);
            }
            let res = self.validate_user_namespace(app, user_ids[i].as_str(), namespaces, now);
            let ok = match res {
                Ok(()) => true,
                Err(_) => false,
            };
            proof {
                let c1 = self.cache_map();
                assert(ok == s0.batch_answer(app@, u, ns, now)) by {
                    if s0.caching() && c.contains_key(key) && is_fresh(c[key], now, expiry) {
                    } else if s0.caching() && c0.contains_key(key) && is_fresh(c0[key], now, expiry) {
                        assert(c.contains_key(key));
                    }
                }
                assert forall|k: Seq<char>|
                    c0.contains_key(k) && is_fresh(c0[k], now, expiry) implies #[trigger] c1.contains_key(k) && is_fresh(
                        c1[k],
                        now,
                        expiry,
                    ) && c1[k].is_valid == c0[k].is_valid by {
                    assert(c.contains_key(k));
                }
                assert forall|k: Seq<char>|
                    #[trigger] c1.contains_key(k) && is_fresh(c1[k], now, expiry) && !(c0.contains_key(k) && is_fresh(
                        c0[k],
                        now,
                        expiry,
                    )) implies pre.len() <= k.len() && k.subrange(0, pre.len() as int) == pre && c1[k].is_valid == (
                ns is Some && matches_any(k.subrange(pre.len() as int, k.len() as int), ns->0)) by {
                    if k != key {
                        assert(c.contains_key(k) && c[k] == c1[k]);
                    }
                }
            }
            results.push(ok);
            i = i + 1;
        }
        Ok(results)
    }

    /// The counters of appservice `app`, if it has any.
    pub fn get_stats(&self, app: &str) -> (r: Option<NamespaceStats>)
        requires
            self.wf(),
        ensures
            r == (if self.stats_map().contains_key(app@) {
                Some(self.stats_map()[app@])
            } else {
                None::<NamespaceStats>
            }),
    {
        match self.stats.get(app) {
            Some(s) => Some(*s),
            None => None,
        }
    }

    /// The counters of every appservice.
    pub fn get_all_stats(&self) -> (r: Vec<(String, NamespaceStats)>)
        requires
            self.wf(),
        ensures
            r@.len() == self.stats_map().len(),
            forall|i: int| 0 <= i < r@.len() ==> #[trigger] self.stats_map().contains_key(r@[i].0@) && self.stats_map()[r@[i].0@]
                == r@[i].1,
    {
        let n = self.stats.len();
        proof {
            self.stats.lemma_len();
        }
        let mut out: Vec<(String, NamespaceStats)> = Vec::new();
        let mut i: usize = 0;
        while i < n
            invariant
                n == self.stats.spec_len(),
                self.stats.wf(),
                i <= n,
                out@.len() == i,
                forall|k: int| 0 <= k < i ==> #[trigger] self.stats@.contains_key(out@[k].0@) && self.stats@[out@[k].0@] == out@[k].1,
            decreases n - i,
        {
            proof {
                self.stats.lemma_entry_in_map(i as int);
            }
            out.push((self.stats.key_at_index(i).clone(), *self.stats.value_at_index(i)));
            i = i + 1;
        }
        out
    }

    /// Empties the cache; returns how many answers it held.
    pub fn clear_cache(&mut self) -> (count: usize)
        requires
            old(self).wf(),
        ensures
            final(self).wf(),
            count == old(self).cache_map().len(),
            final(self).cache_map() == Map::<Seq<char>, CacheEntry>::empty(),
            final(self).stats_map() == old(self).stats_map(),
            final(self).expiry_ms() == old(self).expiry_ms(),
            final(self).caching() == old(self).caching(),
    {
        let count = self.cache.len();
        self.cache.clear();
        count
    }

    /// Drops, at `now`, the answers cached at `now - expiry` or before;
    /// returns how many went.
    pub fn cleanup_expired_cache(&mut self, now: u64) -> (removed: usize)
        requires
            old(self).wf(),
        ensures
            final(self).wf(),
            final(self).stats_map() == old(self).stats_map(),
            final(self).expiry_ms() == old(self).expiry_ms(),
            final(self).caching() == old(self).caching(),
            forall|k: Seq<char>| #[trigger] final(self).cache_map().contains_key(k) == (old(self).cache_map().contains_key(k)
                && old(self).cache_map()[k].cached_at_ms + old(self).expiry_ms() > now),
            forall|k: Seq<char>| #[trigger] final(self).cache_map().contains_key(k) ==> final(self).cache_map()[k]
                == old(self).cache_map()[k],
            removed + final(self).cache_map().len() == old(self).cache_map().len(),
    {
        proof {
            self.cache.lemma_len();
        }
        let expiry = self.cache_expiry_ms;
        let n = self.cache.len();
        let ghost pred = |e: CacheEntry| e.cached_at_ms + expiry > now;
        let mut keep: Vec<bool> = Vec::new();
        let mut i: usize = 0;
        while i < n
            invariant
                n == self.cache.spec_len(),
                i <= n,
                keep@.len() == i,
                pred == (|e: CacheEntry| e.cached_at_ms + expiry > now),
                forall|j: int| 0 <= j < i ==> keep@[j] == pred(#[trigger] self.cache.entries_seq()[j].1),
            decreases n - i,
        {
            let e = self.cache.value_at_index(i);
            keep.push(now < expiry || e.cached_at_ms > now - expiry);
            i = i + 1;
        }
        let removed = self.cache.retain_marked(&keep, Ghost(pred));
        proof {
            self.cache.lemma_len();
        }
        removed
    }

    /// The number of cached answers, the sum of their hit counts (stopping
    /// at `u64::MAX`), the expiry in whole seconds, and whether caching is on.
    pub fn get_cache_stats(&self) -> (r: CacheStats)
        requires
            self.wf(),
        ensures
            r.total_entries == self.cache_map().len(),
            r.total_hits == hits_sum(self.cache_entries()),
            r.cache_expiry_seconds == self.expiry_ms() / 1000,
            r.cache_enabled == self.caching(),
    {
        proof {
            self.cache.lemma_len();
        }
        let n = self.cache.len();
        let mut total: u64 = 0;
        let mut i: usize = 0;
        while i < n
            invariant
                n == self.cache.spec_len(),
                n == self.cache_entries().len(),
                i <= n,
                total == hits_sum(self.cache_entries().subrange(0, i as int)),
            decreases n - i,
        {
            proof {
                assert(self.cache_entries().subrange(0, i as int) =~= self.cache_entries().subrange(0, i + 1).drop_last());
            }
            total = sum64(total, self.cache.value_at_index(i).hit_count);
            i = i + 1;
        }
        proof {
            assert(self.cache_entries().subrange(0, n as int) =~= self.cache_entries());
        }
        CacheStats {
            total_entries: n,
            total_hits: total,
            cache_expiry_seconds: self.cache_expiry_ms / 1000,
            cache_enabled: self.config.enable_namespace_caching,
        }
    }

    /// Checking the same subject twice at the same time, with the same
    /// registration, gives the same answer: the cache serves what the
    /// namespaces decided.
    pub proof fn lemma_validation_repeatable(
        m0: Self,
        m1: Self,
        m2: Self,
        alias: bool,
        app: Seq<char>,
        subject: Seq<char>,
        namespaces: Option<Seq<String>>,
        now: u64,
        r1: Result<(), ServiceError>,
        r2: Result<(), ServiceError>,
    )
        requires
            m0.validated(m1, alias, app, subject, namespaces, now, r1),
            m1.validated(m2, alias, app, subject, namespaces, now, r2),
        ensures
            r1 is Ok <==> r2 is Ok,
    {
        let key = cache_key(alias, app, subject);
        let c0 = m0.cache_map();
        let c1 = m1.cache_map();
        let hit0 = m0.caching() && c0.contains_key(key) && is_fresh(c0[key], now, m0.expiry_ms());
        if hit0 {
            assert(c1.contains_key(key) && c1[key] == bumped(c0[key]));
        } else if namespaces is Some && m0.caching() {
            let m = matches_any(subject, namespaces->0);
            let e = CacheEntry { is_valid: m, cached_at_ms: now, hit_count: 0 };
            let ci = c0.remove(key).insert(key, e);
            if ci.len() > MAX_CACHE_ENTRIES {
                assert(ci.dom().filter(|k: Seq<char>| ci[k].cached_at_ms + m0.expiry_ms() >= now).contains(key));
            }
            assert(c1.contains_key(key) && c1[key] == e);
        }
    }
}

} // verus!
