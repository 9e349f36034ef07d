//! The bridge compatibility service: ties the transaction, ephemeral,
//! namespace and puppet managers together, answers the user and room alias
//! queries of appservices, and keeps per-bridge configuration, metrics and
//! health.
use vstd::prelude::*;
use vstd::string::*;
use vstd::utf8::*;

use crate::bridge::BridgeCompatibilityConfig;
use crate::bridge::ephemeral::{EphemeralEventProcessor, EphemeralStats};
use crate::bridge::namespace::{CacheEntry, DEFAULT_CACHE_EXPIRY_MS, NamespaceManager, NamespaceStats, ns_view};
use crate::bridge::puppet::{PuppetManager, PuppetStats, PuppetView};
use crate::bridge::transactions::{TransactionManager, TransactionRecord, TransactionStats};
use crate::counters::{inc64, add64, bump64, sum64};
use crate::error::{ErrorKind, ServiceError, is_error, make_error};
use crate::external::valid_room_id;
use crate::strmap::StrMap;
use crate::text::{concat3, to_owned};

verus! {

/// Metrics of one bridge. The average transaction time is the total over
/// the count; the success rate is a whole percentage.
#[derive(Debug, Clone, Copy, PartialEq, Eq, Structural)]
pub struct BridgeMetrics {
    pub transactions_processed: u64,
    pub events_processed: u64,
    pub ephemeral_events_processed: u64,
    pub virtual_users_count: usize,
    pub total_transaction_time_ms: u64,
    pub transaction_success_rate: u64,
    pub last_transaction_ms: Option<u64>,
}

/// Metrics of a bridge with no transaction yet: all counts zero, a success
/// rate of 100, no last transaction time.
pub open spec fn default_metrics() -> BridgeMetrics {
    BridgeMetrics {
        transactions_processed: 0,
        events_processed: 0,
        ephemeral_events_processed: 0,
        virtual_users_count: 0,
        total_transaction_time_ms: 0,
        transaction_success_rate: 100,
        last_transaction_ms: None,
    }
}

impl Default for BridgeMetrics {
    fn default() -> (m: Self)
        ensures
            m == default_metrics(),
    {
        BridgeMetrics {
            transactions_processed: 0,
            events_processed: 0,
            ephemeral_events_processed: 0,
            virtual_users_count: 0,
            total_transaction_time_ms: 0,
            transaction_success_rate: 100,
            last_transaction_ms: None,
        }
    }
}

/// The metrics after one more transaction that took `elapsed_ms`.
pub open spec fn metrics_after(m: BridgeMetrics, elapsed_ms: u64) -> BridgeMetrics {
    BridgeMetrics {
        transactions_processed: inc64(m.transactions_processed),
        total_transaction_time_ms: add64(m.total_transaction_time_ms, elapsed_ms),
        last_transaction_ms: Some(elapsed_ms),
        ..m
    }
}

/// What a user query found: the user, and the appservice that drives it
/// when it is a puppet.
#[derive(Debug)]
pub struct UserQueryAnswer {
    pub user_id: String,
    pub appservice_id: Option<String>,
}

/// Everything the service counts.
pub struct BridgeServiceStats {
    pub transaction_stats: Vec<(String, TransactionStats)>,
    pub ephemeral_stats: Vec<(String, EphemeralStats)>,
    pub namespace_stats: Vec<(String, NamespaceStats)>,
    pub puppet_stats: Vec<(String, PuppetStats)>,
    pub metrics: Vec<(String, BridgeMetrics)>,
    pub config: BridgeCompatibilityConfig,
}

/// The index of the first `:` in `s` at or after `i` (the length when there
/// is none).
pub open spec fn first_colon_from(s: Seq<char>, i: int) -> int
    decreases s.len() - i,
{
    if i < 0 || i >= s.len() {
        s.len() as int
    } else if s[i] == ':' {
        i
    } else {
        first_colon_from(s, i + 1)
    }
}

/// The local part of a room alias `#local:server`: what stands between the
/// sigil and the first colon.
pub open spec fn alias_localpart(alias: Seq<char>) -> Seq<char> {
    if alias.len() == 0 {
        Seq::empty()
    } else {
        alias.subrange(1, first_colon_from(alias, 1))
    }
}

/// The room id a bridge may create for an alias that no room has:
/// `!bridge_<local part>:<server name>`.
pub open spec fn placeholder_room_id(alias: Seq<char>, server_name: Seq<char>) -> Seq<char> {
    "!bridge_"@ + alias_localpart(alias) + ":"@ + server_name
}

/// The local part of room alias `alias`.
pub fn localpart_of_alias(alias: &str) -> (r: &str)
    ensures
        r@ == alias_localpart(alias@),
{
    let n = alias.unicode_len();
    if n == 0 {
        return alias.substring_char(0, 0);
    }
    let mut j: usize = 1;
    while j < n && alias.get_char(j) != ':'
        invariant
            n == alias@.len(),
            1 <= j <= n,
            first_colon_from(alias@, 1) == first_colon_from(alias@, j as int),
        decreases n - j,
    {
        j = j + 1;
    }
    assert(first_colon_from(alias@, j as int) == j);
    alias.substring_char(1, j)
}

/// The bridge compatibility service. Its parts are open to callers; the
/// operations below keep them well-formed.
pub struct BridgeCompatibilityService {
    pub config: BridgeCompatibilityConfig,
    pub transaction_manager: TransactionManager,
    pub ephemeral_processor: EphemeralEventProcessor,
    pub namespace_manager: NamespaceManager,
    pub puppet_manager: PuppetManager,
    pub bridge_configs: StrMap<BridgeCompatibilityConfig>,
    pub metrics: StrMap<BridgeMetrics>,
    pub health_status: StrMap<bool>,
}

impl BridgeCompatibilityService {
    /// The service-wide configuration.
    pub closed spec fn config_view(&self) -> BridgeCompatibilityConfig {
        self.config
    }

    /// The configurations set for single bridges.
    pub closed spec fn bridge_configs_view(&self) -> Map<Seq<char>, BridgeCompatibilityConfig> {
        self.bridge_configs@
    }

    /// The metrics by bridge.
    pub closed spec fn metrics_view(&self) -> Map<Seq<char>, BridgeMetrics> {
        self.metrics@
    }

    /// The health reported for single bridges.
    pub closed spec fn health_view(&self) -> Map<Seq<char>, bool> {
        self.health_status@
    }

    /// Well-formedness of the service and of each manager.
    pub closed spec fn wf(&self) -> bool {
        &&& self.transaction_manager.wf()
        &&& self.ephemeral_processor.wf()
        &&& self.namespace_manager.wf()
        &&& self.puppet_manager.wf()
        &&& self.bridge_configs.wf()
        &&& self.metrics.wf()
        &&& self.health_status.wf()
    }

    /// The service is as made for `config`: no bridges, metrics or health
    /// records, and each part empty (no transactions, counters, limits,
    /// cached answers or puppets) under that configuration.
    pub open spec fn fresh_for(&self, config: BridgeCompatibilityConfig) -> bool {
        &&& self.config_view() == config
        &&& self.bridge_configs_view() == Map::<Seq<char>, BridgeCompatibilityConfig>::empty()
        &&& self.metrics_view() == Map::<Seq<char>, BridgeMetrics>::empty()
        &&& self.health_view() == Map::<Seq<char>, bool>::empty()
        &&& self.transaction_manager.config_view() == config
        &&& self.transaction_manager.stats_view() == Map::<Seq<char>, TransactionStats>::empty()
        &&& self.transaction_manager.active_view() == Map::<Seq<char>, TransactionRecord>::empty()
        &&& self.transaction_manager.history_view() == Seq::<Seq<char>>::empty()
        &&& self.transaction_manager.permits_view() == Map::<Seq<char>, usize>::empty()
        &&& self.ephemeral_processor.config_view() == config
        &&& self.ephemeral_processor.stats_map() == Map::<Seq<char>, EphemeralStats>::empty()
        &&& self.ephemeral_processor.last_event() == Map::<Seq<char>, u64>::empty()
        &&& self.ephemeral_processor.dedup_len() == 0
        &&& self.namespace_manager.cache_map() == Map::<Seq<char>, CacheEntry>::empty()
        &&& self.namespace_manager.stats_map() == Map::<Seq<char>, NamespaceStats>::empty()
        &&& self.namespace_manager.expiry_ms() == DEFAULT_CACHE_EXPIRY_MS
        &&& self.namespace_manager.caching() == config.enable_namespace_caching
        &&& self.puppet_manager.puppet_map() == Map::<Seq<char>, PuppetView>::empty()
        &&& self.puppet_manager.puppet_sets() == Map::<Seq<char>, Set<Seq<char>>>::empty()
        &&& self.puppet_manager.stats_map() == Map::<Seq<char>, PuppetStats>::empty()
        &&& self.puppet_manager.max_puppets() == config.max_virtual_users_per_bridge
    }

    /// A service with fresh managers and no per-bridge state.
    pub fn new(config: &BridgeCompatibilityConfig) -> (s: Self)
        ensures
            s.wf(),
            s.fresh_for(*config),
    {
        BridgeCompatibilityService {
            config: *config,
            transaction_manager: TransactionManager::new(config),
            ephemeral_processor: EphemeralEventProcessor::new(config),
            namespace_manager: NamespaceManager::new(config),
            puppet_manager: PuppetManager::new(config),
            bridge_configs: StrMap::new(),
            metrics: StrMap::new(),
            health_status: StrMap::new(),
        }
    }

    /// Counts one transaction of bridge `app` that took `elapsed_ms`.
    pub fn update_metrics(&mut self, app: &str, elapsed_ms: u64)
        requires
            old(self).wf(),
        ensures
            final(self).wf(),
            final(self).metrics_view() == old(self).metrics_view().insert(
                app@,
                metrics_after(
                    if old(self).metrics_view().contains_key(app@) { old(self).metrics_view()[app@] } else { default_metrics() },
                    elapsed_ms,
                ),
            ),
            final(self).config_view() == old(self).config_view(),
            final(self).bridge_configs_view() == old(self).bridge_configs_view(),
            final(self).health_view() == old(self).health_view(),
            final(self).transaction_manager == old(self).transaction_manager,
            final(self).ephemeral_processor == old(self).ephemeral_processor,
            final(self).namespace_manager == old(self).namespace_manager,
            final(self).puppet_manager == old(self).puppet_manager,
    {
        let m = match self.metrics.get(app) {
            Some(m) => *m,
            None => BridgeMetrics::default(),
        };
        let t = BridgeMetrics {
            transactions_processed: bump64(m.transactions_processed),
            total_transaction_time_ms: sum64(m.total_transaction_time_ms, elapsed_ms),
            last_transaction_ms: Some(elapsed_ms),
            ..m
        };
        self.metrics.insert(app, t);
    }

    /// Processes transaction `txn_id` of bridge `app` as the transaction
    /// manager does, and counts it in the bridge's metrics whatever the
    /// outcome; processing took `elapsed_ms`.
    pub fn process_transaction(
        &mut self,
        app: &str,
        txn_id: &str,
        event_count: usize,
        timed_out: bool,
        now: u64,
        elapsed_ms: u64,
    ) -> (r: Result<(), ServiceError>)
        requires
            old(self).wf(),
            old(self).transaction_manager.history_view().contains(crate::bridge::transactions::txn_key(app@, txn_id@))
                || old(self).transaction_manager.permit_allowance(app@) > 0,
        ensures
            final(self).wf(),
            old(self).transaction_manager.processed(final(self).transaction_manager, app@, txn_id@, event_count, timed_out, now, r),
            final(self).metrics_view() == old(self).metrics_view().insert(
                app@,
                metrics_after(
                    if old(self).metrics_view().contains_key(app@) { old(self).metrics_view()[app@] } else { default_metrics() },
                    elapsed_ms,
                ),
            ),
            final(self).config_view() == old(self).config_view(),
            final(self).bridge_configs_view() == old(self).bridge_configs_view(),
            final(self).health_view() == old(self).health_view(),
            final(self).ephemeral_processor == old(self).ephemeral_processor,
            final(self).namespace_manager == old(self).namespace_manager,
            final(self).puppet_manager == old(self).puppet_manager,
    {
        let r = self.transaction_manager.process_transaction(app, txn_id, event_count, timed_out, now);
        self.update_metrics(app, elapsed_ms);
        r
    }

    /// Answers bridge `app`'s query for user `user_id` at `now`: the user
    /// must be in the bridge's namespaces (`namespaces`, `None` when the
    /// bridge has no registration); then a user that exists on the server
    /// (`user_exists`) or a puppet is found, and otherwise nothing is.
    pub fn query_user_id(
        &mut self,
        app: &str,
        user_id: &str,
        namespaces: Option<&Vec<String>>,
        user_exists: bool,
        now: u64,
    ) -> (r: Result<Option<UserQueryAnswer>, ServiceError>)
        requires
            old(self).wf(),
        ensures
            final(self).wf(),
            final(self).metrics_view() == old(self).metrics_view(),
            final(self).bridge_configs_view() == old(self).bridge_configs_view(),
            final(self).health_view() == old(self).health_view(),
            final(self).transaction_manager == old(self).transaction_manager,
            final(self).ephemeral_processor == old(self).ephemeral_processor,
            final(self).puppet_manager == old(self).puppet_manager,
            exists|v: Result<(), ServiceError>|
                #[trigger] old(self).namespace_manager.validated(
                    final(self).namespace_manager,
                    false,
                    app@,
                    user_id@,
                    ns_view(namespaces),
                    now,
                    v,
                ) && (v matches Err(e) ==> r == Err::<Option<UserQueryAnswer>, ServiceError>(e)) && (v is Ok ==> (
                r matches Ok(a) && if user_exists {
                    (a matches Some(q) && q.user_id@ == user_id@ && q.appservice_id is None)
                } else if old(self).puppet_manager.puppet_map().contains_key(user_id@) {
                    (a matches Some(q) && q.user_id@ == user_id@ && (q.appservice_id matches Some(s) && s@
                        == old(self).puppet_manager.puppet_map()[user_id@].appservice_id))
                } else {
                    a is None
                })),
    {
        let v = self.namespace_manager.validate_user_namespace(app, user_id, namespaces, now);
        let ghost gv = v;
        assert(old(self).namespace_manager.validated(self.namespace_manager, false, app@, user_id@, ns_view(namespaces), now, gv));
        match v {
            Err(e) => {
                return Err(e);
            },
            Ok(()) => {},
        }
        if user_exists {
            return Ok(Some(UserQueryAnswer { user_id: to_owned(user_id), appservice_id: None }));
        }
        match self.puppet_manager.get_puppet(user_id) {
            Some(p) => Ok(Some(UserQueryAnswer { user_id: to_owned(user_id), appservice_id: Some(p.appservice_id) })),
            None => Ok(None),
        }
    }

    /// Answers bridge `app`'s query for room alias `room_alias` at `now`:
    /// the alias must be in the bridge's namespaces (`namespaces`, `None`
    /// when the bridge has no registration); then the room the alias names
    /// on this server (`local_room`) is the answer, or else a placeholder
    /// room id on `server_name` that the bridge may create.
    pub fn query_room_alias(
        &mut self,
        app: &str,
        room_alias: &str,
        namespaces: Option<&Vec<String>>,
        local_room: Option<String>,
        server_name: &str,
        now: u64,
    ) -> (r: Result<Option<String>, ServiceError>)
        requires
            old(self).wf(),
        ensures
            final(self).wf(),
            final(self).metrics_view() == old(self).metrics_view(),
            final(self).bridge_configs_view() == old(self).bridge_configs_view(),
            final(self).health_view() == old(self).health_view(),
            final(self).transaction_manager == old(self).transaction_manager,
            final(self).ephemeral_processor == old(self).ephemeral_processor,
            final(self).puppet_manager == old(self).puppet_manager,
            exists|v: Result<(), ServiceError>|
                #[trigger] old(self).namespace_manager.validated(
                    final(self).namespace_manager,
                    true,
                    app@,
                    room_alias@,
                    ns_view(namespaces),
                    now,
                    v,
                ) && (v matches Err(e) ==> r == Err::<Option<String>, ServiceError>(e)) && (v is Ok ==> match local_room {
                    Some(room) => r == Ok::<Option<String>, ServiceError>(Some(room)),
                    None => {
                        let p = placeholder_room_id(room_alias@, server_name@);
                        let ok = encode_utf8(p).len() <= 255 && !p.contains('\0');
                        &&& ok ==> (r matches Ok(a) && a matches Some(id) && id@ == p)
                        &&& !ok ==> (r matches Err(e) && is_error(
                            e,
                            ErrorKind::InvalidParam,
                            "Failed to create placeholder room ID"@,
                        ))
                    },
                }),
    {
        let v = self.namespace_manager.validate_alias_namespace(app, room_alias, namespaces, now);
        let ghost gv = v;
        assert(old(self).namespace_manager.validated(self.namespace_manager, true, app@, room_alias@, ns_view(namespaces), now, gv));
        match v {
            Err(e) => {
                return Err(e);
            },
            Ok(()) => {},
        }
        match local_room {
            Some(room) => {
                return Ok(Some(room));
            },
            None => {},
        }
        proof {
            reveal_strlit("!bridge_");
            reveal_strlit(":");
        }
        let local = localpart_of_alias(room_alias);
        let head = concat3("!bridge_", local, ":");
        let mut placeholder = head;
        placeholder.append(server_name);
        assert(placeholder@ == placeholder_room_id(room_alias@, server_name@));
        assert(placeholder@[0] == '!');
        if valid_room_id(placeholder.as_str()) {
            Ok(Some(placeholder))
        } else {
            Err(make_error(ErrorKind::InvalidParam, "Failed to create placeholder room ID"))
        }
    }

    /// The configuration of bridge `app`: its own, or else the service's.
    pub fn get_bridge_config(&self, app: &str) -> (c: BridgeCompatibilityConfig)
        requires
            self.wf(),
        ensures
            c == if self.bridge_configs_view().contains_key(app@) {
                self.bridge_configs_view()[app@]
            } else {
                self.config_view()
            },
    {
        match self.bridge_configs.get(app) {
            Some(c) => *c,
            None => self.config,
        }
    }

    /// Sets the configuration of bridge `app`.
    pub fn update_bridge_config(&mut self, app: &str, config: BridgeCompatibilityConfig)
        requires
            old(self).wf(),
        ensures
            final(self).wf(),
            final(self).bridge_configs_view() == old(self).bridge_configs_view().insert(app@, config),
            final(self).config_view() == old(self).config_view(),
            final(self).metrics_view() == old(self).metrics_view(),
            final(self).health_view() == old(self).health_view(),
    {
        self.bridge_configs.insert(app, config);
    }

    /// The metrics of bridge `app`, if it has any.
    pub fn get_metrics(&self, app: &str) -> (r: Option<BridgeMetrics>)
        requires
            self.wf(),
        ensures
            r == (if self.metrics_view().contains_key(app@) {
                Some(self.metrics_view()[app@])
            } else {
                None::<BridgeMetrics>
            }),
    {
        match self.metrics.get(app) {
            Some(m) => Some(*m),
            None => None,
        }
    }

    /// The metrics of every bridge.
    pub fn get_all_metrics(&self) -> (r: Vec<(String, BridgeMetrics)>)
        requires
            self.wf(),
        ensures
            r@.len() == self.metrics_view().len(),
            forall|i: int| 0 <= i < r@.len() ==> #[trigger] self.metrics_view().contains_key(r@[i].0@)
                && self.metrics_view()[r@[i].0@] == r@[i].1,
    {
        let n = self.metrics.len();
        proof {
            self.metrics.lemma_len();
        }
        let mut out: Vec<(String, BridgeMetrics)> = Vec::new();
        let mut i: usize = 0;
        while i < n
            invariant
                n == self.metrics.spec_len(),
                self.metrics.wf(),
                i <= n,
                out@.len() == i,
                forall|k: int| 0 <= k < i ==> #[trigger] self.metrics@.contains_key(out@[k].0@) && self.metrics@[out@[k].0@] == out@[k].1,
            decreases n - i,
        {
            proof {
                self.metrics.lemma_entry_in_map(i as int);
            }
            out.push((self.metrics.key_at_index(i).clone(), *self.metrics.value_at_index(i)));
            i = i + 1;
        }
        out
    }

    /// Whether bridge `app` is healthy: as last reported, healthy when never
    /// reported.
    pub fn check_health(&self, app: &str) -> (r: bool)
        requires
            self.wf(),
        ensures
            r == (!self.health_view().contains_key(app@) || self.health_view()[app@]),
    {
        match self.health_status.get(app) {
            Some(h) => *h,
            None => true,
        }
    }

    /// Records the health of bridge `app`.
    pub fn update_health(&mut self, app: &str, is_healthy: bool)
        requires
            old(self).wf(),
        ensures
            final(self).wf(),
            final(self).health_view() == old(self).health_view().insert(app@, is_healthy),
            final(self).config_view() == old(self).config_view(),
            final(self).metrics_view() == old(self).metrics_view(),
            final(self).bridge_configs_view() == old(self).bridge_configs_view(),
    {
        self.health_status.insert(app, is_healthy);
    }

    /// The counters of every manager, the metrics, and the configuration.
    pub fn get_stats(&self) -> (r: BridgeServiceStats)
        requires
            self.wf(),
        ensures
            r.config == self.config_view(),
            r.transaction_stats@.len() == self.transaction_manager.stats_view().len(),
            forall|i: int| 0 <= i < r.transaction_stats@.len() ==> #[trigger] self.transaction_manager.stats_view().contains_key(
                r.transaction_stats@[i].0@,
            ) && self.transaction_manager.stats_view()[r.transaction_stats@[i].0@] == r.transaction_stats@[i].1,
            r.ephemeral_stats@.len() == self.ephemeral_processor.stats_map().len(),
            forall|i: int| 0 <= i < r.ephemeral_stats@.len() ==> #[trigger] self.ephemeral_processor.stats_map().contains_key(
                r.ephemeral_stats@[i].0@,
            ) && self.ephemeral_processor.stats_map()[r.ephemeral_stats@[i].0@] == r.ephemeral_stats@[i].1,
            r.namespace_stats@.len() == self.namespace_manager.stats_map().len(),
            forall|i: int| 0 <= i < r.namespace_stats@.len() ==> #[trigger] self.namespace_manager.stats_map().contains_key(
                r.namespace_stats@[i].0@,
            ) && self.namespace_manager.stats_map()[r.namespace_stats@[i].0@] == r.namespace_stats@[i].1,
            r.puppet_stats@.len() == self.puppet_manager.stats_map().len(),
            forall|i: int| 0 <= i < r.puppet_stats@.len() ==> #[trigger] self.puppet_manager.stats_map().contains_key(
                r.puppet_stats@[i].0@,
            ) && self.puppet_manager.stats_map()[r.puppet_stats@[i].0@] == r.puppet_stats@[i].1,
            r.metrics@.len() == self.metrics_view().len(),
            forall|i: int| 0 <= i < r.metrics@.len() ==> #[trigger] self.metrics_view().contains_key(r.metrics@[i].0@)
                && self.metrics_view()[r.metrics@[i].0@] == r.metrics@[i].1,
    {
        BridgeServiceStats {
            transaction_stats: self.transaction_manager.get_all_stats(),
            ephemeral_stats: self.ephemeral_processor.get_all_stats(),
            namespace_stats: self.namespace_manager.get_all_stats(),
            puppet_stats: self.puppet_manager.get_all_stats(),
            metrics: self.get_all_metrics(),
            config: self.config,
        }
    }
}

impl Default for BridgeCompatibilityService {
    fn default() -> (s: Self)
        ensures
            s.wf(),
            s.fresh_for(crate::bridge::default_bridge_config()),
    {
        let c = BridgeCompatibilityConfig::default_config();
        Self::new(&c)
    }
}

} // verus!
