//! Federation: the servers this one federates with (blocked and trusted
//! servers, the outcome of each discovery round), the bridges it runs, and
//! the checking of server names read from storage. Discovery, monitoring
//! and the event channel are the caller's; this module keeps the state and
//! makes the decisions.
use vstd::prelude::*;
use vstd::string::*;

use crate::counters::{inc32, bump32, copy_opt_string, copy_strings};
use crate::error::{ErrorKind, ServiceError, is_error, make_error, make_error_with};
use crate::external::{server_name_problem, spec_server_name_problem};
use crate::strmap::StrMap;
use crate::text::{concat3, str_eq, to_owned};

verus! {

/// The federation API version this server speaks.
pub const FEDERATION_API_VERSION: &'static str = "1.11";

/// The longest a federation request may take, in milliseconds.
pub const FEDERATION_TIMEOUT_MS: u64 = 30000;

/// The kinds of bridges.
#[derive(Debug)]
pub enum BridgeType {
    Discord,
    Telegram,
    Slack,
    IRC,
    XMPP,
    WhatsApp,
    Custom(String),
}

/// A bridge's configuration; its settings are JSON text.
#[derive(Debug)]
pub struct BridgeConfig {
    pub name: String,
    pub endpoint: String,
    pub credentials: Vec<(String, String)>,
    pub settings_json: String,
    pub features: Vec<String>,
}

/// Rate limits of federation traffic.
#[derive(Debug, Clone, Copy, PartialEq, Eq, Structural)]
pub struct FederationRateLimits {
    pub requests_per_second: u32,
    pub burst_size: u32,
    pub events_per_second: u32,
}

/// The federation configuration; durations are milliseconds.
#[derive(Debug)]
pub struct FederationConfig {
    pub server_name: String,
    pub request_timeout_ms: u64,
    pub max_retries: u32,
    pub retry_backoff_ms: u64,
    pub enable_bridges: bool,
    pub rate_limits: FederationRateLimits,
    pub blocked_servers: Vec<String>,
    pub trusted_servers: Vec<String>,
}

/// The characters of each string.
pub open spec fn names_view(v: Seq<String>) -> Seq<Seq<char>> {
    v.map_values(|s: String| s@)
}

/// The default configuration: no server name, a 30 s timeout, 3 retries
/// one second apart, no bridges, 10 requests per second (bursts of 20),
/// 100 events per second, and no blocked or trusted servers.
pub open spec fn is_default_federation_config(c: FederationConfig) -> bool {
    &&& c.server_name@ == Seq::<char>::empty()
    &&& c.request_timeout_ms == 30000
    &&& c.max_retries == 3
    &&& c.retry_backoff_ms == 1000
    &&& !c.enable_bridges
    &&& c.rate_limits == FederationRateLimits { requests_per_second: 10, burst_size: 20, events_per_second: 100 }
    &&& c.blocked_servers@.len() == 0
    &&& c.trusted_servers@.len() == 0
}

impl Default for FederationConfig {
    fn default() -> (c: Self)
        ensures
            is_default_federation_config(c),
    {
        FederationConfig {
            server_name: String::new(),
            request_timeout_ms: 30000,
            max_retries: 3,
            retry_backoff_ms: 1000,
            enable_bridges: false,
            rate_limits: FederationRateLimits { requests_per_second: 10, burst_size: 20, events_per_second: 100 },
            blocked_servers: Vec::new(),
            trusted_servers: Vec::new(),
        }
    }
}

/// Where a federated server stands.
#[derive(Debug, Clone, Copy, PartialEq, Eq, Structural)]
pub enum ServerStatus {
    Online,
    Offline,
    Degraded,
    Blocked,
    Unknown,
}

/// How far a server is trusted.
#[derive(Debug, Clone, Copy, PartialEq, Eq, Structural)]
pub enum TrustLevel {
    Trusted,
    Normal,
    Limited,
    Untrusted,
    Blocked,
}

/// Traffic counters of one server; the average response time is in
/// milliseconds.
#[derive(Debug)]
pub struct ServerStats {
    pub requests_sent: u64,
    pub requests_received: u64,
    pub events_sent: u64,
    pub events_received: u64,
    pub avg_response_time_ms: u64,
    pub error_count: u64,
    pub last_error: Option<String>,
}

/// A federated server; the last time it was seen is in milliseconds.
#[derive(Debug)]
pub struct FederatedServer {
    pub server_name: String,
    pub version: Option<String>,
    pub federation_version: String,
    pub status: ServerStatus,
    pub last_seen_ms: u64,
    pub stats: ServerStats,
    pub trust_level: TrustLevel,
    pub bridges: Vec<String>,
}

/// A server's traffic counters as values.
pub struct ServerStatsView {
    pub requests_sent: u64,
    pub requests_received: u64,
    pub events_sent: u64,
    pub events_received: u64,
    pub avg_response_time_ms: u64,
    pub error_count: u64,
    pub last_error: Option<Seq<char>>,
}

/// The counters of a server just added: all zero, no error.
pub open spec fn zero_server_stats() -> ServerStatsView {
    ServerStatsView {
        requests_sent: 0,
        requests_received: 0,
        events_sent: 0,
        events_received: 0,
        avg_response_time_ms: 0,
        error_count: 0,
        last_error: None,
    }
}

/// A federated server as values.
pub struct ServerView {
    pub server_name: Seq<char>,
    pub version: Option<Seq<char>>,
    pub federation_version: Seq<char>,
    pub status: ServerStatus,
    pub last_seen_ms: u64,
    pub stats: ServerStatsView,
    pub trust_level: TrustLevel,
    pub bridges: Seq<Seq<char>>,
}

/// The characters of an optional string.
pub open spec fn opt_text(o: Option<String>) -> Option<Seq<char>> {
    match o {
        Some(s) => Some(s@),
        None => None,
    }
}

impl View for FederatedServer {
    type V = ServerView;

    open spec fn view(&self) -> ServerView {
        ServerView {
            server_name: self.server_name@,
            version: opt_text(self.version),
            federation_version: self.federation_version@,
            status: self.status,
            last_seen_ms: self.last_seen_ms,
            stats: ServerStatsView {
                requests_sent: self.stats.requests_sent,
                requests_received: self.stats.requests_received,
                events_sent: self.stats.events_sent,
                events_received: self.stats.events_received,
                avg_response_time_ms: self.stats.avg_response_time_ms,
                error_count: self.stats.error_count,
                last_error: opt_text(self.stats.last_error),
            },
            trust_level: self.trust_level,
            bridges: names_view(self.bridges@),
        }
    }
}

/// Where a bridge stands.
#[derive(Debug)]
pub enum BridgeStatus {
    Active,
    Connecting,
    Disconnected,
    Error(String),
    Disabled,
}

/// How a Matrix room maps to rooms elsewhere.
#[derive(Debug, Clone, Copy, PartialEq, Eq, Structural)]
pub enum RoomMappingType {
    OneToOne,
    ManyToOne,
    OneToMany,
    Custom,
}

/// Message counters of one bridged room.
#[derive(Debug, Clone, Copy, PartialEq, Eq, Structural)]
pub struct MessageStats {
    pub total_messages: u64,
    pub from_matrix: u64,
    pub to_matrix: u64,
    pub failed_messages: u64,
}

/// A room a bridge connects; active since a time in milliseconds.
#[derive(Debug)]
pub struct BridgedRoom {
    pub matrix_room_id: String,
    pub external_room_id: String,
    pub mapping_type: RoomMappingType,
    pub active_since_ms: u64,
    pub message_stats: MessageStats,
}

/// Counters of one bridge; the uptime is in milliseconds.
#[derive(Debug, Clone, Copy, PartialEq, Eq, Structural)]
pub struct BridgeStats {
    pub messages_bridged: u64,
    pub events_translated: u64,
    pub error_count: u64,
    pub active_rooms: u32,
    pub uptime_ms: u64,
}

/// A bridge; the last activity is in milliseconds.
#[derive(Debug)]
pub struct Bridge {
    pub id: String,
    pub bridge_type: BridgeType,
    pub status: BridgeStatus,
    pub config: BridgeConfig,
    pub rooms: Vec<BridgedRoom>,
    pub stats: BridgeStats,
    pub last_activity_ms: u64,
}

/// Counters of the federation (the success rate is the caller's to derive;
/// the average latency is in milliseconds).
#[derive(Debug, Clone, Copy, PartialEq, Eq, Structural)]
pub struct FederationStats {
    pub total_servers: u32,
    pub online_servers: u32,
    pub total_bridges: u32,
    pub active_bridges: u32,
    pub total_events: u64,
    pub events_today: u64,
    pub avg_latency_ms: u64,
}

/// What the federation tells its subscribers.
#[derive(Debug)]
pub enum FederationEvent {
    ServerDiscovered(String),
    ServerConnected(String),
    ServerDisconnected(String),
    BridgeConnected(String, BridgeType),
    BridgeDisconnected(String, BridgeType),
    EventFederated(String, String),
    BridgeMessage(String, String, String),
    FederationError(String, String),
}

/// What discovery found out about a server: its version, if it told, and
/// the federation version it speaks.
#[derive(Debug)]
pub struct DiscoveredServer {
    pub version: Option<String>,
    pub federation_version: String,
}

/// A copy of a federated server.
pub fn copy_server(v: &FederatedServer) -> (r: FederatedServer)
    ensures
        r@ == v@,
{
    FederatedServer {
        server_name: v.server_name.clone(),
        version: crate::counters::copy_opt_string(&v.version),
        federation_version: v.federation_version.clone(),
        status: v.status,
        last_seen_ms: v.last_seen_ms,
        stats: ServerStats {
            requests_sent: v.stats.requests_sent,
            requests_received: v.stats.requests_received,
            events_sent: v.stats.events_sent,
            events_received: v.stats.events_received,
            avg_response_time_ms: v.stats.avg_response_time_ms,
            error_count: v.stats.error_count,
            last_error: crate::counters::copy_opt_string(&v.stats.last_error),
        },
        trust_level: v.trust_level,
        bridges: crate::counters::copy_strings(&v.bridges),
    }
}

/// A copy of a bridge type.
pub fn copy_bridge_type(t: &BridgeType) -> (r: BridgeType)
    ensures
        match (t, r) {
            (BridgeType::Custom(a), BridgeType::Custom(b)) => a@ == b@,
            (BridgeType::Discord, BridgeType::Discord) => true,
            (BridgeType::Telegram, BridgeType::Telegram) => true,
            (BridgeType::Slack, BridgeType::Slack) => true,
            (BridgeType::IRC, BridgeType::IRC) => true,
            (BridgeType::XMPP, BridgeType::XMPP) => true,
            (BridgeType::WhatsApp, BridgeType::WhatsApp) => true,
            _ => false,
        },
{
    match t {
        BridgeType::Discord => BridgeType::Discord,
        BridgeType::Telegram => BridgeType::Telegram,
        BridgeType::Slack => BridgeType::Slack,
        BridgeType::IRC => BridgeType::IRC,
        BridgeType::XMPP => BridgeType::XMPP,
        BridgeType::WhatsApp => BridgeType::WhatsApp,
        BridgeType::Custom(s) => BridgeType::Custom(to_owned(s.as_str())),
    }
}

/// Whether `names` holds `name`.
pub fn names_contain(names: &Vec<String>, name: &str) -> (r: bool)
    ensures
        r == names_view(names@).contains(name@),
{
    let mut i: usize = 0;
    while i < names.len()
        invariant
            i <= names@.len(),
            forall|j: int| 0 <= j < i ==> names@[j]@ != name@,
        decreases names@.len() - i,
    {
        if str_eq(names[i].as_str(), name) {
            assert(names_view(names@)[i as int] == name@);
            return true;
        }
        i = i + 1;
    }
    assert(!names_view(names@).contains(name@)) by {
        if names_view(names@).contains(name@) {
            let j = choose|j: int| 0 <= j < names_view(names@).len() && names_view(names@)[j] == name@;
            assert(names@[j]@ == name@);
        }
    }
    false
}

/// The index of the first name in `names` that is no valid server name
/// (the length when all are valid).
pub open spec fn first_invalid_name(names: Seq<Seq<char>>, i: int) -> int
    decreases names.len() - i,
{
    if i < 0 || i >= names.len() {
        names.len() as int
    } else if spec_server_name_problem(names[i]) is Some {
        i
    } else {
        first_invalid_name(names, i + 1)
    }
}

/// Checks the server names read from storage: all of them when all are
/// valid, else the error of the first that is not.
pub fn validate_server_names(names: Vec<String>) -> (r: Result<Vec<String>, ServiceError>)
    ensures
        ({
            let k = first_invalid_name(names_view(names@), 0);
            &&& k == names@.len() ==> (r matches Ok(v) && names_view(v@) == names_view(names@))
            &&& k < names@.len() ==> (r matches Err(e) && is_error(
                e,
                ErrorKind::InvalidParam,
                "Invalid server name: "@ + spec_server_name_problem(names@[k]@)->0,
            ))
        }),
{
    let mut i: usize = 0;
    while i < names.len()
        invariant
            i <= names@.len(),
            first_invalid_name(names_view(names@), 0) == first_invalid_name(names_view(names@), i as int),
        decreases names@.len() - i,
    {
        match server_name_problem(names[i].as_str()) {
            Some(m) => {
                proof {
                    reveal_strlit("Invalid server name: ");
                    assert(names_view(names@)[i as int] == names@[i as int]@);
                }
                return Err(make_error_with(ErrorKind::InvalidParam, "Invalid server name: ", m.as_str()));
            },
            None => {
                assert(names_view(names@)[i as int] == names@[i as int]@);
            },
        }
        i = i + 1;
    }
    Ok(names)
}

/// A discovery round's results as values: each server name, and what
/// discovery found (its version and federation version) or `None`.
pub open spec fn round_view(results: Seq<(String, Option<DiscoveredServer>)>) -> Seq<(Seq<char>, Option<(Option<Seq<char>>, Seq<char>)>)> {
    results.map_values(
        |r: (String, Option<DiscoveredServer>)|
            (
                r.0@,
                match r.1 {
                    Some(d) => Some((opt_text(d.version), d.federation_version@)),
                    None => None,
                },
            ),
    )
}

/// The servers after one result of a discovery round at `now`.
pub open spec fn round_step(
    m: Map<Seq<char>, ServerView>,
    r: (Seq<char>, Option<(Option<Seq<char>>, Seq<char>)>),
    now: u64,
) -> Map<Seq<char>, ServerView> {
    if m.contains_key(r.0) {
        m.insert(
            r.0,
            match r.1 {
                Some(d) => ServerView {
                    version: d.0,
                    federation_version: d.1,
                    status: ServerStatus::Online,
                    last_seen_ms: now,
                    ..m[r.0]
                },
                None => ServerView { status: ServerStatus::Offline, ..m[r.0] },
            },
        )
    } else {
        m
    }
}

/// The servers after the results of a discovery round, in order.
pub open spec fn round_after(
    m: Map<Seq<char>, ServerView>,
    rs: Seq<(Seq<char>, Option<(Option<Seq<char>>, Seq<char>)>)>,
    now: u64,
) -> Map<Seq<char>, ServerView>
    decreases rs.len(),
{
    if rs.len() == 0 {
        m
    } else {
        round_step(round_after(m, rs.drop_last(), now), rs.last(), now)
    }
}

/// How many results of a round are for servers in `known` and were
/// answers (`answered`) or not.
pub open spec fn round_count(
    known: Set<Seq<char>>,
    rs: Seq<(Seq<char>, Option<(Option<Seq<char>>, Seq<char>)>)>,
    answered: bool,
) -> nat
    decreases rs.len(),
{
    if rs.len() == 0 {
        0
    } else {
        round_count(known, rs.drop_last(), answered) + if known.contains(rs.last().0) && (rs.last().1 is Some) == answered {
            1nat
        } else {
            0nat
        }
    }
}

/// The federation manager.
pub struct FederationManager {
    pub config: FederationConfig,
    pub servers: StrMap<FederatedServer>,
    pub bridges: StrMap<Bridge>,
    pub stats: FederationStats,
}

impl FederationManager {
    /// The servers by name.
    pub open spec fn server_map(&self) -> Map<Seq<char>, ServerView> {
        self.servers@.map_values(|s: FederatedServer| s@)
    }

    /// The ids of the bridges.
    pub open spec fn bridge_ids(&self) -> Set<Seq<char>> {
        self.bridges@.dom()
    }

    /// Well-formedness: the maps keep distinct keys.
    pub open spec fn wf(&self) -> bool {
        self.servers.wf() && self.bridges.wf()
    }

    /// The names of the known servers, in the order they are kept.
    pub closed spec fn server_keys(&self) -> Seq<Seq<char>> {
        self.servers.entries_seq().map_values(|e: (String, FederatedServer)| e.0@)
    }

    /// A manager with no servers, no bridges and zero counters.
    pub fn new(config: FederationConfig) -> (m: Self)
        ensures
            m.wf(),
            m.config == config,
            m.server_map() == Map::<Seq<char>, ServerView>::empty(),
            m.bridge_ids() == Set::<Seq<char>>::empty(),
            m.stats == (FederationStats {
                total_servers: 0,
                online_servers: 0,
                total_bridges: 0,
                active_bridges: 0,
                total_events: 0,
                events_today: 0,
                avg_latency_ms: 0,
            }),
    {
        let m = FederationManager {
            config,
            servers: StrMap::new(),
            bridges: StrMap::new(),
            stats: FederationStats {
                total_servers: 0,
                online_servers: 0,
                total_bridges: 0,
                active_bridges: 0,
                total_events: 0,
                events_today: 0,
                avg_latency_ms: 0,
            },
        };
        assert(m.server_map() =~= Map::<Seq<char>, ServerView>::empty());
        m
    }

    /// Refuses server `name` when it is blocked.
    pub fn check_server_allowed(&self, name: &str) -> (r: Result<(), ServiceError>)
        ensures
            names_view(self.config.blocked_servers@).contains(name@) ==> (r matches Err(e) && is_error(
                e,
                ErrorKind::BadConfig,
                "Server "@ + name@ + " is blocked"@,
            )),
            !names_view(self.config.blocked_servers@).contains(name@) ==> r is Ok,
    {
        if names_contain(&self.config.blocked_servers, name) {
            proof {
                reveal_strlit("Server ");
                reveal_strlit(" is blocked");
            }
            let msg = concat3("Server ", name, " is blocked");
            return Err(make_error(ErrorKind::BadConfig, msg.as_str()));
        }
        Ok(())
    }

    /// Adds server `name` at `now` with what discovery found: online,
    /// trusted when configured so; counted as one more server and one more
    /// online. A blocked server is refused.
    pub fn add_server(&mut self, name: &str, discovered: DiscoveredServer, now: u64) -> (r: Result<(), ServiceError>)
        requires
            old(self).wf(),
        ensures
            final(self).wf(),
            final(self).config == old(self).config,
            final(self).bridge_ids() == old(self).bridge_ids(),
            names_view(old(self).config.blocked_servers@).contains(name@) ==> {
                &&& (r matches Err(e) && is_error(e, ErrorKind::BadConfig, "Server "@ + name@ + " is blocked"@))
                &&& final(self).server_map() == old(self).server_map()
                &&& final(self).stats == old(self).stats
            },
            !names_view(old(self).config.blocked_servers@).contains(name@) ==> {
                &&& r is Ok
                &&& final(self).server_map() == old(self).server_map().insert(
                    name@,
                    ServerView {
                        server_name: name@,
                        version: opt_text(discovered.version),
                        federation_version: discovered.federation_version@,
                        status: ServerStatus::Online,
                        last_seen_ms: now,
                        stats: zero_server_stats(),
                        trust_level: if names_view(old(self).config.trusted_servers@).contains(name@) {
                            TrustLevel::Trusted
                        } else {
                            TrustLevel::Normal
                        },
                        bridges: Seq::empty(),
                    },
                )
                &&& final(self).stats == (FederationStats {
                    total_servers: inc32(old(self).stats.total_servers),
                    online_servers: inc32(old(self).stats.online_servers),
                    ..old(self).stats
                })
            },
    {
        match self.check_server_allowed(name) {
            Err(e) => {
                return Err(e);
            },
            Ok(()) => {},
        }
        let trusted = names_contain(&self.config.trusted_servers, name);
        let server = FederatedServer {
            server_name: to_owned(name),
            version: discovered.version,
            federation_version: discovered.federation_version,
            status: ServerStatus::Online,
            last_seen_ms: now,
            stats: ServerStats {
                requests_sent: 0,
                requests_received: 0,
                events_sent: 0,
                events_received: 0,
                avg_response_time_ms: 0,
                error_count: 0,
                last_error: None,
            },
            trust_level: if trusted { TrustLevel::Trusted } else { TrustLevel::Normal },
            bridges: Vec::new(),
        };
        proof {
            assert(names_view(server.bridges@) =~= Seq::<Seq<char>>::empty());
        }
        let ghost sv = server@;
        self.servers.insert(name, server);
        proof {
            assert(self.server_map() =~= old(self).server_map().insert(name@, sv));
        }
        self.stats.total_servers = bump32(self.stats.total_servers);
        self.stats.online_servers = bump32(self.stats.online_servers);
        Ok(())
    }

    /// Applies one discovery round at `now`, result by result in order:
    /// each known server that answered gets its versions, goes online and
    /// is seen now; each that did not goes offline; unknown names change
    /// nothing. The counters then hold how many of the round's results for
    /// known servers were answers, and how many such results there were.
    pub fn apply_discovery_round(&mut self, results: &Vec<(String, Option<DiscoveredServer>)>, now: u64)
        requires
            old(self).wf(),
            results@.len() <= u32::MAX,
        ensures
            final(self).wf(),
            final(self).config == old(self).config,
            final(self).bridge_ids() == old(self).bridge_ids(),
            final(self).server_map() == round_after(old(self).server_map(), round_view(results@), now),
            final(self).stats == (FederationStats {
                online_servers: round_count(old(self).server_map().dom(), round_view(results@), true) as u32,
                total_servers: (round_count(old(self).server_map().dom(), round_view(results@), true) + round_count(
                    old(self).server_map().dom(),
                    round_view(results@),
                    false,
                )) as u32,
                ..old(self).stats
            }),
    {
        let mut online: u32 = 0;
        let mut offline: u32 = 0;
        let ghost m0 = self.server_map();
        let ghost rv = round_view(results@);
        let mut i: usize = 0;
        while i < results.len()
            invariant
                self.wf(),
                self.config == old(self).config,
                self.stats == old(self).stats,
                self.bridges == old(self).bridges,
                m0 == old(self).server_map(),
                rv == round_view(results@),
                i <= results@.len(),
                results@.len() <= u32::MAX,
                self.server_map() == round_after(m0, rv.subrange(0, i as int), now),
                self.server_map().dom() == m0.dom(),
                online == round_count(m0.dom(), rv.subrange(0, i as int), true),
                offline == round_count(m0.dom(), rv.subrange(0, i as int), false),
                online + offline <= i,
            decreases results@.len() - i,
        {
            proof {
                assert(rv.subrange(0, i + 1).drop_last() =~= rv.subrange(0, i as int));
                assert(rv.subrange(0, i + 1).last() == rv[i as int]);
            }
            let ghost before = self.server_map();
            let name = results[i].0.as_str();
            match self.servers.remove(name) {
                Some(mut server) => {
                    match &results[i].1 {
                        Some(d) => {
                            server.version = copy_opt_string(&d.version);
                            server.federation_version = to_owned(d.federation_version.as_str());
                            server.status = ServerStatus::Online;
                            server.last_seen_ms = now;
                            online = online + 1;
                        },
                        None => {
                            server.status = ServerStatus::Offline;
                            offline = offline + 1;
                        },
                    }
                    let ghost sv = server@;
                    self.servers.insert(name, server);
                    proof {
                        assert(self.server_map() =~= before.insert(name@, sv));
                    }
                },
                None => {
                    assert(self.server_map() =~= before);
                },
            }
            i = i + 1;
        }
        proof {
            assert(rv.subrange(0, i as int) =~= rv);
        }
        self.stats.online_servers = online;
        self.stats.total_servers = online + offline;
    }

    /// Adds bridge `id` of type `bridge_type` with configuration `config`
    /// at `now`: active, with no rooms and zero counters (the caller starts
    /// monitoring it).
    pub fn create_bridge(&mut self, id: &str, bridge_type: BridgeType, config: BridgeConfig, now: u64)
        requires
            old(self).wf(),
        ensures
            final(self).wf(),
            final(self).config == old(self).config,
            final(self).server_map() == old(self).server_map(),
            final(self).stats == old(self).stats,
            final(self).bridge_ids() == old(self).bridge_ids().insert(id@),
            final(self).bridges@[id@].id@ == id@,
            final(self).bridges@[id@].bridge_type == bridge_type,
            final(self).bridges@[id@].status is Active,
            final(self).bridges@[id@].config == config,
            final(self).bridges@[id@].rooms@.len() == 0,
            final(self).bridges@[id@].stats == (BridgeStats {
                messages_bridged: 0,
                events_translated: 0,
                error_count: 0,
                active_rooms: 0,
                uptime_ms: 0,
            }),
            final(self).bridges@[id@].last_activity_ms == now,
    {
        let bridge = Bridge {
            id: to_owned(id),
            bridge_type,
            status: BridgeStatus::Active,
            config,
            rooms: Vec::new(),
            stats: BridgeStats { messages_bridged: 0, events_translated: 0, error_count: 0, active_rooms: 0, uptime_ms: 0 },
            last_activity_ms: now,
        };
        self.bridges.insert(id, bridge);
        assert(self.server_map() =~= old(self).server_map());
    }

    /// Removes bridge `id` (the caller stops monitoring it first).
    pub fn remove_bridge(&mut self, id: &str)
        requires
            old(self).wf(),
        ensures
            final(self).wf(),
            final(self).config == old(self).config,
            final(self).server_map() == old(self).server_map(),
            final(self).stats == old(self).stats,
            final(self).bridge_ids() == old(self).bridge_ids().remove(id@),
    {
        self.bridges.remove(id);
        assert(self.server_map() =~= old(self).server_map());
        assert(self.bridge_ids() =~= old(self).bridge_ids().remove(id@));
    }

    /// Copies of the known servers, each once, in the order they are kept.
    pub fn list_servers(&self) -> (r: Vec<FederatedServer>)
        requires
            self.wf(),
        ensures
            r@.len() == self.server_keys().len(),
            self.server_keys().len() == self.server_map().len(),
            forall|i: int, j: int| 0 <= i < j < self.server_keys().len() ==> self.server_keys()[i] != self.server_keys()[j],
            forall|i: int| 0 <= i < self.server_keys().len() ==> #[trigger] self.server_map().contains_key(self.server_keys()[i]),
            forall|i: int| 0 <= i < r@.len() ==> (#[trigger] r@[i])@ == self.server_map()[self.server_keys()[i]],
    {
        proof {
            self.servers.lemma_len();
            assert(self.server_map().dom() =~= self.servers@.dom());
        }
        let n = self.servers.len();
        let mut out: Vec<FederatedServer> = Vec::new();
        let mut i: usize = 0;
        while i < n
            invariant
                self.wf(),
                n == self.servers.spec_len(),
                i <= n,
                out@.len() == i,
                forall|j: int| 0 <= j < i ==> (#[trigger] out@[j])@ == self.servers@[self.servers.entries_seq()[j].0@]@,
            decreases n - i,
        {
            proof {
                self.servers.lemma_entry_in_map(i as int);
            }
            out.push(copy_server(self.servers.value_at_index(i)));
            i = i + 1;
        }
        proof {
            assert forall|a: int| 0 <= a < self.server_keys().len() implies #[trigger] self.server_map().contains_key(
                self.server_keys()[a],
            ) by {
                self.servers.lemma_entry_in_map(a);
                assert(self.server_keys()[a] == self.servers.entries_seq()[a].0@);
            }
            assert forall|a: int| 0 <= a < out@.len() implies (#[trigger] out@[a])@ == self.server_map()[self.server_keys()[a]] by {
                self.servers.lemma_entry_in_map(a);
                assert(self.server_keys()[a] == self.servers.entries_seq()[a].0@);
            }
            assert forall|a: int, b: int| 0 <= a < b < self.server_keys().len() implies self.server_keys()[a]
                != self.server_keys()[b] by {
                assert(self.server_keys()[a] == self.servers.entries_seq()[a].0@);
                assert(self.server_keys()[b] == self.servers.entries_seq()[b].0@);
            }
        }
        out
    }

    /// The names of the known servers.
    pub fn list_server_names(&self) -> (r: Vec<String>)
        requires
            self.wf(),
        ensures
            r@.len() == self.server_map().len(),
            forall|i: int| 0 <= i < r@.len() ==> #[trigger] self.server_map().contains_key(r@[i]@),
            forall|i: int, j: int| 0 <= i < j < r@.len() ==> r@[i]@ != r@[j]@,
    {
        proof {
            self.servers.lemma_len();
            assert(self.server_map().dom() =~= self.servers@.dom());
        }
        let n = self.servers.len();
        let mut out: Vec<String> = Vec::new();
        let mut i: usize = 0;
        while i < n
            invariant
                self.wf(),
                n == self.servers.spec_len(),
                i <= n,
                out@.len() == i,
                forall|j: int| 0 <= j < i ==> #[trigger] out@[j]@ == self.servers.entries_seq()[j].0@,
                forall|j: int| 0 <= j < i ==> #[trigger] self.server_map().contains_key(out@[j]@),
            decreases n - i,
        {
            proof {
                self.servers.lemma_entry_in_map(i as int);
            }
            out.push(to_owned(self.servers.key_at_index(i).as_str()));
            i = i + 1;
        }
        proof {
            assert forall|a: int, b: int| 0 <= a < b < out@.len() implies out@[a]@ != out@[b]@ by {
                assert(out@[a]@ == self.servers.entries_seq()[a].0@);
                assert(out@[b]@ == self.servers.entries_seq()[b].0@);
            }
        }
        out
    }

    /// The counters.
    pub fn get_stats(&self) -> (s: FederationStats)
        ensures
            s == self.stats,
    {
        self.stats
    }
}

} // verus!
