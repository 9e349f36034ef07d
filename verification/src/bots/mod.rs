//! Bot management: the registry of bots, who may change them, per-bot rate
//! limits with suspension after repeated violations, activity logs,
//! performance counters, clean-up of inactive bots and statistics.
use vstd::prelude::*;
use vstd::string::*;

use crate::counters::{bump32, bump64, inc32, inc64};
use crate::error::{ErrorKind, ServiceError, is_error, make_error};
use crate::external::{spec_char_alphanumeric, char_is_alphanumeric};
use crate::strmap::StrMap;
use crate::text::str_eq;

pub mod appservice;

verus! {

/// Kinds of bots.
#[derive(Debug, PartialEq, Eq)]
pub enum BotType {
    Bridge { platform: String },
    Admin,
    Moderation,
    Notification,
    Integration { service: String },
    Custom { category: String },
}

/// Status of a bot.
#[derive(Debug, PartialEq, Eq)]
pub enum BotStatus {
    Active,
    Inactive,
    Suspended { reason: String },
    Banned { reason: String },
    Maintenance,
}

/// Rate limits of a bot.
#[derive(Debug, Clone, Copy, PartialEq, Eq, Structural)]
pub struct BotRateLimits {
    pub messages_per_minute: u32,
    pub api_requests_per_minute: u32,
    pub room_joins_per_hour: u32,
    pub burst_protection: bool,
}

/// Security settings of a bot.
#[derive(Debug)]
pub struct BotSecurity {
    pub require_auth: bool,
    pub allowed_ip_ranges: Vec<String>,
    pub audit_logging: bool,
    pub max_inactivity_days: Option<u32>,
}

/// Counters of a bot (response time and uptime averages are kept by the
/// caller from the performance records).
#[derive(Debug, Clone, Copy, PartialEq, Eq, Structural)]
pub struct BotMetrics {
    pub messages_sent: u64,
    pub api_requests: u64,
    pub rooms_joined: u32,
    pub users_interacted: u32,
    pub errors_24h: u32,
}

/// A registered bot; times are milliseconds since the Unix epoch.
#[derive(Debug)]
pub struct BotRegistration {
    pub bot_id: String,
    pub display_name: String,
    pub description: String,
    pub bot_type: BotType,
    pub owner_id: String,
    pub appservice_id: Option<String>,
    pub avatar_url: Option<String>,
    pub status: BotStatus,
    pub created_at_ms: u64,
    pub last_active_ms: Option<u64>,
    pub allowed_rooms: Vec<String>,
    pub max_rooms: Option<u32>,
    pub rate_limits: BotRateLimits,
    pub security: BotSecurity,
    pub metrics: BotMetrics,
}

/// Something a bot did; at a time in milliseconds.
#[derive(Debug)]
pub struct BotActivity {
    pub bot_id: String,
    pub activity_type: String,
    pub room_id: Option<String>,
    pub user_id: Option<String>,
    pub details: String,
    pub timestamp_ms: u64,
    pub ip_address: Option<String>,
}

/// A bot's rate-limit window: counts since the last reset (milliseconds)
/// and the violations so far.
#[derive(Debug, Clone, Copy, PartialEq, Eq, Structural)]
pub struct RateLimitState {
    pub message_count: u32,
    pub api_request_count: u32,
    pub room_join_count: u32,
    pub last_reset_ms: u64,
    pub violations: u32,
}

/// A bot's performance record; response times in milliseconds.
#[derive(Debug, Clone, Copy, PartialEq, Eq, Structural)]
pub struct PerformanceMetrics {
    pub total_operations: u64,
    pub total_response_time_ms: u64,
    pub error_count: u32,
    pub last_activity_ms: u64,
}

/// Bot statistics.
#[derive(Debug)]
pub struct BotManagementStats {
    pub total_bots: usize,
    pub active_bots: usize,
    pub suspended_bots: usize,
    pub banned_bots: usize,
    pub type_distribution: StrMap<u32>,
    pub total_messages: u64,
    pub total_api_requests: u64,
}

/// The most activities kept per bot.
pub open spec fn max_activities() -> nat {
    1000
}

/// A bot id is accepted: 1 to 64 bytes, all characters alphanumeric, `_`
/// or `-`.
pub open spec fn valid_bot_id(id: Seq<char>) -> bool {
    &&& id.len() > 0
    &&& (vstd::utf8::encode_utf8(id).len() as usize) <= 64
    &&& forall|i: int| 0 <= i < id.len() ==> spec_char_alphanumeric(#[trigger] id[i]) || id[i] == '_' || id[i] == '-'
}

/// The rate-limit window a bot starts with at `now`.
pub open spec fn fresh_window(now: u64) -> RateLimitState {
    RateLimitState { message_count: 0, api_request_count: 0, room_join_count: 0, last_reset_ms: now, violations: 0 }
}

/// The window after counting one operation of kind `op` at `now`, and
/// whether it is allowed: the window resets after a minute; messages, API
/// requests and room joins are counted against their limits; other
/// operations are always allowed; each refusal is a violation.
pub open spec fn rate_step(s: RateLimitState, limits: BotRateLimits, op: Seq<char>, now: u64) -> (RateLimitState, bool) {
    let w = if now >= s.last_reset_ms && now - s.last_reset_ms >= 60000 {
        RateLimitState { message_count: 0, api_request_count: 0, room_join_count: 0, last_reset_ms: now, ..s }
    } else {
        s
    };
    let (w2, allowed) = if op == "message"@ {
        let c = inc32(w.message_count);
        (RateLimitState { message_count: c, ..w }, c <= limits.messages_per_minute)
    } else if op == "api_request"@ {
        let c = inc32(w.api_request_count);
        (RateLimitState { api_request_count: c, ..w }, c <= limits.api_requests_per_minute)
    } else if op == "room_join"@ {
        let c = inc32(w.room_join_count);
        (RateLimitState { room_join_count: c, ..w }, c <= limits.room_joins_per_hour)
    } else {
        (w, true)
    };
    if allowed {
        (w2, true)
    } else {
        (RateLimitState { violations: inc32(w2.violations), ..w2 }, false)
    }
}

/// The window after messages counted at `times`, one after another, and
/// whether the last one was allowed.
pub open spec fn message_run(s: RateLimitState, limits: BotRateLimits, times: Seq<u64>) -> (RateLimitState, bool)
    decreases times.len(),
{
    if times.len() == 0 {
        (s, true)
    } else {
        rate_step(message_run(s, limits, times.drop_last()).0, limits, "message"@, times.last())
    }
}

/// Messages within a window count one each and leave the window's start.
proof fn lemma_message_run_counts(s: RateLimitState, limits: BotRateLimits, times: Seq<u64>)
    requires
        s.message_count == 0,
        times.len() <= u32::MAX,
        forall|i: int| 0 <= i < times.len() ==> s.last_reset_ms <= #[trigger] times[i] < s.last_reset_ms + 60000,
    ensures
        message_run(s, limits, times).0.message_count == times.len(),
        message_run(s, limits, times).0.last_reset_ms == s.last_reset_ms,
    decreases times.len(),
{
    if times.len() > 0 {
        let t = times.drop_last();
        assert forall|i: int| 0 <= i < t.len() implies s.last_reset_ms <= #[trigger] t[i] < s.last_reset_ms + 60000 by {
            assert(t[i] == times[i]);
        }
        lemma_message_run_counts(s, limits, t);
        assert(times.last() == times[times.len() - 1]);
    }
}

/// A bot's messages in one minute's window are counted against its limit:
/// from a window with no messages yet, the `k`-th message sent within the
/// minute is allowed exactly when `k` is at most the limit of messages per
/// minute.
pub proof fn lemma_kth_message_in_window(s: RateLimitState, limits: BotRateLimits, times: Seq<u64>)
    requires
        s.message_count == 0,
        1 <= times.len() <= u32::MAX,
        forall|i: int| 0 <= i < times.len() ==> s.last_reset_ms <= #[trigger] times[i] < s.last_reset_ms + 60000,
    ensures
        message_run(s, limits, times).0.message_count == times.len(),
        message_run(s, limits, times).1 == (times.len() <= limits.messages_per_minute),
{
    lemma_message_run_counts(s, limits, times);
    let t = times.drop_last();
    assert forall|i: int| 0 <= i < t.len() implies s.last_reset_ms <= #[trigger] t[i] < s.last_reset_ms + 60000 by {
        assert(t[i] == times[i]);
    }
    lemma_message_run_counts(s, limits, t);
    assert(times.last() == times[times.len() - 1]);
}

/// The window after operations of kind `op` counted at `times`, one after
/// another, and whether the last one was allowed.
pub open spec fn op_run(s: RateLimitState, limits: BotRateLimits, op: Seq<char>, times: Seq<u64>) -> (RateLimitState, bool)
    decreases times.len(),
{
    if times.len() == 0 {
        (s, true)
    } else {
        rate_step(op_run(s, limits, op, times.drop_last()).0, limits, op, times.last())
    }
}

/// Operations within a window count one each against their own counter and
/// leave the window's start and the other counters.
proof fn lemma_op_run_counts(s: RateLimitState, limits: BotRateLimits, op: Seq<char>, times: Seq<u64>)
    requires
        op == "api_request"@ || op == "room_join"@,
        op == "api_request"@ ==> s.api_request_count == 0,
        op == "room_join"@ ==> s.room_join_count == 0,
        times.len() <= u32::MAX,
        forall|i: int| 0 <= i < times.len() ==> s.last_reset_ms <= #[trigger] times[i] < s.last_reset_ms + 60000,
    ensures
        op_run(s, limits, op, times).0.last_reset_ms == s.last_reset_ms,
        op == "api_request"@ ==> op_run(s, limits, op, times).0.api_request_count == times.len(),
        op == "room_join"@ ==> op_run(s, limits, op, times).0.room_join_count == times.len(),
    decreases times.len(),
{
    reveal_strlit("message");
    reveal_strlit("api_request");
    reveal_strlit("room_join");
    assert("message"@.len() == 7);
    assert("api_request"@.len() == 11);
    assert("room_join"@.len() == 9);
    if times.len() > 0 {
        let t = times.drop_last();
        assert forall|i: int| 0 <= i < t.len() implies s.last_reset_ms <= #[trigger] t[i] < s.last_reset_ms + 60000 by {
            assert(t[i] == times[i]);
        }
        lemma_op_run_counts(s, limits, op, t);
        assert(times.last() == times[times.len() - 1]);
    }
}

/// A bot's room joins in one minute's window are counted against its limit
/// of room joins: from a window with no joins yet, the `k`-th join within
/// the minute is allowed exactly when `k` is at most `room_joins_per_hour`.
pub proof fn lemma_kth_room_join_in_window(s: RateLimitState, limits: BotRateLimits, times: Seq<u64>)
    requires
        s.room_join_count == 0,
        1 <= times.len() <= u32::MAX,
        forall|i: int| 0 <= i < times.len() ==> s.last_reset_ms <= #[trigger] times[i] < s.last_reset_ms + 60000,
    ensures
        op_run(s, limits, "room_join"@, times).0.room_join_count == times.len(),
        op_run(s, limits, "room_join"@, times).1 == (times.len() <= limits.room_joins_per_hour),
{
    reveal_strlit("message");
    reveal_strlit("api_request");
    reveal_strlit("room_join");
    assert("message"@.len() == 7);
    assert("api_request"@.len() == 11);
    assert("room_join"@.len() == 9);
    lemma_op_run_counts(s, limits, "room_join"@, times);
    let t = times.drop_last();
    assert forall|i: int| 0 <= i < t.len() implies s.last_reset_ms <= #[trigger] t[i] < s.last_reset_ms + 60000 by {
        assert(t[i] == times[i]);
    }
    lemma_op_run_counts(s, limits, "room_join"@, t);
    assert(times.last() == times[times.len() - 1]);
}

/// A bot's API requests in one minute's window are counted against its
/// limit of API requests: from a window with none yet, the `k`-th request
/// within the minute is allowed exactly when `k` is at most
/// `api_requests_per_minute`.
pub proof fn lemma_kth_api_request_in_window(s: RateLimitState, limits: BotRateLimits, times: Seq<u64>)
    requires
        s.api_request_count == 0,
        1 <= times.len() <= u32::MAX,
        forall|i: int| 0 <= i < times.len() ==> s.last_reset_ms <= #[trigger] times[i] < s.last_reset_ms + 60000,
    ensures
        op_run(s, limits, "api_request"@, times).0.api_request_count == times.len(),
        op_run(s, limits, "api_request"@, times).1 == (times.len() <= limits.api_requests_per_minute),
{
    reveal_strlit("message");
    reveal_strlit("api_request");
    reveal_strlit("room_join");
    assert("message"@.len() == 7);
    assert("api_request"@.len() == 11);
    assert("room_join"@.len() == 9);
    lemma_op_run_counts(s, limits, "api_request"@, times);
    let t = times.drop_last();
    assert forall|i: int| 0 <= i < t.len() implies s.last_reset_ms <= #[trigger] t[i] < s.last_reset_ms + 60000 by {
        assert(t[i] == times[i]);
    }
    lemma_op_run_counts(s, limits, "api_request"@, t);
    assert(times.last() == times[times.len() - 1]);
}

/// A minute after its window started, a bot's counters start again: an
/// operation then begins a new window at that time, counts as the first of
/// its kind, and a message, API request or room join is allowed exactly
/// when its limit is at least one; other operations are always allowed and
/// counted nowhere.
pub proof fn lemma_window_restarts_after_a_minute(s: RateLimitState, limits: BotRateLimits, op: Seq<char>, now: u64)
    requires
        now >= s.last_reset_ms + 60000,
    ensures
        rate_step(s, limits, op, now).0.last_reset_ms == now,
        op == "message"@ ==> rate_step(s, limits, op, now).0.message_count == 1 && rate_step(s, limits, op, now).1 == (1
            <= limits.messages_per_minute),
        op == "api_request"@ ==> rate_step(s, limits, op, now).0.api_request_count == 1 && rate_step(s, limits, op, now).1
            == (1 <= limits.api_requests_per_minute),
        op == "room_join"@ ==> rate_step(s, limits, op, now).0.room_join_count == 1 && rate_step(s, limits, op, now).1 == (
        1 <= limits.room_joins_per_hour),
        op != "message"@ && op != "api_request"@ && op != "room_join"@ ==> rate_step(s, limits, op, now).1 && rate_step(
            s,
            limits,
            op,
            now,
        ).0.message_count == 0 && rate_step(s, limits, op, now).0.api_request_count == 0 && rate_step(
            s,
            limits,
            op,
            now,
        ).0.room_join_count == 0,
{
    reveal_strlit("message");
    reveal_strlit("api_request");
    reveal_strlit("room_join");
    assert("message"@.len() == 7);
    assert("api_request"@.len() == 11);
    assert("room_join"@.len() == 9);
}

/// Once a bot's message is refused, its messages stay refused until the
/// minute's window starts again: a message counted at `later`, less than a
/// minute after the start of the window the refusal left, is refused too.
pub proof fn lemma_message_refusal_persists(s: RateLimitState, limits: BotRateLimits, now: u64, later: u64)
    requires
        !rate_step(s, limits, "message"@, now).1,
        later < rate_step(s, limits, "message"@, now).0.last_reset_ms + 60000,
    ensures
        !rate_step(rate_step(s, limits, "message"@, now).0, limits, "message"@, later).1,
{
}

/// The name a bot type is counted under in statistics.
pub open spec fn bot_type_label(t: BotType) -> Seq<char> {
    match t {
        BotType::Bridge { platform } => "Bridge ("@ + platform@ + ")"@,
        BotType::Admin => "Admin"@,
        BotType::Moderation => "Moderation"@,
        BotType::Notification => "Notification"@,
        BotType::Integration { service } => "Integration ("@ + service@ + ")"@,
        BotType::Custom { category } => "Custom ("@ + category@ + ")"@,
    }
}

/// The activity log of a bot after appending `a`: the oldest entry goes
/// when there are more than a thousand.
pub open spec fn logged(log: Seq<BotActivity>, a: BotActivity) -> Seq<BotActivity> {
    let l = log.push(a);
    if l.len() > max_activities() { l.drop_first() } else { l }
}

/// Number of registrations among `s` whose status satisfies `p`.
pub open spec fn count_status(s: Seq<(String, BotRegistration)>, p: spec_fn(BotStatus) -> bool) -> nat
    decreases s.len(),
{
    if s.len() == 0 {
        0
    } else {
        count_status(s.drop_last(), p) + if p(s.last().1.status) { 1nat } else { 0nat }
    }
}

/// Sum of the messages (or, with `api`, API requests) of `s`, stopping at
/// `u64::MAX`.
pub open spec fn metric_sum(s: Seq<(String, BotRegistration)>, api: bool) -> u64
    decreases s.len(),
{
    if s.len() == 0 {
        0
    } else {
        crate::counters::add64(
            metric_sum(s.drop_last(), api),
            if api { s.last().1.metrics.api_requests } else { s.last().1.metrics.messages_sent },
        )
    }
}

/// Two registrations agree in everything but their status.
pub open spec fn same_but_status(a: BotRegistration, b: BotRegistration) -> bool {
    &&& a.bot_id == b.bot_id && a.display_name == b.display_name && a.description == b.description
    &&& a.bot_type == b.bot_type && a.owner_id == b.owner_id && a.appservice_id == b.appservice_id
    &&& a.avatar_url == b.avatar_url && a.created_at_ms == b.created_at_ms
    &&& a.last_active_ms == b.last_active_ms && a.allowed_rooms@ == b.allowed_rooms@ && a.max_rooms == b.max_rooms
    &&& a.rate_limits == b.rate_limits && a.metrics == b.metrics
    &&& a.security.require_auth == b.security.require_auth
    &&& a.security.allowed_ip_ranges@ == b.security.allowed_ip_ranges@
    &&& a.security.audit_logging == b.security.audit_logging
    &&& a.security.max_inactivity_days == b.security.max_inactivity_days
}

/// A bot is inactive at `now`: it has an inactivity limit in days and was
/// last active longer ago than that.
pub open spec fn inactive(b: BotRegistration, now: u64) -> bool {
    b.security.max_inactivity_days matches Some(d) && b.last_active_ms matches Some(t) && now > t && now - t > d * 86400000
}

/// Number of inactive bots among `s` at `now`.
pub open spec fn count_inactive(s: Seq<(String, BotRegistration)>, now: u64) -> nat
    decreases s.len(),
{
    if s.len() == 0 {
        0
    } else {
        count_inactive(s.drop_last(), now) + if inactive(s.last().1, now) { 1nat } else { 0nat }
    }
}

/// The registration a bot gets.
pub open spec fn fresh_registration(
    b: BotRegistration,
    bot_id: Seq<char>,
    display_name: Seq<char>,
    description: Seq<char>,
    bot_type: BotType,
    owner_id: Seq<char>,
    appservice_id: Option<String>,
    now: u64,
) -> bool {
    &&& b.bot_id@ == bot_id && b.display_name@ == display_name && b.description@ == description
    &&& b.bot_type == bot_type && b.owner_id@ == owner_id && b.appservice_id == appservice_id
    &&& b.avatar_url is None && b.status == BotStatus::Active && b.created_at_ms == now
    &&& b.last_active_ms == Some(now) && b.allowed_rooms@.len() == 0 && b.max_rooms == Some(1000u32)
    &&& b.rate_limits == default_rate_limits()
    &&& b.security.require_auth && b.security.audit_logging && b.security.max_inactivity_days == Some(30u32)
    &&& b.security.allowed_ip_ranges@.len() == 1 && b.security.allowed_ip_ranges@[0]@ == "0.0.0.0/0"@
    &&& b.metrics == default_metrics()
}

/// The default rate limits: 60 messages and 600 API requests a minute, 10
/// room joins an hour, with burst protection.
pub open spec fn default_rate_limits() -> BotRateLimits {
    BotRateLimits { messages_per_minute: 60, api_requests_per_minute: 600, room_joins_per_hour: 10, burst_protection: true }
}

/// Counters at zero.
pub open spec fn default_metrics() -> BotMetrics {
    BotMetrics { messages_sent: 0, api_requests: 0, rooms_joined: 0, users_interacted: 0, errors_24h: 0 }
}

/// `user` is the sender of the application service of bot `b`: `@`, the
/// service's sender localpart, `:` and the server name.
pub open spec fn sender_of(b: BotRegistration, localparts: Map<Seq<char>, String>, user: Seq<char>, server: Seq<char>) -> bool {
    b.appservice_id matches Some(a) && localparts.contains_key(a@) && user == "@"@ + localparts[a@]@ + ":"@ + server
}

/// The name of a bot status (its variant), as activity details record it.
pub open spec fn status_name(s: BotStatus) -> Seq<char> {
    match s {
        BotStatus::Active => "Active"@,
        BotStatus::Inactive => "Inactive"@,
        BotStatus::Suspended { .. } => "Suspended"@,
        BotStatus::Banned { .. } => "Banned"@,
        BotStatus::Maintenance => "Maintenance"@,
    }
}

/// The name of a bot status.
pub fn status_name_text(s: &BotStatus) -> (r: &'static str)
    ensures
        r@ == status_name(*s),
{
    proof {
        reveal_strlit("Active");
        reveal_strlit("Inactive");
        reveal_strlit("Suspended");
        reveal_strlit("Banned");
        reveal_strlit("Maintenance");
    }
    match s {
        BotStatus::Active => "Active",
        BotStatus::Inactive => "Inactive",
        BotStatus::Suspended { .. } => "Suspended",
        BotStatus::Banned { .. } => "Banned",
        BotStatus::Maintenance => "Maintenance",
    }
}

/// The name a bot type is counted under.
pub fn bot_type_name(t: &BotType) -> (s: String)
    ensures
        s@ == bot_type_label(*t),
{
    match t {
        BotType::Bridge { platform } => {
            let mut s = String::from_str("Bridge (");
            s.append(platform.as_str());
            s.append(")");
            s
        },
        BotType::Admin => String::from_str("Admin"),
        BotType::Moderation => String::from_str("Moderation"),
        BotType::Notification => String::from_str("Notification"),
        BotType::Integration { service } => {
            let mut s = String::from_str("Integration (");
            s.append(service.as_str());
            s.append(")");
            s
        },
        BotType::Custom { category } => {
            let mut s = String::from_str("Custom (");
            s.append(category.as_str());
            s.append(")");
            s
        },
    }
}

/// Whether `id` is an acceptable bot id.
pub fn validate_bot_id(id: &str) -> (ok: bool)
    ensures
        ok == valid_bot_id(id@),
{
    let n = id.unicode_len();
    if n == 0 || id.len() > 64 {
        return false;
    }
    let mut i: usize = 0;
    while i < n
        invariant
            n == id@.len(),
            i <= n,
            forall|j: int| 0 <= j < i ==> spec_char_alphanumeric(#[trigger] id@[j]) || id@[j] == '_' || id@[j] == '-',
        decreases n - i,
    {
        let c = id.get_char(i);
        if !(char_is_alphanumeric(c) || c == '_' || c == '-') {
            return false;
        }
        i = i + 1;
    }
    true
}

/// A copy of an optional string.
fn copy_opt(s: &Option<String>) -> (r: Option<String>)
    ensures
        r == *s,
{
    match s {
        Some(x) => Some(x.clone()),
        None => None,
    }
}

/// Whether a user may register bots: server admins may; anyone else needs
/// a power level of at least 50 (moderator) in the admin room. The room's
/// power levels, where it has them, are given as the user's own level (if
/// listed) and the room's default level for users.
pub fn can_register_bots(is_server_admin: bool, power_levels: Option<(Option<i64>, i64)>) -> (r: bool)
    ensures
        r == (is_server_admin || match power_levels {
            Some((own, users_default)) => (match own {
                Some(level) => level,
                None => users_default,
            }) >= 50,
            None => false,
        }),
{
    if is_server_admin {
        return true;
    }
    match power_levels {
        Some((own, users_default)) => {
            let level = match own {
                Some(level) => level,
                None => users_default,
            };
            level >= 50
        },
        None => false,
    }
}

/// A copy of a bot type.
pub fn copy_bot_type(t: &BotType) -> (r: BotType)
    ensures
        r == *t,
{
    match t {
        BotType::Bridge { platform } => BotType::Bridge { platform: platform.clone() },
        BotType::Admin => BotType::Admin,
        BotType::Moderation => BotType::Moderation,
        BotType::Notification => BotType::Notification,
        BotType::Integration { service } => BotType::Integration { service: service.clone() },
        BotType::Custom { category } => BotType::Custom { category: category.clone() },
    }
}

/// A copy of a bot status.
pub fn copy_status(s: &BotStatus) -> (r: BotStatus)
    ensures
        r == *s,
{
    match s {
        BotStatus::Active => BotStatus::Active,
        BotStatus::Inactive => BotStatus::Inactive,
        BotStatus::Suspended { reason } => BotStatus::Suspended { reason: reason.clone() },
        BotStatus::Banned { reason } => BotStatus::Banned { reason: reason.clone() },
        BotStatus::Maintenance => BotStatus::Maintenance,
    }
}

/// A copy of a registration: equal fields, and lists with the same items.
pub fn copy_registration(b: &BotRegistration) -> (r: BotRegistration)
    ensures
        same_registration(r, *b),
{
    BotRegistration {
        bot_id: b.bot_id.clone(),
        display_name: b.display_name.clone(),
        description: b.description.clone(),
        bot_type: copy_bot_type(&b.bot_type),
        owner_id: b.owner_id.clone(),
        appservice_id: copy_opt(&b.appservice_id),
        avatar_url: copy_opt(&b.avatar_url),
        status: copy_status(&b.status),
        created_at_ms: b.created_at_ms,
        last_active_ms: b.last_active_ms,
        allowed_rooms: crate::counters::copy_strings(&b.allowed_rooms),
        max_rooms: b.max_rooms,
        rate_limits: b.rate_limits,
        security: BotSecurity {
            require_auth: b.security.require_auth,
            allowed_ip_ranges: crate::counters::copy_strings(&b.security.allowed_ip_ranges),
            audit_logging: b.security.audit_logging,
            max_inactivity_days: b.security.max_inactivity_days,
        },
        metrics: b.metrics,
    }
}

/// Two registrations agree field by field (lists by their items).
pub open spec fn same_registration(a: BotRegistration, b: BotRegistration) -> bool {
    &&& a.bot_id == b.bot_id && a.display_name == b.display_name && a.description == b.description
    &&& a.bot_type == b.bot_type && a.owner_id == b.owner_id && a.appservice_id == b.appservice_id
    &&& a.avatar_url == b.avatar_url && a.status == b.status && a.created_at_ms == b.created_at_ms
    &&& a.last_active_ms == b.last_active_ms && a.allowed_rooms@ == b.allowed_rooms@ && a.max_rooms == b.max_rooms
    &&& a.rate_limits == b.rate_limits && a.metrics == b.metrics
    &&& a.security.require_auth == b.security.require_auth
    &&& a.security.allowed_ip_ranges@ == b.security.allowed_ip_ranges@
    &&& a.security.audit_logging == b.security.audit_logging
    &&& a.security.max_inactivity_days == b.security.max_inactivity_days
}

/// The registrations owned by `user` among `entries`, in order.
pub open spec fn owned_by(entries: Seq<(String, BotRegistration)>, user: Seq<char>) -> Seq<BotRegistration>
    decreases entries.len(),
{
    if entries.len() == 0 {
        Seq::empty()
    } else {
        owned_by(entries.drop_last(), user) + if entries.last().1.owner_id@ == user {
            seq![entries.last().1]
        } else {
            Seq::empty()
        }
    }
}

/// A bot may be changed by its owner or by a server admin.
pub open spec fn may_change(b: BotRegistration, requester: Seq<char>, requester_is_admin: bool) -> bool {
    b.owner_id@ == requester || requester_is_admin
}

/// The bot registry and its per-bot state.
pub struct BotService {
    bot_registry: StrMap<BotRegistration>,
    rate_limit_state: StrMap<RateLimitState>,
    activity_monitor: StrMap<Vec<BotActivity>>,
    performance_metrics: StrMap<PerformanceMetrics>,
    pub appservice_integration: appservice::AppServiceIntegrationService,
}

impl BotService {
    /// Registrations by bot id.
    pub closed spec fn bots(&self) -> Map<Seq<char>, BotRegistration> {
        self.bot_registry@
    }

    /// The registrations in the order they are kept.
    pub closed spec fn bot_entries(&self) -> Seq<(String, BotRegistration)> {
        self.bot_registry.entries_seq()
    }

    /// Rate-limit windows by bot id.
    pub closed spec fn windows(&self) -> Map<Seq<char>, RateLimitState> {
        self.rate_limit_state@
    }

    /// Activity logs by bot id.
    pub closed spec fn activities(&self) -> Map<Seq<char>, Seq<BotActivity>> {
        self.activity_monitor@.map_values(|v: Vec<BotActivity>| v@)
    }

    /// Performance records by bot id.
    pub closed spec fn performance(&self) -> Map<Seq<char>, PerformanceMetrics> {
        self.performance_metrics@
    }

    /// Well-formedness: maps keep distinct keys, each bot is kept under its
    /// id, and no log holds more than a thousand activities.
    pub closed spec fn wf(&self) -> bool {
        &&& self.bot_registry.wf()
        &&& self.rate_limit_state.wf()
        &&& self.activity_monitor.wf()
        &&& self.performance_metrics.wf()
        &&& forall|k: Seq<char>| #[trigger] self.bot_registry@.contains_key(k) ==> self.bot_registry@[k].bot_id@ == k
        &&& forall|k: Seq<char>| #[trigger] self.activity_monitor@.contains_key(k) ==> self.activity_monitor@[k]@.len()
            <= max_activities()
    }

    /// A service over the registrations loaded from the database (the last
    /// of several with the same id wins).
    pub fn build(loaded: Vec<BotRegistration>) -> (s: Self)
        ensures
            s.wf(),
            forall|k: Seq<char>| #[trigger] s.bots().contains_key(k) <==> exists|i: int| 0 <= i < loaded@.len() && loaded@[i].bot_id@ == k,
            forall|k: Seq<char>| #[trigger] s.bots().contains_key(k) ==> s.bots()[k].bot_id@ == k,
            s.windows() == Map::<Seq<char>, RateLimitState>::empty(),
            s.activities() == Map::<Seq<char>, Seq<BotActivity>>::empty(),
            s.performance() == Map::<Seq<char>, PerformanceMetrics>::empty(),
    {
        let mut registry: StrMap<BotRegistration> = StrMap::new();
        let mut loaded = loaded;
        let ghost all = loaded@;
        while loaded.len() > 0
            invariant
                registry.wf(),
                loaded@.len() <= all.len(),
                loaded@ =~= all.subrange(0, loaded@.len() as int),
                forall|k: Seq<char>| #[trigger] registry@.contains_key(k) ==> registry@[k].bot_id@ == k,
                forall|k: Seq<char>| #[trigger] registry@.contains_key(k) <==> exists|i: int| loaded@.len() <= i < all.len() && all[i].bot_id@ == k,
            decreases loaded@.len(),
        {
            let ghost idx = loaded@.len() - 1;
            let b = loaded.pop().unwrap();
            assert(all[idx] == b);
            let ghost before = registry@;
            let id = b.bot_id.clone();
            if !registry.contains_key(id.as_str()) {
                registry.insert(id.as_str(), b);
            }
            proof {
                assert forall|k: Seq<char>| #[trigger] registry@.contains_key(k) <==> exists|i: int| idx <= i < all.len() && all[i].bot_id@ == k by {
                    if k == id@ {
                        assert(all[idx].bot_id@ == k);
                    } else {
                        if exists|i: int| idx <= i < all.len() && all[i].bot_id@ == k {
                            let i = choose|i: int| idx <= i < all.len() && all[i].bot_id@ == k;
                            assert(i != idx);
                            assert(exists|j: int| idx + 1 <= j < all.len() && all[j].bot_id@ == k);
                        }
                        if registry@.contains_key(k) {
                            assert(before.contains_key(k));
                        }
                    }
                }
            }
        }
        assert forall|k: Seq<char>| #[trigger] registry@.contains_key(k) <==> exists|i: int| 0 <= i < all.len() && all[i].bot_id@ == k by {}
        BotService {
            bot_registry: registry,
            rate_limit_state: StrMap::new(),
            activity_monitor: StrMap::new(),
            performance_metrics: StrMap::new(),
            appservice_integration: appservice::AppServiceIntegrationService::new(),
        }
    }
    /// Appends `activity` to its bot's log, dropping the oldest entry when
    /// the log holds more than a thousand (the caller also stores it).
    pub fn log_bot_activity(&mut self, activity: BotActivity)
        requires
            old(self).wf(),
        ensures
            final(self).wf(),
            final(self).bots() == old(self).bots(),
            final(self).bot_entries() == old(self).bot_entries(),
            final(self).windows() == old(self).windows(),
            final(self).performance() == old(self).performance(),
            final(self).activities() == old(self).activities().insert(
                activity.bot_id@,
                logged(
                    if old(self).activities().contains_key(activity.bot_id@) {
                        old(self).activities()[activity.bot_id@]
                    } else {
                        Seq::empty()
                    },
                    activity,
                ),
            ),
    {
        let key = activity.bot_id.clone();
        let ghost old_map = self.activity_monitor@;
        let ghost a = activity;
        let mut log = match self.activity_monitor.remove(key.as_str()) {
            Some(v) => v,
            None => Vec::new(),
        };
        let ghost before = log@;
        log.push(activity);
        if log.len() > 1000 {
            log.remove(0);
        }
        assert(log@ =~= logged(before, a));
        self.activity_monitor.insert(key.as_str(), log);
        proof {
            assert forall|k: Seq<char>| #[trigger] self.activity_monitor@.contains_key(k) implies self.activity_monitor@[k]@.len()
                <= max_activities() by {
                if k != key@ {
                    assert(old_map.contains_key(k));
                }
            }
            assert(self.activities() =~= old(self).activities().insert(
                key@,
                logged(
                    if old(self).activities().contains_key(key@) {
                        old(self).activities()[key@]
                    } else {
                        Seq::empty()
                    },
                    a,
                ),
            ));
        }
    }

    /// Checks a registration: the id must be new, the owner allowed to
    /// register bots (`can_register`, what the admin room's power levels
    /// say), and the id well formed.
    pub fn validate_bot_registration(&self, bot_id: &str, can_register: bool) -> (r: Result<(), ServiceError>)
        requires
            self.wf(),
        ensures
            self.bots().contains_key(bot_id@) ==> (r matches Err(e) && is_error(e, ErrorKind::AdminCommand, "Bot ID already exists"@)),
            !self.bots().contains_key(bot_id@) && !can_register ==> (r matches Err(e) && is_error(
                e,
                ErrorKind::AdminCommand,
                "Permission denied: cannot register bots"@,
            )),
            !self.bots().contains_key(bot_id@) && can_register && !valid_bot_id(bot_id@) ==> (r matches Err(e) && is_error(
                e,
                ErrorKind::AdminCommand,
                "Invalid bot ID format"@,
            )),
            !self.bots().contains_key(bot_id@) && can_register && valid_bot_id(bot_id@) ==> r is Ok,
    {
        if self.bot_registry.contains_key(bot_id) {
            return Err(make_error(ErrorKind::AdminCommand, "Bot ID already exists"));
        }
        if !can_register {
            return Err(make_error(ErrorKind::AdminCommand, "Permission denied: cannot register bots"));
        }
        if !validate_bot_id(bot_id) {
            return Err(make_error(ErrorKind::AdminCommand, "Invalid bot ID format"));
        }
        Ok(())
    }

    /// Registers a bot of `owner_id` at `now` once `validate_bot_registration`
    /// passes: it is active, with default limits, a fresh rate-limit window
    /// and a registration entry in its log.
    pub fn register_bot(
        &mut self,
        bot_id: &str,
        display_name: &str,
        description: &str,
        bot_type: BotType,
        owner_id: &str,
        appservice_id: Option<String>,
        can_register: bool,
        now: u64,
    ) -> (r: Result<BotRegistration, ServiceError>)
        requires
            old(self).wf(),
        ensures
            final(self).wf(),
            r is Err ==> *final(self) == *old(self),
            (!old(self).bots().contains_key(bot_id@) && can_register && valid_bot_id(bot_id@)) <==> r is Ok,
            r matches Ok(b) ==> {
                &&& fresh_registration(b, bot_id@, display_name@, description@, bot_type, owner_id@, appservice_id, now)
                &&& final(self).bots().contains_key(bot_id@)
                &&& same_registration(final(self).bots()[bot_id@], b)
                &&& final(self).bots() == old(self).bots().insert(bot_id@, final(self).bots()[bot_id@])
                &&& final(self).windows() == old(self).windows().insert(bot_id@, fresh_window(now))
                &&& final(self).performance() == old(self).performance()
            },
    {
        match self.validate_bot_registration(bot_id, can_register) {
            Err(e) => {
                return Err(e);
            },
            Ok(()) => {},
        }
        let mut ranges: Vec<String> = Vec::new();
        ranges.push(String::from_str("0.0.0.0/0"));
        let registration = BotRegistration {
            bot_id: String::from_str(bot_id),
            display_name: String::from_str(display_name),
            description: String::from_str(description),
            bot_type,
            owner_id: String::from_str(owner_id),
            appservice_id,
            avatar_url: None,
            status: BotStatus::Active,
            created_at_ms: now,
            last_active_ms: Some(now),
            allowed_rooms: Vec::new(),
            max_rooms: Some(1000),
            rate_limits: BotRateLimits {
                messages_per_minute: 60,
                api_requests_per_minute: 600,
                room_joins_per_hour: 10,
                burst_protection: true,
            },
            security: BotSecurity {
                require_auth: true,
                allowed_ip_ranges: ranges,
                audit_logging: true,
                max_inactivity_days: Some(30),
            },
            metrics: BotMetrics { messages_sent: 0, api_requests: 0, rooms_joined: 0, users_interacted: 0, errors_24h: 0 },
        };
        let result = copy_registration(&registration);
        let ghost old_registry = self.bot_registry@;
        self.bot_registry.insert(bot_id, registration);
        proof {
            assert forall|k: Seq<char>| #[trigger] self.bot_registry@.contains_key(k) implies self.bot_registry@[k].bot_id@ == k by {
                if k != bot_id@ {
                    assert(old_registry.contains_key(k));
                }
            }
        }
        self.rate_limit_state.insert(
            bot_id,
            RateLimitState { message_count: 0, api_request_count: 0, room_join_count: 0, last_reset_ms: now, violations: 0 },
        );
        let mut details = String::from_str("Bot ");
        details.append(display_name);
        details.append(" registered successfully");
        self.log_bot_activity(
            BotActivity {
                bot_id: String::from_str(bot_id),
                activity_type: String::from_str("REGISTRATION"),
                room_id: None,
                user_id: Some(String::from_str(owner_id)),
                details,
                timestamp_ms: now,
                ip_address: None,
            },
        );
        Ok(result)
    }

    /// Removes a bot at `now`; only its owner or a server admin
    /// (`requester_is_admin`) may. Its window and performance record go too.
    pub fn unregister_bot(&mut self, bot_id: &str, requester: &str, requester_is_admin: bool, now: u64) -> (r: Result<
        (),
        ServiceError,
    >)
        requires
            old(self).wf(),
        ensures
            final(self).wf(),
            !old(self).bots().contains_key(bot_id@) ==> (r matches Err(e) && is_error(e, ErrorKind::AdminCommand, "Bot not found"@))
                && *final(self) == *old(self),
            old(self).bots().contains_key(bot_id@) && !may_change(old(self).bots()[bot_id@], requester@, requester_is_admin) ==> (
            r matches Err(e) && is_error(e, ErrorKind::AdminCommand, "Permission denied"@)) && *final(self) == *old(self),
            old(self).bots().contains_key(bot_id@) && may_change(old(self).bots()[bot_id@], requester@, requester_is_admin) ==> {
                &&& r is Ok
                &&& final(self).bots() == old(self).bots().remove(bot_id@)
                &&& final(self).windows() == old(self).windows().remove(bot_id@)
                &&& final(self).performance() == old(self).performance().remove(bot_id@)
            },
    {
        let allowed = match self.bot_registry.get(bot_id) {
            None => {
                return Err(make_error(ErrorKind::AdminCommand, "Bot not found"));
            },
            Some(b) => str_eq(b.owner_id.as_str(), requester) || requester_is_admin,
        };
        if !allowed {
            return Err(make_error(ErrorKind::AdminCommand, "Permission denied"));
        }
        let ghost old_registry = self.bot_registry@;
        self.bot_registry.remove(bot_id);
        proof {
            assert forall|k: Seq<char>| #[trigger] self.bot_registry@.contains_key(k) implies self.bot_registry@[k].bot_id@ == k by {
                assert(old_registry.contains_key(k));
            }
        }
        self.rate_limit_state.remove(bot_id);
        self.performance_metrics.remove(bot_id);
        self.log_bot_activity(
            BotActivity {
                bot_id: String::from_str(bot_id),
                activity_type: String::from_str("UNREGISTRATION"),
                room_id: None,
                user_id: Some(String::from_str(requester)),
                details: String::from_str("Bot unregistered"),
                timestamp_ms: now,
                ip_address: None,
            },
        );
        Ok(())
    }

    /// Sets the status of the `i`-th bot and records the change in its log.
    fn set_status_at(&mut self, i: usize, status: BotStatus, requester: &str, now: u64)
        requires
            old(self).wf(),
            i < old(self).bot_entries().len(),
        ensures
            final(self).wf(),
            final(self).bot_entries().len() == old(self).bot_entries().len(),
            forall|j: int| 0 <= j < old(self).bot_entries().len() && j != i ==> #[trigger] final(self).bot_entries()[j]
                == old(self).bot_entries()[j],
            final(self).bot_entries()[i as int].0 == old(self).bot_entries()[i as int].0,
            final(self).bot_entries()[i as int].1.status == status,
            same_but_status(final(self).bot_entries()[i as int].1, old(self).bot_entries()[i as int].1),
            final(self).bots() == old(self).bots().insert(old(self).bot_entries()[i as int].0@, final(self).bot_entries()[i as int].1),
            final(self).windows() == old(self).windows(),
            final(self).performance() == old(self).performance(),
    {
        let current = self.bot_registry.value_at_index(i);
        let id = current.bot_id.clone();
        let old_text = status_name_text(&current.status);
        let new_text = status_name_text(&status);
        let mut updated = copy_registration(current);
        updated.status = status;
        proof {
            self.bot_registry.lemma_entry_in_map(i as int);
        }
        let ghost old_registry = self.bot_registry@;
        self.bot_registry.set_value_at_index(i, updated);
        proof {
            assert forall|k: Seq<char>| #[trigger] self.bot_registry@.contains_key(k) implies self.bot_registry@[k].bot_id@ == k by {
                assert(old_registry.contains_key(k));
            }
        }
        let mut details = String::from_str("Status changed from ");
        details.append(old_text);
        details.append(" to ");
        details.append(new_text);
        self.log_bot_activity(
            BotActivity {
                bot_id: id,
                activity_type: String::from_str("STATUS_UPDATE"),
                room_id: None,
                user_id: Some(String::from_str(requester)),
                details,
                timestamp_ms: now,
                ip_address: None,
            },
        );
    }

    /// Changes the status of a bot at `now`; only its owner or a server
    /// admin may.
    pub fn update_bot_status(
        &mut self,
        bot_id: &str,
        status: BotStatus,
        requester: &str,
        requester_is_admin: bool,
        now: u64,
    ) -> (r: Result<(), ServiceError>)
        requires
            old(self).wf(),
        ensures
            final(self).wf(),
            final(self).windows() == old(self).windows(),
            final(self).performance() == old(self).performance(),
            !old(self).bots().contains_key(bot_id@) ==> (r matches Err(e) && is_error(e, ErrorKind::AdminCommand, "Bot not found"@))
                && *final(self) == *old(self),
            old(self).bots().contains_key(bot_id@) && !may_change(old(self).bots()[bot_id@], requester@, requester_is_admin) ==> (
            r matches Err(e) && is_error(e, ErrorKind::AdminCommand, "Permission denied"@)) && *final(self) == *old(self),
            old(self).bots().contains_key(bot_id@) && may_change(old(self).bots()[bot_id@], requester@, requester_is_admin) ==> {
                &&& r is Ok
                &&& final(self).bots() == old(self).bots().insert(bot_id@, final(self).bots()[bot_id@])
                &&& final(self).bots()[bot_id@].status == status
                &&& same_but_status(final(self).bots()[bot_id@], old(self).bots()[bot_id@])
            },
    {
        let i = match self.bot_registry.index_of(bot_id) {
            None => {
                return Err(make_error(ErrorKind::AdminCommand, "Bot not found"));
            },
            Some(i) => i,
        };
        let allowed = str_eq(self.bot_registry.value_at_index(i).owner_id.as_str(), requester) || requester_is_admin;
        if !allowed {
            return Err(make_error(ErrorKind::AdminCommand, "Permission denied"));
        }
        self.set_status_at(i, status, requester, now);
        Ok(())
    }

    /// The registration of a bot.
    pub fn get_bot_registration(&self, bot_id: &str) -> (r: Option<BotRegistration>)
        requires
            self.wf(),
        ensures
            !self.bots().contains_key(bot_id@) ==> r is None,
            self.bots().contains_key(bot_id@) ==> (r matches Some(b) && same_registration(b, self.bots()[bot_id@])),
    {
        match self.bot_registry.get(bot_id) {
            Some(b) => Some(copy_registration(b)),
            None => None,
        }
    }

    /// Every registration, in the order they are kept.
    pub fn list_bots(&self) -> (r: Vec<BotRegistration>)
        requires
            self.wf(),
        ensures
            r@.len() == self.bot_entries().len(),
            forall|i: int| 0 <= i < r@.len() ==> same_registration(#[trigger] r@[i], self.bot_entries()[i].1),
    {
        let n = self.bot_registry.len();
        let mut out: Vec<BotRegistration> = Vec::new();
        let mut i: usize = 0;
        while i < n
            invariant
                n == self.bot_registry.spec_len(),
                i <= n,
                out@.len() == i,
                forall|k: int| 0 <= k < i ==> same_registration(#[trigger] out@[k], self.bot_registry.entries_seq()[k].1),
            decreases n - i,
        {
            out.push(copy_registration(self.bot_registry.value_at_index(i)));
            i = i + 1;
        }
        out
    }

    /// The registrations owned by `user`, in the order they are kept.
    pub fn list_user_bots(&self, user: &str) -> (r: Vec<BotRegistration>)
        requires
            self.wf(),
        ensures
            r@.len() == owned_by(self.bot_entries(), user@).len(),
            forall|i: int| 0 <= i < r@.len() ==> same_registration(#[trigger] r@[i], owned_by(self.bot_entries(), user@)[i]),
    {
        let n = self.bot_registry.len();
        let ghost s = self.bot_entries();
        let mut out: Vec<BotRegistration> = Vec::new();
        let mut i: usize = 0;
        while i < n
            invariant
                n == self.bot_registry.spec_len(),
                s == self.bot_entries(),
                s == self.bot_registry.entries_seq(),
                i <= n,
                out@.len() == owned_by(s.subrange(0, i as int), user@).len(),
                forall|k: int| 0 <= k < out@.len() ==> same_registration(#[trigger] out@[k], owned_by(s.subrange(0, i as int), user@)[k]),
            decreases n - i,
        {
            proof {
                assert(s.subrange(0, i + 1).drop_last() =~= s.subrange(0, i as int));
            }
            let b = self.bot_registry.value_at_index(i);
            if str_eq(b.owner_id.as_str(), user) {
                out.push(copy_registration(b));
            }
            i = i + 1;
        }
        proof {
            assert(s.subrange(0, n as int) =~= s);
        }
        out
    }

    /// Whether `user_id` is the sender of the application service of some
    /// bot: `@`, the service's sender localpart (`sender_localparts`, by
    /// application service), `:` and the server name.
    pub fn is_bot(&self, user_id: &str, sender_localparts: &StrMap<String>, server_name: &str) -> (r: bool)
        requires
            self.wf(),
            sender_localparts.wf(),
        ensures
            r == exists|i: int| 0 <= i < self.bot_entries().len() && #[trigger] sender_of(
                self.bot_entries()[i].1,
                sender_localparts@,
                user_id@,
                server_name@,
            ),
    {
        let n = self.bot_registry.len();
        let mut i: usize = 0;
        while i < n
            invariant
                n == self.bot_registry.spec_len(),
                sender_localparts.wf(),
                i <= n,
                forall|j: int| 0 <= j < i ==> !#[trigger] sender_of(
                    self.bot_registry.entries_seq()[j].1,
                    sender_localparts@,
                    user_id@,
                    server_name@,
                ),
            decreases n - i,
        {
            match &self.bot_registry.value_at_index(i).appservice_id {
                Some(a) => match sender_localparts.get(a.as_str()) {
                    Some(localpart) => {
                        let mut expected = String::from_str("@");
                        expected.append(localpart.as_str());
                        expected.append(":");
                        expected.append(server_name);
                        if str_eq(expected.as_str(), user_id) {
                            assert(sender_of(self.bot_entries()[i as int].1, sender_localparts@, user_id@, server_name@));
                            return true;
                        }
                    },
                    None => {},
                },
                None => {},
            }
            i = i + 1;
        }
        false
    }

    /// Counts operation `op` of an active bot at `now` against its rate
    /// limits (see `rate_step`) and says whether it is allowed; bots that
    /// are not active are refused outright. More than ten violations
    /// suspend the bot, as the server user (`server_user`) would.
    pub fn check_rate_limit(
        &mut self,
        bot_id: &str,
        op: &str,
        now: u64,
        server_user: &str,
        server_user_is_admin: bool,
    ) -> (r: Result<bool, ServiceError>)
        requires
            old(self).wf(),
        ensures
            final(self).wf(),
            !old(self).bots().contains_key(bot_id@) ==> (r matches Err(e) && is_error(e, ErrorKind::AdminCommand, "Bot not found"@))
                && *final(self) == *old(self),
            old(self).bots().contains_key(bot_id@) && !(old(self).bots()[bot_id@].status is Active) ==> r == Ok::<bool, ServiceError>(false)
                && *final(self) == *old(self),
            old(self).bots().contains_key(bot_id@) && old(self).bots()[bot_id@].status is Active ==> {
                let b = old(self).bots()[bot_id@];
                let w = if old(self).windows().contains_key(bot_id@) { old(self).windows()[bot_id@] } else { fresh_window(now) };
                let (w2, allowed) = rate_step(w, b.rate_limits, op@, now);
                let suspend = !allowed && w2.violations > 10;
                &&& final(self).windows() == old(self).windows().insert(bot_id@, w2)
                &&& final(self).performance() == old(self).performance()
                &&& !suspend ==> r == Ok::<bool, ServiceError>(allowed) && final(self).bots() == old(self).bots()
                &&& suspend && !may_change(b, server_user@, server_user_is_admin) ==> (r matches Err(e) && is_error(
                    e,
                    ErrorKind::AdminCommand,
                    "Permission denied"@,
                )) && final(self).bots() == old(self).bots()
                &&& suspend && may_change(b, server_user@, server_user_is_admin) ==> {
                    &&& r == Ok::<bool, ServiceError>(false)
                    &&& final(self).bots() == old(self).bots().insert(bot_id@, final(self).bots()[bot_id@])
                    &&& final(self).bots()[bot_id@].status matches BotStatus::Suspended { reason } && reason@
                        == "Excessive rate limit violations"@
                    &&& same_but_status(final(self).bots()[bot_id@], b)
                }
            },
    {
        let (active, limits) = match self.bot_registry.get(bot_id) {
            None => {
                return Err(make_error(ErrorKind::AdminCommand, "Bot not found"));
            },
            Some(b) => (
                match &b.status {
                    BotStatus::Active => true,
                    _ => false,
                },
                b.rate_limits,
            ),
        };
        if !active {
            return Ok(false);
        }
        let mut w = match self.rate_limit_state.get(bot_id) {
            Some(w) => *w,
            None => RateLimitState { message_count: 0, api_request_count: 0, room_join_count: 0, last_reset_ms: now, violations: 0 },
        };
        if now >= w.last_reset_ms && now - w.last_reset_ms >= 60000 {
            w.message_count = 0;
            w.api_request_count = 0;
            w.room_join_count = 0;
            w.last_reset_ms = now;
        }
        proof {
            reveal_strlit("message");
            reveal_strlit("api_request");
            reveal_strlit("room_join");
        }
        let allowed = if str_eq(op, "message") {
            w.message_count = bump32(w.message_count);
            w.message_count <= limits.messages_per_minute
        } else if str_eq(op, "api_request") {
            w.api_request_count = bump32(w.api_request_count);
            w.api_request_count <= limits.api_requests_per_minute
        } else if str_eq(op, "room_join") {
            w.room_join_count = bump32(w.room_join_count);
            w.room_join_count <= limits.room_joins_per_hour
        } else {
            true
        };
        if !allowed {
            w.violations = bump32(w.violations);
        }
        let violations = w.violations;
        self.rate_limit_state.insert(bot_id, w);
        if !allowed && violations > 10 {
            match self.update_bot_status(
                bot_id,
                BotStatus::Suspended { reason: String::from_str("Excessive rate limit violations") },
                server_user,
                server_user_is_admin,
                now,
            ) {
                Err(e) => {
                    return Err(e);
                },
                Ok(()) => {},
            }
        }
        Ok(allowed)
    }

    /// Records operation `op` of `bot_id` at `now`, taking
    /// `response_time_ms`, in its performance record and its counters.
    pub fn update_bot_metrics(&mut self, bot_id: &str, op: &str, response_time_ms: u64, success: bool, now: u64) -> (r: Result<
        (),
        ServiceError,
    >)
        requires
            old(self).wf(),
        ensures
            final(self).wf(),
            r is Ok,
            final(self).windows() == old(self).windows(),
            ({
                let p = if old(self).performance().contains_key(bot_id@) {
                    old(self).performance()[bot_id@]
                } else {
                    PerformanceMetrics { total_operations: 0, total_response_time_ms: 0, error_count: 0, last_activity_ms: now }
                };
                final(self).performance() == old(self).performance().insert(
                    bot_id@,
                    PerformanceMetrics {
                        total_operations: inc64(p.total_operations),
                        total_response_time_ms: crate::counters::add64(p.total_response_time_ms, response_time_ms),
                        error_count: if success { p.error_count } else { inc32(p.error_count) },
                        last_activity_ms: now,
                    },
                )
            }),
            !old(self).bots().contains_key(bot_id@) ==> final(self).bots() == old(self).bots(),
            old(self).bots().contains_key(bot_id@) ==> {
                let b = old(self).bots()[bot_id@];
                let b2 = final(self).bots()[bot_id@];
                &&& final(self).bots() == old(self).bots().insert(bot_id@, b2)
                &&& same_registration(b2, BotRegistration {
                    last_active_ms: Some(now),
                    metrics: BotMetrics {
                        messages_sent: if op@ == "message"@ { inc64(b.metrics.messages_sent) } else { b.metrics.messages_sent },
                        api_requests: if op@ == "api_request"@ { inc64(b.metrics.api_requests) } else { b.metrics.api_requests },
                        errors_24h: if success { b.metrics.errors_24h } else { inc32(b.metrics.errors_24h) },
                        ..b.metrics
                    },
                    ..b
                })
            },
    {
        let mut p = match self.performance_metrics.get(bot_id) {
            Some(p) => *p,
            None => PerformanceMetrics { total_operations: 0, total_response_time_ms: 0, error_count: 0, last_activity_ms: now },
        };
        p.total_operations = bump64(p.total_operations);
        p.total_response_time_ms = crate::counters::sum64(p.total_response_time_ms, response_time_ms);
        p.last_activity_ms = now;
        if !success {
            p.error_count = bump32(p.error_count);
        }
        self.performance_metrics.insert(bot_id, p);
        proof {
            reveal_strlit("message");
            reveal_strlit("api_request");
            assert("message"@.len() != "api_request"@.len());
        }
        match self.bot_registry.index_of(bot_id) {
            None => {},
            Some(i) => {
                let mut b = copy_registration(self.bot_registry.value_at_index(i));
                b.last_active_ms = Some(now);
                if str_eq(op, "message") {
                    b.metrics.messages_sent = bump64(b.metrics.messages_sent);
                } else if str_eq(op, "api_request") {
                    b.metrics.api_requests = bump64(b.metrics.api_requests);
                }
                if !success {
                    b.metrics.errors_24h = bump32(b.metrics.errors_24h);
                }
                let ghost old_registry = self.bot_registry@;
                self.bot_registry.set_value_at_index(i, b);
                proof {
                    assert forall|k: Seq<char>| #[trigger] self.bot_registry@.contains_key(k) implies self.bot_registry@[k].bot_id@ == k by {
                        assert(old_registry.contains_key(k));
                    }
                }
            },
        }
        Ok(())
    }

    /// Suspends, at `now`, every bot inactive longer than its limit (as its
    /// owner would, recording it in its log); returns how many.
    pub fn cleanup_inactive_bots(&mut self, now: u64) -> (count: u32)
        requires
            old(self).wf(),
            old(self).bot_entries().len() <= u32::MAX,
        ensures
            final(self).wf(),
            final(self).windows() == old(self).windows(),
            final(self).performance() == old(self).performance(),
            count == count_inactive(old(self).bot_entries(), now),
            final(self).bots().dom() == old(self).bots().dom(),
            forall|k: Seq<char>| #[trigger] old(self).bots().contains_key(k) ==> {
                let b = old(self).bots()[k];
                let b2 = final(self).bots()[k];
                if inactive(b, now) {
                    &&& b2.status matches BotStatus::Suspended { reason } && reason@ == "Inactive for too long"@
                    &&& same_but_status(b2, b)
                } else {
                    b2 == b
                }
            },
    {
        let ghost s0 = self.bot_registry.entries_seq();
        let n = self.bot_registry.len();
        let mut count: u32 = 0;
        let mut i: usize = 0;
        while i < n
            invariant
                n == s0.len(),
                n <= u32::MAX,
                self.wf(),
                i <= n,
                self.bot_registry.entries_seq().len() == n,
                count == count_inactive(s0.subrange(0, i as int), now),
                count <= i,
                self.windows() == old(self).windows(),
                self.performance() == old(self).performance(),
                forall|j: int| 0 <= j < n ==> (#[trigger] self.bot_registry.entries_seq()[j]).0 == s0[j].0,
                forall|j: int| i <= j < n ==> (#[trigger] self.bot_registry.entries_seq()[j]).1 == s0[j].1,
                forall|j: int| 0 <= j < i ==> {
                    let b = s0[j].1;
                    let b2 = (#[trigger] self.bot_registry.entries_seq()[j]).1;
                    if inactive(b, now) {
                        &&& b2.status matches BotStatus::Suspended { reason } && reason@ == "Inactive for too long"@
                        &&& same_but_status(b2, b)
                    } else {
                        b2 == b
                    }
                },
            decreases n - i,
        {
            proof {
                let t = s0.subrange(0, i + 1);
                assert(t.drop_last() =~= s0.subrange(0, i as int));
            }
            let b = self.bot_registry.value_at_index(i);
            let is_inactive = match (b.security.max_inactivity_days, b.last_active_ms) {
                (Some(d), Some(t)) => now > t && now - t > (d as u64) * 86400000,
                _ => false,
            };
            if is_inactive {
                let owner = b.owner_id.clone();
                self.set_status_at(i, BotStatus::Suspended { reason: String::from_str("Inactive for too long") }, owner.as_str(), now);
                count = count + 1;
            }
            i = i + 1;
        }
        assert(s0.subrange(0, n as int) =~= s0);
        proof {
            assert forall|k: Seq<char>| #[trigger] self.bot_registry@.contains_key(k) <==> old(self).bot_registry@.contains_key(k) by {
                if self.bot_registry@.contains_key(k) {
                    let j = self.bot_registry.lemma_key_has_entry(k);
                    old(self).bot_registry.lemma_entry_in_map(j);
                }
                if old(self).bot_registry@.contains_key(k) {
                    let j = old(self).bot_registry.lemma_key_has_entry(k);
                    self.bot_registry.lemma_entry_in_map(j);
                }
            }
            assert(self.bot_registry@.dom() =~= old(self).bot_registry@.dom());
            assert forall|k: Seq<char>| #[trigger] old(self).bot_registry@.contains_key(k) implies {
                let b = old(self).bot_registry@[k];
                let b2 = self.bot_registry@[k];
                if inactive(b, now) {
                    &&& b2.status matches BotStatus::Suspended { reason } && reason@ == "Inactive for too long"@
                    &&& same_but_status(b2, b)
                } else {
                    b2 == b
                }
            } by {
                let j = old(self).bot_registry.lemma_key_has_entry(k);
                old(self).bot_registry.lemma_entry_in_map(j);
                self.bot_registry.lemma_entry_in_map(j);
            }
        }
        count
    }

    /// Bot statistics: totals by status, how many bots of each kind, and the
    /// summed message and API request counters.
    pub fn get_statistics(&self) -> (st: BotManagementStats)
        requires
            self.wf(),
        ensures
            st.total_bots == self.bot_entries().len(),
            st.active_bots == count_status(self.bot_entries(), |s: BotStatus| s is Active),
            st.suspended_bots == count_status(self.bot_entries(), |s: BotStatus| s is Suspended),
            st.banned_bots == count_status(self.bot_entries(), |s: BotStatus| s is Banned),
            st.total_messages == metric_sum(self.bot_entries(), false),
            st.total_api_requests == metric_sum(self.bot_entries(), true),
            st.type_distribution.wf(),
    {
        let ghost s = self.bot_registry.entries_seq();
        let ghost pa = |x: BotStatus| x is Active;
        let ghost ps = |x: BotStatus| x is Suspended;
        let ghost pb = |x: BotStatus| x is Banned;
        let n = self.bot_registry.len();
        let mut active: usize = 0;
        let mut suspended: usize = 0;
        let mut banned: usize = 0;
        let mut messages: u64 = 0;
        let mut requests: u64 = 0;
        let mut types: StrMap<u32> = StrMap::new();
        let mut i: usize = 0;
        while i < n
            invariant
                n == s.len(),
                s == self.bot_registry.entries_seq(),
                pa == (|x: BotStatus| x is Active),
                ps == (|x: BotStatus| x is Suspended),
                pb == (|x: BotStatus| x is Banned),
                i <= n,
                active == count_status(s.subrange(0, i as int), pa),
                suspended == count_status(s.subrange(0, i as int), ps),
                banned == count_status(s.subrange(0, i as int), pb),
                active <= i && suspended <= i && banned <= i,
                messages == metric_sum(s.subrange(0, i as int), false),
                requests == metric_sum(s.subrange(0, i as int), true),
                types.wf(),
            decreases n - i,
        {
            proof {
                let t = s.subrange(0, i + 1);
                assert(t.drop_last() =~= s.subrange(0, i as int));
            }
            let b = self.bot_registry.value_at_index(i);
            match &b.status {
                BotStatus::Active => {
                    active = active + 1;
                },
                BotStatus::Suspended { .. } => {
                    suspended = suspended + 1;
                },
                BotStatus::Banned { .. } => {
                    banned = banned + 1;
                },
                _ => {},
            }
            messages = crate::counters::sum64(messages, b.metrics.messages_sent);
            requests = crate::counters::sum64(requests, b.metrics.api_requests);
            let name = bot_type_name(&b.bot_type);
            let current = match types.get(name.as_str()) {
                Some(c) => *c,
                None => 0,
            };
            types.insert(name.as_str(), bump32(current));
            i = i + 1;
        }
        assert(s.subrange(0, n as int) =~= s);
        BotManagementStats {
            total_bots: n,
            active_bots: active,
            suspended_bots: suspended,
            banned_bots: banned,
            type_distribution: types,
            total_messages: messages,
            total_api_requests: requests,
        }
    }
}

} // verus!
