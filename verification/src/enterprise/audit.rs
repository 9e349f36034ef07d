//! Tamper-evident audit logging: a hash-chained log of security and
//! compliance events, queries over it, and compliance reports.
use vstd::prelude::*;
use vstd::string::*;
use vstd::utf8::*;

use crate::enterprise::ComplianceMode;
use crate::error::{ErrorKind, ServiceError, is_error, make_error};
use crate::external::{spec_sha256, spec_base64, sha256, base64_encode, new_uuid_v4, rfc3339_seconds, spec_rfc3339_seconds};
use crate::strmap::StrMap;
use crate::text::{decimal, u64_to_decimal, str_eq};

verus! {

/// An auditable event. Times are milliseconds since the Unix epoch; a risk
/// score is given in thousandths, rounded up (a score of 0.8 is 800, one
/// just above 0.8 is 801), so a score is above a threshold exactly when its
/// thousandths are above the threshold's.
#[derive(Debug)]
#[allow(inconsistent_fields)]
pub enum AuditEvent {
    ServiceStartup { service: String, timestamp: u64 },
    ServiceShutdown { service: String, timestamp: u64 },
    AuthenticationAttempt { session_id: String, method: String, client_ip: Option<String>, timestamp: u64 },
    AuthenticationSuccess { session_id: String, user_id: String, timestamp: u64 },
    AuthenticationFailure { session_id: String, reason: String, client_ip: Option<String>, timestamp: u64 },
    SessionCreated { session_id: String, user_id: String, client_ip: Option<String>, timestamp: u64 },
    SessionExpired { session_id: String, user_id: String, timestamp: u64 },
    SessionCleanup { session_id: String, user_id: String, timestamp: u64 },
    UserCreated { user_id: String, created_by: Option<String>, timestamp: u64 },
    UserDeactivated { user_id: String, deactivated_by: Option<String>, reason: Option<String>, timestamp: u64 },
    UserReactivated { user_id: String, reactivated_by: String, timestamp: u64 },
    UserProfileUpdated { user_id: String, updated_by: String, fields_changed: Vec<String>, timestamp: u64 },
    RoomCreated { room_id: String, created_by: String, room_type: Option<String>, timestamp: u64 },
    RoomDeleted { room_id: String, deleted_by: String, reason: Option<String>, timestamp: u64 },
    RoomMembershipChanged { room_id: String, user_id: String, membership: String, changed_by: String, timestamp: u64 },
    RoomSettingsChanged { room_id: String, changed_by: String, settings_changed: Vec<String>, timestamp: u64 },
    DataAccessed { resource_type: String, resource_id: String, accessed_by: String, access_type: String, timestamp: u64 },
    DataModified { resource_type: String, resource_id: String, modified_by: String, operation: String, timestamp: u64 },
    DataExported { resource_type: String, exported_by: String, export_format: String, record_count: usize, timestamp: u64 },
    AdminActionPerformed { action: String, performed_by: String, target: Option<String>, parameters: Vec<(String, String)>, timestamp: u64 },
    ConfigurationChanged { component: String, changed_by: String, changes: Vec<(String, String)>, timestamp: u64 },
    SecurityViolation { violation_type: String, user_id: Option<String>, client_ip: Option<String>, details: String, timestamp: u64 },
    SuspiciousActivity { activity_type: String, user_id: Option<String>, client_ip: Option<String>, risk_score_milli: u32, timestamp: u64 },
    AccessDenied { resource: String, user_id: String, reason: String, timestamp: u64 },
    ConsentGiven { user_id: String, consent_type: String, version: String, timestamp: u64 },
    ConsentWithdrawn { user_id: String, consent_type: String, timestamp: u64 },
    DataRetentionAction { action: String, resource_type: String, affected_records: usize, timestamp: u64 },
    PersonalDataRequest { request_type: String, user_id: String, requested_by: String, timestamp: u64 },
}

/// How serious an audit event is.
#[derive(Debug, Clone, Copy, PartialEq, Eq, Structural)]
pub enum AuditSeverity {
    Info,
    Warning,
    Error,
    Critical,
}

/// Risk level of a compliance finding.
#[derive(Debug, Clone, Copy, PartialEq, Eq, Structural)]
pub enum RiskLevel {
    Low,
    Medium,
    High,
    Critical,
}

/// Kind of compliance report.
#[derive(Debug, Clone, Copy, PartialEq, Eq, Structural)]
pub enum ComplianceReportType {
    Gdpr,
    Hipaa,
    Sox,
    Security,
    AccessControl,
    DataRetention,
}

/// Export format of the audit log.
#[derive(Debug, Clone, Copy, PartialEq, Eq, Structural)]
pub enum ExportFormat {
    Json,
    Csv,
    Xml,
}

/// The severity an event is logged with: security violations and very
/// suspicious activity (risk above 0.8) are critical; authentication
/// failures, denied access, deactivations and suspicious activity with risk
/// above 0.5 are warnings; everything else is informational.
pub open spec fn severity_of(e: AuditEvent) -> AuditSeverity {
    match e {
        AuditEvent::SecurityViolation { .. } => AuditSeverity::Critical,
        AuditEvent::SuspiciousActivity { risk_score_milli, .. } => {
            if risk_score_milli > 800 {
                AuditSeverity::Critical
            } else if risk_score_milli > 500 {
                AuditSeverity::Warning
            } else {
                AuditSeverity::Info
            }
        },
        AuditEvent::AuthenticationFailure { .. } => AuditSeverity::Warning,
        AuditEvent::AccessDenied { .. } => AuditSeverity::Warning,
        AuditEvent::UserDeactivated { .. } => AuditSeverity::Warning,
        _ => AuditSeverity::Info,
    }
}

/// Position of the event's variant in the declaration of `AuditEvent`.
pub open spec fn variant_index(e: AuditEvent) -> nat {
    match e {
        AuditEvent::ServiceStartup { .. } => 0,
        AuditEvent::ServiceShutdown { .. } => 1,
        AuditEvent::AuthenticationAttempt { .. } => 2,
        AuditEvent::AuthenticationSuccess { .. } => 3,
        AuditEvent::AuthenticationFailure { .. } => 4,
        AuditEvent::SessionCreated { .. } => 5,
        AuditEvent::SessionExpired { .. } => 6,
        AuditEvent::SessionCleanup { .. } => 7,
        AuditEvent::UserCreated { .. } => 8,
        AuditEvent::UserDeactivated { .. } => 9,
        AuditEvent::UserReactivated { .. } => 10,
        AuditEvent::UserProfileUpdated { .. } => 11,
        AuditEvent::RoomCreated { .. } => 12,
        AuditEvent::RoomDeleted { .. } => 13,
        AuditEvent::RoomMembershipChanged { .. } => 14,
        AuditEvent::RoomSettingsChanged { .. } => 15,
        AuditEvent::DataAccessed { .. } => 16,
        AuditEvent::DataModified { .. } => 17,
        AuditEvent::DataExported { .. } => 18,
        AuditEvent::AdminActionPerformed { .. } => 19,
        AuditEvent::ConfigurationChanged { .. } => 20,
        AuditEvent::SecurityViolation { .. } => 21,
        AuditEvent::SuspiciousActivity { .. } => 22,
        AuditEvent::AccessDenied { .. } => 23,
        AuditEvent::ConsentGiven { .. } => 24,
        AuditEvent::ConsentWithdrawn { .. } => 25,
        AuditEvent::DataRetentionAction { .. } => 26,
        AuditEvent::PersonalDataRequest { .. } => 27,
    }
}

/// The event-type name used in queries and reports: `Discriminant(i)`.
pub open spec fn event_type_text(e: AuditEvent) -> Seq<char> {
    "Discriminant("@ + decimal(variant_index(e)) + ")"@
}

/// The user an event concerns, where it names one.
pub open spec fn event_user(e: AuditEvent) -> Option<Seq<char>> {
    match e {
        AuditEvent::AuthenticationSuccess { user_id, .. } => Some(user_id@),
        AuditEvent::SessionCreated { user_id, .. } => Some(user_id@),
        AuditEvent::SessionExpired { user_id, .. } => Some(user_id@),
        AuditEvent::UserCreated { user_id, .. } => Some(user_id@),
        AuditEvent::UserDeactivated { user_id, .. } => Some(user_id@),
        AuditEvent::UserProfileUpdated { user_id, .. } => Some(user_id@),
        AuditEvent::RoomMembershipChanged { user_id, .. } => Some(user_id@),
        AuditEvent::AccessDenied { user_id, .. } => Some(user_id@),
        AuditEvent::ConsentGiven { user_id, .. } => Some(user_id@),
        AuditEvent::ConsentWithdrawn { user_id, .. } => Some(user_id@),
        AuditEvent::PersonalDataRequest { user_id, .. } => Some(user_id@),
        AuditEvent::SecurityViolation { user_id: Some(u), .. } => Some(u@),
        AuditEvent::SuspiciousActivity { user_id: Some(u), .. } => Some(u@),
        _ => None,
    }
}

/// Whether `e` concerns user `user_id`.
pub open spec fn involves_user(e: AuditEvent, user_id: Seq<char>) -> bool {
    event_user(e) == Some(user_id)
}

impl AuditEvent {
    /// The severity the event is logged with.
    pub fn determine_severity(&self) -> (s: AuditSeverity)
        ensures
            s == severity_of(*self),
    {
        match self {
            AuditEvent::SecurityViolation { .. } => AuditSeverity::Critical,
            AuditEvent::SuspiciousActivity { risk_score_milli, .. } => {
                if *risk_score_milli > 800 {
                    AuditSeverity::Critical
                } else if *risk_score_milli > 500 {
                    AuditSeverity::Warning
                } else {
                    AuditSeverity::Info
                }
            },
            AuditEvent::AuthenticationFailure { .. } => AuditSeverity::Warning,
            AuditEvent::AccessDenied { .. } => AuditSeverity::Warning,
            AuditEvent::UserDeactivated { .. } => AuditSeverity::Warning,
            _ => AuditSeverity::Info,
        }
    }

    /// Position of the variant in the declaration.
    pub fn variant_number(&self) -> (n: u64)
        ensures
            n == variant_index(*self),
    {
        match self {
            AuditEvent::ServiceStartup { .. } => 0,
            AuditEvent::ServiceShutdown { .. } => 1,
            AuditEvent::AuthenticationAttempt { .. } => 2,
            AuditEvent::AuthenticationSuccess { .. } => 3,
            AuditEvent::AuthenticationFailure { .. } => 4,
            AuditEvent::SessionCreated { .. } => 5,
            AuditEvent::SessionExpired { .. } => 6,
            AuditEvent::SessionCleanup { .. } => 7,
            AuditEvent::UserCreated { .. } => 8,
            AuditEvent::UserDeactivated { .. } => 9,
            AuditEvent::UserReactivated { .. } => 10,
            AuditEvent::UserProfileUpdated { .. } => 11,
            AuditEvent::RoomCreated { .. } => 12,
            AuditEvent::RoomDeleted { .. } => 13,
            AuditEvent::RoomMembershipChanged { .. } => 14,
            AuditEvent::RoomSettingsChanged { .. } => 15,
            AuditEvent::DataAccessed { .. } => 16,
            AuditEvent::DataModified { .. } => 17,
            AuditEvent::DataExported { .. } => 18,
            AuditEvent::AdminActionPerformed { .. } => 19,
            AuditEvent::ConfigurationChanged { .. } => 20,
            AuditEvent::SecurityViolation { .. } => 21,
            AuditEvent::SuspiciousActivity { .. } => 22,
            AuditEvent::AccessDenied { .. } => 23,
            AuditEvent::ConsentGiven { .. } => 24,
            AuditEvent::ConsentWithdrawn { .. } => 25,
            AuditEvent::DataRetentionAction { .. } => 26,
            AuditEvent::PersonalDataRequest { .. } => 27,
        }
    }

    /// The event-type name, `Discriminant(i)`.
    pub fn event_type_name(&self) -> (s: String)
        ensures
            s@ == event_type_text(*self),
    {
        let mut s = String::from_str("Discriminant(");
        let n = u64_to_decimal(self.variant_number());
        s.append(n.as_str());
        s.append(")");
        s
    }

    /// The user the event concerns, where it names one.
    pub fn user(&self) -> (u: Option<&String>)
        ensures
            match u {
                Some(s) => event_user(*self) == Some(s@),
                None => event_user(*self) is None,
            },
    {
        match self {
            AuditEvent::AuthenticationSuccess { user_id, .. } => Some(user_id),
            AuditEvent::SessionCreated { user_id, .. } => Some(user_id),
            AuditEvent::SessionExpired { user_id, .. } => Some(user_id),
            AuditEvent::UserCreated { user_id, .. } => Some(user_id),
            AuditEvent::UserDeactivated { user_id, .. } => Some(user_id),
            AuditEvent::UserProfileUpdated { user_id, .. } => Some(user_id),
            AuditEvent::RoomMembershipChanged { user_id, .. } => Some(user_id),
            AuditEvent::AccessDenied { user_id, .. } => Some(user_id),
            AuditEvent::ConsentGiven { user_id, .. } => Some(user_id),
            AuditEvent::ConsentWithdrawn { user_id, .. } => Some(user_id),
            AuditEvent::PersonalDataRequest { user_id, .. } => Some(user_id),
            AuditEvent::SecurityViolation { user_id: Some(u), .. } => Some(u),
            AuditEvent::SuspiciousActivity { user_id: Some(u), .. } => Some(u),
            _ => None,
        }
    }

    /// Whether the event concerns `user_id`.
    pub fn event_involves_user(&self, user_id: &str) -> (r: bool)
        ensures
            r == involves_user(*self, user_id@),
    {
        match self.user() {
            Some(u) => str_eq(u.as_str(), user_id),
            None => false,
        }
    }
}

/// One entry of the audit log. `event_json` is the event's JSON text, which
/// the integrity hash covers.
#[derive(Debug)]
pub struct AuditLogEntry {
    pub id: String,
    pub sequence: u64,
    pub event: AuditEvent,
    pub event_json: String,
    pub severity: AuditSeverity,
    pub source: String,
    pub timestamp_ms: u64,
    pub integrity_hash: String,
    pub previous_hash: Option<String>,
}

/// The name under which a severity enters the hash (`Info`, `Warning`, ...).
pub open spec fn severity_text(s: AuditSeverity) -> Seq<char> {
    match s {
        AuditSeverity::Info => "Info"@,
        AuditSeverity::Warning => "Warning"@,
        AuditSeverity::Error => "Error"@,
        AuditSeverity::Critical => "Critical"@,
    }
}

/// The `n` low bytes of `x`, least significant first.
pub open spec fn le_bytes_n(x: nat, n: nat) -> Seq<u8>
    decreases n,
{
    if n == 0 { Seq::empty() } else { seq![(x % 256) as u8] + le_bytes_n(x / 256, (n - 1) as nat) }
}

/// The little-endian bytes of a `u64` (`x.to_le_bytes()`).
pub open spec fn le_bytes(x: u64) -> Seq<u8> {
    le_bytes_n(x as nat, 8)
}

/// The bytes an entry's integrity hash is computed over: id, sequence
/// (little-endian), event JSON, severity name, source, timestamp in whole
/// seconds (little-endian) and, when there is one, the previous hash.
pub open spec fn hash_input(e: AuditLogEntry) -> Seq<u8> {
    encode_utf8(e.id@) + le_bytes(e.sequence) + encode_utf8(e.event_json@) + encode_utf8(severity_text(e.severity))
        + encode_utf8(e.source@) + le_bytes(e.timestamp_ms / 1000) + match e.previous_hash {
        Some(p) => encode_utf8(p@),
        None => Seq::empty(),
    }
}

/// The integrity hash of an entry: Base64 of the SHA-256 of `hash_input`.
pub open spec fn integrity_of(e: AuditLogEntry) -> Seq<char> {
    spec_base64(spec_sha256(hash_input(e)))
}

/// The hash chain holds over `entries`: each entry's hash is its integrity
/// hash, the first has no previous hash, and each later one names the hash
/// of the entry before it.
pub open spec fn chain_ok(entries: Seq<AuditLogEntry>) -> bool {
    forall|i: int| 0 <= i < entries.len() ==> #[trigger] link_ok(entries, i)
}

/// The hash chain holds at position `i`.
pub open spec fn link_ok(entries: Seq<AuditLogEntry>, i: int) -> bool {
    &&& entries[i].integrity_hash@ == integrity_of(entries[i])
    &&& if i == 0 {
        entries[i].previous_hash is None
    } else {
        entries[i].previous_hash matches Some(p) && p@ == entries[i - 1].integrity_hash@
    }
}

/// Position of the first entry at which the chain breaks, if any.
pub open spec fn first_break(entries: Seq<AuditLogEntry>, upto: int) -> bool {
    forall|i: int| 0 <= i < upto ==> #[trigger] link_ok(entries, i)
}

/// Search criteria over the audit log. Times are milliseconds since the epoch.
#[derive(Debug)]
pub struct AuditQuery {
    pub start_time_ms: Option<u64>,
    pub end_time_ms: Option<u64>,
    pub event_types: Option<Vec<String>>,
    pub user_id: Option<String>,
    pub source: Option<String>,
    pub severity: Option<AuditSeverity>,
    pub limit: Option<usize>,
    pub offset: Option<usize>,
}

/// Whether an entry meets every criterion of a query.
pub open spec fn matches_query(e: AuditLogEntry, q: AuditQuery) -> bool {
    &&& q.start_time_ms matches Some(s) ==> e.timestamp_ms >= s
    &&& q.end_time_ms matches Some(t) ==> e.timestamp_ms <= t
    &&& q.event_types matches Some(types) ==> string_views(types@).contains(event_type_text(e.event))
    &&& q.user_id matches Some(u) ==> involves_user(e.event, u@)
    &&& q.source matches Some(src) ==> e.source@ == src@
    &&& q.severity matches Some(sev) ==> e.severity == sev
}

/// The entries a query selects, before offset and limit.
pub open spec fn filtered(entries: Seq<AuditLogEntry>, q: AuditQuery) -> Seq<AuditLogEntry>
    decreases entries.len(),
{
    if entries.len() == 0 {
        Seq::empty()
    } else {
        let rest = filtered(entries.drop_last(), q);
        if matches_query(entries.last(), q) { rest.push(entries.last()) } else { rest }
    }
}

/// The result of a query: matching entries, then `offset` skipped (all of
/// them when it is not below their number), then cut to `limit`.
pub open spec fn query_result(entries: Seq<AuditLogEntry>, q: AuditQuery) -> Seq<AuditLogEntry> {
    let f = filtered(entries, q);
    let f2 = match q.offset {
        Some(off) => if off < f.len() { f.subrange(off as int, f.len() as int) } else { Seq::empty() },
        None => f,
    };
    match q.limit {
        Some(lim) => if lim < f2.len() { f2.subrange(0, lim as int) } else { f2 },
        None => f2,
    }
}

/// The texts of a sequence of strings.
pub open spec fn string_views(v: Seq<String>) -> Seq<Seq<char>> {
    v.map_values(|t: String| t@)
}

/// The entries a sequence of references points at.
pub open spec fn entry_values(s: Seq<&AuditLogEntry>) -> Seq<AuditLogEntry> {
    s.map_values(|e: &AuditLogEntry| *e)
}

/// The most entries the log keeps before it rotates.
pub const MAX_LOG_ENTRIES: usize = 1000000;

/// The most entries the log keeps before it rotates.
pub open spec fn max_log_entries() -> nat {
    MAX_LOG_ENTRIES as nat
}

/// How many entries rotation keeps (four fifths of the maximum).
pub open spec fn rotation_keep() -> nat {
    800000
}

/// Counts over a set of entries, for compliance reports.
#[derive(Debug)]
pub struct ComplianceCounts {
    pub total_events: usize,
    pub info_events: usize,
    pub warning_events: usize,
    pub error_events: usize,
    pub critical_events: usize,
    pub issues_found: usize,
    pub critical_issues: usize,
}

/// Number of entries with severity `s`.
pub open spec fn count_severity(entries: Seq<AuditLogEntry>, s: AuditSeverity) -> nat
    decreases entries.len(),
{
    if entries.len() == 0 {
        0
    } else {
        count_severity(entries.drop_last(), s) + if entries.last().severity == s { 1nat } else { 0nat }
    }
}

/// A compliance finding.
#[derive(Debug)]
pub struct ComplianceFinding {
    pub id: String,
    pub finding_type: String,
    pub severity: AuditSeverity,
    pub description: String,
    pub related_events: Vec<String>,
    pub risk_level: RiskLevel,
    pub recommendations: Vec<String>,
}

/// The entry records consent given by `user`.
pub open spec fn is_consent_by(e: AuditLogEntry, user: Seq<char>) -> bool {
    e.event matches AuditEvent::ConsentGiven { user_id, .. } && user_id@ == user
}

/// Whether some entry records consent given by `user`.
pub open spec fn consent_given_by(entries: Seq<AuditLogEntry>, user: Seq<char>) -> bool {
    exists|j: int| 0 <= j < entries.len() && #[trigger] is_consent_by(entries[j], user)
}

/// The entry records data access by someone who never gave consent in `entries`.
pub open spec fn unconsented_access(entries: Seq<AuditLogEntry>, e: AuditLogEntry) -> bool {
    e.event matches AuditEvent::DataAccessed { accessed_by, .. } && !consent_given_by(entries, accessed_by@)
}

/// Number of authentication failures among `entries`.
pub open spec fn count_auth_failures(entries: Seq<AuditLogEntry>) -> nat
    decreases entries.len(),
{
    if entries.len() == 0 {
        0
    } else {
        count_auth_failures(entries.drop_last()) + if entries.last().event is AuthenticationFailure { 1nat } else { 0nat }
    }
}

/// The ids of the entries of `s` that satisfy `p`, in order.
pub open spec fn flagged_ids(s: Seq<AuditLogEntry>, p: spec_fn(AuditLogEntry) -> bool) -> Seq<Seq<char>>
    decreases s.len(),
{
    if s.len() == 0 {
        Seq::empty()
    } else {
        let rest = flagged_ids(s.drop_last(), p);
        if p(s.last()) { rest.push(s.last().id@) } else { rest }
    }
}

/// A finding of the given type, severity, description, risk and
/// recommendations, about the events with ids `related`.
pub open spec fn finding_is(
    f: ComplianceFinding,
    finding_type: Seq<char>,
    severity: AuditSeverity,
    description: Seq<char>,
    related: Seq<Seq<char>>,
    risk: RiskLevel,
    recommendations: Seq<Seq<char>>,
) -> bool {
    &&& f.finding_type@ == finding_type
    &&& f.severity == severity
    &&& f.description@ == description
    &&& string_views(f.related_events@) == related
    &&& f.risk_level == risk
    &&& string_views(f.recommendations@) == recommendations
}

/// A finding about data accessed without the accessor's documented consent.
pub open spec fn gdpr_finding(f: ComplianceFinding, event_id: Seq<char>) -> bool {
    finding_is(
        f,
        "gdpr_data_access_without_consent"@,
        AuditSeverity::Warning,
        "Data accessed without documented user consent"@,
        seq![event_id],
        RiskLevel::Medium,
        seq!["Ensure user consent is obtained before data access"@, "Implement consent verification mechanisms"@],
    )
}

/// A finding about a high number of authentication failures.
pub open spec fn auth_failure_finding(f: ComplianceFinding, count: nat) -> bool {
    finding_is(
        f,
        "high_authentication_failure_rate"@,
        AuditSeverity::Warning,
        "High number of authentication failures: "@ + decimal(count),
        Seq::empty(),
        RiskLevel::Medium,
        seq!["Review authentication failure patterns"@, "Consider implementing additional security measures"@],
    )
}

/// A finding about a critical event.
pub open spec fn critical_finding(f: ComplianceFinding, event_id: Seq<char>) -> bool {
    finding_is(
        f,
        "critical_security_event"@,
        AuditSeverity::Critical,
        "Critical security event requiring immediate attention"@,
        seq![event_id],
        RiskLevel::Critical,
        seq!["Investigate critical security event immediately"@, "Review security policies and procedures"@],
    )
}

/// The findings a report of type `t` makes over `events`.
pub open spec fn findings_ok(fs: Seq<ComplianceFinding>, events: Seq<AuditLogEntry>, t: ComplianceReportType) -> bool {
    match t {
        ComplianceReportType::Gdpr => {
            let ids = flagged_ids(events, |e: AuditLogEntry| unconsented_access(events, e));
            fs.len() == ids.len() && forall|k: int| 0 <= k < fs.len() ==> #[trigger] gdpr_finding(fs[k], ids[k])
        },
        ComplianceReportType::Security => {
            let n = count_auth_failures(events);
            if n > 10 { fs.len() == 1 && auth_failure_finding(fs[0], n) } else { fs.len() == 0 }
        },
        _ => {
            let ids = flagged_ids(events, |e: AuditLogEntry| e.severity == AuditSeverity::Critical);
            fs.len() == ids.len() && forall|k: int| 0 <= k < fs.len() ==> #[trigger] critical_finding(fs[k], ids[k])
        },
    }
}

/// Number of critical findings.
pub open spec fn count_critical_findings(fs: Seq<ComplianceFinding>) -> nat
    decreases fs.len(),
{
    if fs.len() == 0 {
        0
    } else {
        count_critical_findings(fs.drop_last()) + if fs.last().severity == AuditSeverity::Critical { 1nat } else { 0nat }
    }
}

/// The recommendations of a report with `critical` critical findings.
pub open spec fn recommendations_for(critical: nat) -> Seq<Seq<char>> {
    let fixed = seq![
        "Implement regular compliance monitoring"@,
        "Review and update security policies"@,
        "Conduct security awareness training"@,
    ];
    if critical > 0 {
        seq!["Address "@ + decimal(critical) + " critical security findings immediately"@] + fixed
    } else {
        fixed
    }
}

/// A compliance report over a period (milliseconds since the epoch).
#[derive(Debug)]
pub struct ComplianceReport {
    pub id: String,
    pub report_type: ComplianceReportType,
    pub generated_at_ms: u64,
    pub period_start_ms: u64,
    pub period_end_ms: u64,
    pub summary: ComplianceCounts,
    pub findings: Vec<ComplianceFinding>,
    pub recommendations: Vec<String>,
}

/// The query that selects a report period.
pub open spec fn period_query(start: u64, end: u64) -> AuditQuery {
    AuditQuery {
        start_time_ms: Some(start),
        end_time_ms: Some(end),
        event_types: None,
        user_id: None,
        source: None,
        severity: None,
        limit: None,
        offset: None,
    }
}

/// A hash-chained, append-only audit log.
pub struct AuditLogger {
    enabled: bool,
    compliance_mode: ComplianceMode,
    log_entries: Vec<AuditLogEntry>,
    sequence_counter: u64,
    last_hash: Option<String>,
}

impl AuditLogger {
    /// The entries, oldest first.
    pub closed spec fn entries(&self) -> Seq<AuditLogEntry> {
        self.log_entries@
    }

    /// Whether logging is on.
    pub closed spec fn is_enabled(&self) -> bool {
        self.enabled
    }

    /// The last sequence number handed out.
    pub closed spec fn sequence(&self) -> u64 {
        self.sequence_counter
    }

    /// The hash the next entry will name as its previous hash.
    pub closed spec fn last_hash_view(&self) -> Option<Seq<char>> {
        match self.last_hash {
            Some(h) => Some(h@),
            None => None,
        }
    }

    /// The logger's counter and last hash are those of its last entry (zero
    /// and none while the log is empty), so that the next entry follows it.
    pub open spec fn linked(&self) -> bool {
        if self.entries().len() == 0 {
            self.sequence() == 0 && self.last_hash_view() is None
        } else {
            &&& self.sequence() == self.entries().last().sequence
            &&& self.last_hash_view() == Some(self.entries().last().integrity_hash@)
        }
    }

    /// The log is a valid chain whose last hash is the one the logger keeps.
    pub closed spec fn chain_state(&self) -> bool {
        &&& chain_ok(self.log_entries@)
        &&& if self.log_entries@.len() == 0 {
            self.last_hash is None
        } else {
            self.last_hash matches Some(h) && h@ == self.log_entries@.last().integrity_hash@
        }
    }

    /// The default alert thresholds: ten failed authentications an hour,
    /// five security violations a day, twenty admin actions an hour.
    pub fn default_alert_thresholds() -> (r: StrMap<u32>)
        ensures
            r.wf(),
            r@ == map![
                "failed_auth_per_hour"@ => 10u32,
                "security_violations_per_day"@ => 5u32,
                "admin_actions_per_hour"@ => 20u32,
            ],
    {
        let mut thresholds: StrMap<u32> = StrMap::new();
        thresholds.insert("failed_auth_per_hour", 10);
        thresholds.insert("security_violations_per_day", 5);
        thresholds.insert("admin_actions_per_hour", 20);
        proof {
            assert(thresholds@ =~= map![
                "failed_auth_per_hour"@ => 10u32,
                "security_violations_per_day"@ => 5u32,
                "admin_actions_per_hour"@ => 20u32,
            ]);
        }
        thresholds
    }

    /// A log whose hash chain is intact passes the integrity check. A new
    /// logger is intact, and logging keeps it intact as long as no entry is
    /// rotated out: the log of such a logger always verifies.
    pub proof fn lemma_intact_chain_verifies(&self)
        requires
            self.chain_state(),
        ensures
            chain_ok(self.entries()),
    {
    }

    /// A logger with an empty log; `enabled` says whether it records.
    pub fn new(enabled: bool, compliance_mode: ComplianceMode) -> (l: Self)
        ensures
            l.is_enabled() == enabled,
            l.entries() == Seq::<AuditLogEntry>::empty(),
            l.sequence() == 0,
            l.last_hash_view() is None,
            l.chain_state(),
            l.linked(),
    {
        let l = AuditLogger {
            enabled,
            compliance_mode,
            log_entries: Vec::new(),
            sequence_counter: 0,
            last_hash: None,
        };
        assert(chain_ok(l.log_entries@));
        l
    }

    /// Whether logging is on.
    pub fn enabled(&self) -> (b: bool)
        ensures
            b == self.is_enabled(),
    {
        self.enabled
    }

    /// The last sequence number handed out.
    pub fn sequence_counter(&self) -> (n: u64)
        ensures
            n == self.sequence(),
    {
        self.sequence_counter
    }

    /// Number of entries in the log.
    pub fn len(&self) -> (n: usize)
        ensures
            n == self.entries().len(),
    {
        self.log_entries.len()
    }

    /// Computes the integrity hash of an entry.
    pub fn calculate_integrity_hash(entry: &AuditLogEntry) -> (h: String)
        ensures
            h@ == integrity_of(*entry),
    {
        let mut data: Vec<u8> = entry.id.as_str().as_bytes_vec();
        let mut seq = le_bytes_vec(entry.sequence);
        data.append(&mut seq);
        let mut json = entry.event_json.as_str().as_bytes_vec();
        data.append(&mut json);
        let mut sev = severity_name(entry.severity).as_bytes_vec();
        data.append(&mut sev);
        let mut src = entry.source.as_str().as_bytes_vec();
        data.append(&mut src);
        let mut ts = le_bytes_vec(entry.timestamp_ms / 1000);
        data.append(&mut ts);
        match &entry.previous_hash {
            Some(p) => {
                let mut pb = p.as_str().as_bytes_vec();
                data.append(&mut pb);
            },
            None => {},
        }
        assert(data@ =~= hash_input(*entry));
        let digest = sha256(data.as_slice());
        base64_encode(digest.as_slice())
    }

    /// Appends `event` (whose JSON text is `event_json`) at `now` with the
    /// given entry id. The entry gets the next sequence number, the severity
    /// the event calls for, the previous entry's hash and its own integrity
    /// hash. When the log grows past its maximum, the oldest entries are
    /// dropped so that four fifths of the maximum remain.
    pub fn log_event_with_id(&mut self, id: String, event: AuditEvent, event_json: String, now: u64)
        requires
            old(self).sequence() < u64::MAX,
        ensures
            final(self).is_enabled() == old(self).is_enabled(),
            old(self).linked() ==> final(self).linked(),
            !old(self).is_enabled() ==> *final(self) == *old(self),
            old(self).is_enabled() ==> {
                let appended = old(self).entries().push(final(self).entries().last());
                let e = final(self).entries().last();
                &&& final(self).entries().len() > 0
                &&& e.id@ == id@
                &&& e.sequence == old(self).sequence() + 1
                &&& e.event == event
                &&& e.event_json@ == event_json@
                &&& e.severity == severity_of(event)
                &&& e.source@ == "matrixon-matrix-server"@
                &&& e.timestamp_ms == now
                &&& e.integrity_hash@ == integrity_of(e)
                &&& match e.previous_hash {
                    Some(p) => old(self).last_hash_view() == Some(p@),
                    None => old(self).last_hash_view() is None,
                }
                &&& final(self).sequence() == old(self).sequence() + 1
                &&& final(self).last_hash_view() == Some(e.integrity_hash@)
                &&& final(self).is_enabled()
                &&& (appended.len() <= max_log_entries() ==> final(self).entries() == appended)
                &&& (appended.len() > max_log_entries() ==> final(self).entries() == appended.subrange(
                    appended.len() - rotation_keep(),
                    appended.len() as int,
                ))
                &&& (old(self).chain_state() && appended.len() <= max_log_entries() ==> final(self).chain_state())
            },
    {
        if !self.enabled {
            return;
        }
        let ghost old_entries = self.log_entries@;
        let sequence = self.sequence_counter + 1;
        self.sequence_counter = sequence;
        let severity = event.determine_severity();
        let previous_hash = match &self.last_hash {
            Some(h) => Some(h.clone()),
            None => None,
        };
        let mut entry = AuditLogEntry {
            id,
            sequence,
            event,
            event_json,
            severity,
            source: String::from_str("matrixon-matrix-server"),
            timestamp_ms: now,
            integrity_hash: String::new(),
            previous_hash,
        };
        let hash = Self::calculate_integrity_hash(&entry);
        let hash_copy = hash.clone();
        let ghost unhashed = entry;
        entry.integrity_hash = hash;
        assert(hash_input(entry) == hash_input(unhashed));
        self.log_entries.push(entry);
        let ghost appended = self.log_entries@;
        if self.log_entries.len() > MAX_LOG_ENTRIES {
            self.rotate_logs();
        }
        self.last_hash = Some(hash_copy);
        proof {
            if old(self).chain_state() && appended.len() <= max_log_entries() {
                assert(self.log_entries@ == appended);
                assert forall|i: int| 0 <= i < appended.len() implies #[trigger] link_ok(appended, i) by {
                    if i < old_entries.len() {
                        assert(link_ok(old_entries, i));
                        assert(appended[i] == old_entries[i]);
                        if i > 0 {
                            assert(appended[i - 1] == old_entries[i - 1]);
                        }
                    } else {
                        if i > 0 {
                            assert(appended[i - 1] == old_entries[i - 1]);
                        }
                    }
                }
            }
        }
    }

    /// Drops the oldest entries so that `rotation_keep()` remain.
    fn rotate_logs(&mut self)
        ensures
            final(self).enabled == old(self).enabled,
            final(self).sequence_counter == old(self).sequence_counter,
            final(self).last_hash == old(self).last_hash,
            final(self).compliance_mode == old(self).compliance_mode,
            old(self).log_entries@.len() > 800000 ==> final(self).log_entries@ == old(self).log_entries@.subrange(old(self).log_entries@.len() - 800000, old(self).log_entries@.len() as int),
            old(self).log_entries@.len() <= 800000 ==> final(self).log_entries@ == old(self).log_entries@,
            final(self).log_entries@.len() > 0 ==> final(self).log_entries@.last() == old(self).log_entries@.last(),
    {
        let keep_count: usize = 800000;
        let n = self.log_entries.len();
        if n > keep_count {
            let remove_count = n - keep_count;
            let mut tail = self.log_entries.split_off(remove_count);
            std::mem::swap(&mut self.log_entries, &mut tail);
            assert(self.log_entries@ =~= old(self).log_entries@.subrange(remove_count as int, n as int));
        }
    }

    /// Appends `event` at `now` under a fresh random entry id; see
    /// `log_event_with_id`.
    pub fn log_event(&mut self, event: AuditEvent, event_json: String, now: u64) -> (r: Result<(), ServiceError>)
        requires
            old(self).sequence() < u64::MAX,
        ensures
            r is Ok,
            final(self).is_enabled() == old(self).is_enabled(),
            old(self).linked() ==> final(self).linked(),
            !old(self).is_enabled() ==> *final(self) == *old(self),
            old(self).is_enabled() ==> {
                let e = final(self).entries().last();
                let appended = old(self).entries().push(e);
                &&& final(self).entries().len() > 0
                &&& e.sequence == old(self).sequence() + 1
                &&& e.event == event
                &&& e.event_json@ == event_json@
                &&& e.severity == severity_of(event)
                &&& e.source@ == "matrixon-matrix-server"@
                &&& e.timestamp_ms == now
                &&& e.integrity_hash@ == integrity_of(e)
                &&& match e.previous_hash {
                    Some(p) => old(self).last_hash_view() == Some(p@),
                    None => old(self).last_hash_view() is None,
                }
                &&& old(self).linked() ==> if old(self).entries().len() == 0 {
                    e.sequence == 1 && e.previous_hash is None
                } else {
                    &&& e.sequence == old(self).entries().last().sequence + 1
                    &&& e.previous_hash matches Some(p) && p@ == old(self).entries().last().integrity_hash@
                }
                &&& final(self).sequence() == old(self).sequence() + 1
                &&& final(self).last_hash_view() == Some(e.integrity_hash@)
                &&& (appended.len() <= max_log_entries() ==> final(self).entries() == appended)
                &&& (appended.len() > max_log_entries() ==> final(self).entries() == appended.subrange(
                    appended.len() - rotation_keep(),
                    appended.len() as int,
                ))
                &&& (old(self).chain_state() && appended.len() <= max_log_entries() ==> final(self).chain_state())
            },
    {
        if !self.enabled {
            return Ok(());
        }
        let id = new_uuid_v4();
        self.log_event_with_id(id, event, event_json, now);
        Ok(())
    }

    /// Records at `now` that `record_count` entries were exported in
    /// `format`, as a `DataExported` event of the system whose JSON text is
    /// `event_json`.
    pub fn log_export(&mut self, format: ExportFormat, record_count: usize, event_json: String, now: u64) -> (r: Result<(), ServiceError>)
        requires
            old(self).sequence() < u64::MAX,
        ensures
            r is Ok,
            final(self).is_enabled() == old(self).is_enabled(),
            old(self).linked() ==> final(self).linked(),
            !old(self).is_enabled() ==> *final(self) == *old(self),
            old(self).is_enabled() ==> {
                &&& final(self).entries().len() > 0
                &&& final(self).sequence() == old(self).sequence() + 1
                &&& final(self).entries().last().event matches AuditEvent::DataExported {
                    resource_type,
                    exported_by,
                    export_format,
                    record_count: n,
                    timestamp,
                } && resource_type@ == "audit_logs"@ && exported_by@ == "system"@ && export_format@ == format_text(format)
                    && n == record_count && timestamp == now
            },
    {
        proof {
            reveal_strlit("audit_logs");
            reveal_strlit("system");
        }
        let event = AuditEvent::DataExported {
            resource_type: String::from_str("audit_logs"),
            exported_by: String::from_str("system"),
            export_format: String::from_str(export_format_name(format)),
            record_count,
            timestamp: now,
        };
        self.log_event(event, event_json, now)
    }

    /// Whether the hash chain holds over the whole log.
    pub fn verify_integrity(&self) -> (ok: bool)
        ensures
            ok == chain_ok(self.entries()),
    {
        Self::verify_chain(&self.log_entries)
    }

    /// Whether the hash chain holds over `entries`: each entry's stored
    /// hash is its integrity hash, the first names no previous hash, and each
    /// later one names the stored hash of the entry before it.
    pub fn verify_chain(entries: &Vec<AuditLogEntry>) -> (ok: bool)
        ensures
            ok == chain_ok(entries@),
    {
        let n = entries.len();
        let mut i: usize = 0;
        while i < n
            invariant
                n == entries@.len(),
                i <= n,
                first_break(entries@, i as int),
            decreases n - i,
        {
            let entry = &entries[i];
            let prev_ok = if i == 0 {
                entry.previous_hash.is_none()
            } else {
                match &entry.previous_hash {
                    Some(p) => *p == entries[i - 1].integrity_hash,
                    None => false,
                }
            };
            if !prev_ok {
                assert(!link_ok(entries@, i as int));
                return false;
            }
            let calculated = Self::calculate_integrity_hash(entry);
            if calculated != entry.integrity_hash {
                assert(!link_ok(entries@, i as int));
                return false;
            }
            assert(link_ok(entries@, i as int));
            i = i + 1;
        }
        true
    }

    /// Whether an entry meets every criterion of `query`.
    pub fn matches_query(entry: &AuditLogEntry, query: &AuditQuery) -> (r: bool)
        ensures
            r == matches_query(*entry, *query),
    {
        if let Some(start) = query.start_time_ms {
            if entry.timestamp_ms < start {
                return false;
            }
        }
        if let Some(end) = query.end_time_ms {
            if entry.timestamp_ms > end {
                return false;
            }
        }
        if let Some(types) = &query.event_types {
            let name = entry.event.event_type_name();
            if !contains_string(types, &name) {
                return false;
            }
        }
        if let Some(user) = &query.user_id {
            if !entry.event.event_involves_user(user.as_str()) {
                return false;
            }
        }
        if let Some(source) = &query.source {
            if entry.source != *source {
                return false;
            }
        }
        if let Some(sev) = query.severity {
            if entry.severity != sev {
                return false;
            }
        }
        true
    }

    /// The entries `query` selects (see `query_result`).
    pub fn query_logs(&self, query: &AuditQuery) -> (r: Vec<&AuditLogEntry>)
        ensures
            entry_values(r@) == query_result(self.entries(), *query),
    {
        let n = self.log_entries.len();
        let mut out: Vec<&AuditLogEntry> = Vec::new();
        let mut i: usize = 0;
        while i < n
            invariant
                n == self.log_entries@.len(),
                i <= n,
                entry_values(out@) == filtered(self.log_entries@.subrange(0, i as int), *query),
            decreases n - i,
        {
            let e = &self.log_entries[i];
            proof {
                let s = self.log_entries@.subrange(0, i + 1);
                assert(s.drop_last() =~= self.log_entries@.subrange(0, i as int));
                assert(s.last() == self.log_entries@[i as int]);
            }
            let ghost before = out@;
            if Self::matches_query(e, query) {
                out.push(e);
                assert(entry_values(out@) =~= entry_values(before).push(*e));
            }
            i = i + 1;
        }
        assert(self.log_entries@.subrange(0, n as int) =~= self.log_entries@);
        let ghost f = out@;
        match query.offset {
            Some(off) => {
                if off < out.len() {
                    let tail = out.split_off(off);
                    out = tail;
                    assert(out@ =~= f.subrange(off as int, f.len() as int));
                    assert(entry_values(out@) =~= entry_values(f).subrange(off as int, f.len() as int));
                } else {
                    out.clear();
                    assert(entry_values(out@) =~= Seq::<AuditLogEntry>::empty());
                }
            },
            None => {},
        }
        match query.limit {
            Some(lim) => {
                if lim < out.len() {
                    let ghost g = out@;
                    out.truncate(lim);
                    assert(entry_values(out@) =~= entry_values(g).subrange(0, lim as int));
                }
            },
            None => {},
        }
        out
    }

    /// Counts by severity over the entries of a query result, with issues
    /// (errors, warnings and criticals) and critical issues.
    pub fn analyze_compliance_data(events: &Vec<&AuditLogEntry>) -> (c: ComplianceCounts)
        ensures
            c.total_events == events@.len(),
            c.info_events == count_severity(entry_values(events@), AuditSeverity::Info),
            c.warning_events == count_severity(entry_values(events@), AuditSeverity::Warning),
            c.error_events == count_severity(entry_values(events@), AuditSeverity::Error),
            c.critical_events == count_severity(entry_values(events@), AuditSeverity::Critical),
            c.critical_issues == c.critical_events,
            c.issues_found == c.warning_events + c.error_events + c.critical_events,
    {
        let ghost s = entry_values(events@);
        let n = events.len();
        let mut info: usize = 0;
        let mut warning: usize = 0;
        let mut error: usize = 0;
        let mut critical: usize = 0;
        let mut i: usize = 0;
        while i < n
            invariant
                n == events@.len(),
                s == entry_values(events@),
                i <= n,
                info == count_severity(s.subrange(0, i as int), AuditSeverity::Info),
                warning == count_severity(s.subrange(0, i as int), AuditSeverity::Warning),
                error == count_severity(s.subrange(0, i as int), AuditSeverity::Error),
                critical == count_severity(s.subrange(0, i as int), AuditSeverity::Critical),
                info + warning + error + critical == i,
            decreases n - i,
        {
            proof {
                let t = s.subrange(0, i + 1);
                assert(t.drop_last() =~= s.subrange(0, i as int));
                assert(t.last() == *events@[i as int]);
            }
            match events[i].severity {
                AuditSeverity::Info => info = info + 1,
                AuditSeverity::Warning => warning = warning + 1,
                AuditSeverity::Error => error = error + 1,
                AuditSeverity::Critical => critical = critical + 1,
            }
            i = i + 1;
        }
        assert(s.subrange(0, n as int) =~= s);
        ComplianceCounts {
            total_events: n,
            info_events: info,
            warning_events: warning,
            error_events: error,
            critical_events: critical,
            issues_found: warning + error + critical,
            critical_issues: critical,
        }
    }
    /// Whether some event records consent given by `user`.
    pub fn has_consent(events: &Vec<&AuditLogEntry>, user: &String) -> (r: bool)
        ensures
            r == consent_given_by(entry_values(events@), user@),
    {
        let ghost all = entry_values(events@);
        let n = events.len();
        let mut i: usize = 0;
        while i < n
            invariant
                n == events@.len(),
                all == entry_values(events@),
                i <= n,
                forall|j: int| 0 <= j < i ==> !#[trigger] is_consent_by(all[j], user@),
            decreases n - i,
        {
            match &events[i].event {
                AuditEvent::ConsentGiven { user_id, .. } => {
                    if *user_id == *user {
                        assert(is_consent_by(all[i as int], user@));
                        return true;
                    }
                },
                _ => {},
            }
            assert(!is_consent_by(all[i as int], user@));
            i = i + 1;
        }
        false
    }

    /// A finding about event `event_id` accessed without consent.
    fn gdpr_finding_for(event_id: &String) -> (f: ComplianceFinding)
        ensures
            gdpr_finding(f, event_id@),
    {
        let mut related: Vec<String> = Vec::new();
        related.push(event_id.clone());
        let mut recs: Vec<String> = Vec::new();
        recs.push(String::from_str("Ensure user consent is obtained before data access"));
        recs.push(String::from_str("Implement consent verification mechanisms"));
        assert(string_views(related@) =~= seq![event_id@]);
        assert(string_views(recs@) =~= seq![
            "Ensure user consent is obtained before data access"@,
            "Implement consent verification mechanisms"@,
        ]);
        ComplianceFinding {
            id: new_uuid_v4(),
            finding_type: String::from_str("gdpr_data_access_without_consent"),
            severity: AuditSeverity::Warning,
            description: String::from_str("Data accessed without documented user consent"),
            related_events: related,
            risk_level: RiskLevel::Medium,
            recommendations: recs,
        }
    }

    /// A finding about critical event `event_id`.
    fn critical_finding_for(event_id: &String) -> (f: ComplianceFinding)
        ensures
            critical_finding(f, event_id@),
    {
        let mut related: Vec<String> = Vec::new();
        related.push(event_id.clone());
        let mut recs: Vec<String> = Vec::new();
        recs.push(String::from_str("Investigate critical security event immediately"));
        recs.push(String::from_str("Review security policies and procedures"));
        assert(string_views(related@) =~= seq![event_id@]);
        assert(string_views(recs@) =~= seq![
            "Investigate critical security event immediately"@,
            "Review security policies and procedures"@,
        ]);
        ComplianceFinding {
            id: new_uuid_v4(),
            finding_type: String::from_str("critical_security_event"),
            severity: AuditSeverity::Critical,
            description: String::from_str("Critical security event requiring immediate attention"),
            related_events: related,
            risk_level: RiskLevel::Critical,
            recommendations: recs,
        }
    }

    /// GDPR check: one finding for each data access by someone who never
    /// gave consent among `events`.
    pub fn check_gdpr_compliance(events: &Vec<&AuditLogEntry>) -> (fs: Vec<ComplianceFinding>)
        ensures
            findings_ok(fs@, entry_values(events@), ComplianceReportType::Gdpr),
    {
        let ghost all = entry_values(events@);
        let ghost p = |e: AuditLogEntry| unconsented_access(all, e);
        let n = events.len();
        let mut fs: Vec<ComplianceFinding> = Vec::new();
        let mut i: usize = 0;
        while i < n
            invariant
                n == events@.len(),
                all == entry_values(events@),
                p == (|e: AuditLogEntry| unconsented_access(all, e)),
                i <= n,
                fs@.len() == flagged_ids(all.subrange(0, i as int), p).len(),
                forall|k: int| 0 <= k < fs@.len() ==> #[trigger] gdpr_finding(fs@[k], flagged_ids(all.subrange(0, i as int), p)[k]),
            decreases n - i,
        {
            let ghost before = flagged_ids(all.subrange(0, i as int), p);
            proof {
                let t = all.subrange(0, i + 1);
                assert(t.drop_last() =~= all.subrange(0, i as int));
                assert(t.last() == all[i as int]);
            }
            let entry = events[i];
            match &entry.event {
                AuditEvent::DataAccessed { accessed_by, .. } => {
                    if !Self::has_consent(events, accessed_by) {
                        let f = Self::gdpr_finding_for(&entry.id);
                        fs.push(f);
                        assert(p(all[i as int]));
                    } else {
                        assert(!p(all[i as int]));
                    }
                },
                _ => {
                    assert(!p(all[i as int]));
                },
            }
            proof {
                let now = flagged_ids(all.subrange(0, i + 1), p);
                assert forall|k: int| 0 <= k < fs@.len() implies #[trigger] gdpr_finding(fs@[k], now[k]) by {
                    if k < before.len() {
                        assert(now[k] == before[k]);
                    }
                }
            }
            i = i + 1;
        }
        assert(all.subrange(0, n as int) =~= all);
        fs
    }

    /// Security check: one finding when more than ten authentication
    /// failures are among `events`.
    pub fn check_security_compliance(events: &Vec<&AuditLogEntry>) -> (fs: Vec<ComplianceFinding>)
        ensures
            findings_ok(fs@, entry_values(events@), ComplianceReportType::Security),
    {
        let ghost all = entry_values(events@);
        let n = events.len();
        let mut failures: u64 = 0;
        let mut i: usize = 0;
        while i < n
            invariant
                n == events@.len(),
                all == entry_values(events@),
                i <= n,
                failures == count_auth_failures(all.subrange(0, i as int)),
                failures <= i,
            decreases n - i,
        {
            proof {
                let t = all.subrange(0, i + 1);
                assert(t.drop_last() =~= all.subrange(0, i as int));
                assert(t.last() == all[i as int]);
            }
            match &events[i].event {
                AuditEvent::AuthenticationFailure { .. } => {
                    failures = failures + 1;
                },
                _ => {},
            }
            i = i + 1;
        }
        assert(all.subrange(0, n as int) =~= all);
        let mut fs: Vec<ComplianceFinding> = Vec::new();
        if failures > 10 {
            let mut recs: Vec<String> = Vec::new();
            recs.push(String::from_str("Review authentication failure patterns"));
            recs.push(String::from_str("Consider implementing additional security measures"));
            assert(string_views(recs@) =~= seq![
                "Review authentication failure patterns"@,
                "Consider implementing additional security measures"@,
            ]);
            let count_text = u64_to_decimal(failures);
            let mut description = String::from_str("High number of authentication failures: ");
            description.append(count_text.as_str());
            let related: Vec<String> = Vec::new();
            assert(string_views(related@) =~= Seq::<Seq<char>>::empty());
            fs.push(ComplianceFinding {
                id: new_uuid_v4(),
                finding_type: String::from_str("high_authentication_failure_rate"),
                severity: AuditSeverity::Warning,
                description,
                related_events: related,
                risk_level: RiskLevel::Medium,
                recommendations: recs,
            });
        }
        fs
    }

    /// Generic check: one finding for each critical event.
    pub fn check_generic_compliance(events: &Vec<&AuditLogEntry>, report_type: ComplianceReportType) -> (fs: Vec<ComplianceFinding>)
        requires
            report_type != ComplianceReportType::Gdpr,
            report_type != ComplianceReportType::Security,
        ensures
            findings_ok(fs@, entry_values(events@), report_type),
    {
        let ghost all = entry_values(events@);
        let ghost p = |e: AuditLogEntry| e.severity == AuditSeverity::Critical;
        let n = events.len();
        let mut fs: Vec<ComplianceFinding> = Vec::new();
        let mut i: usize = 0;
        while i < n
            invariant
                n == events@.len(),
                all == entry_values(events@),
                p == (|e: AuditLogEntry| e.severity == AuditSeverity::Critical),
                i <= n,
                fs@.len() == flagged_ids(all.subrange(0, i as int), p).len(),
                forall|k: int| 0 <= k < fs@.len() ==> #[trigger] critical_finding(fs@[k], flagged_ids(all.subrange(0, i as int), p)[k]),
            decreases n - i,
        {
            let ghost before = flagged_ids(all.subrange(0, i as int), p);
            proof {
                let t = all.subrange(0, i + 1);
                assert(t.drop_last() =~= all.subrange(0, i as int));
                assert(t.last() == all[i as int]);
            }
            let entry = events[i];
            if entry.severity == AuditSeverity::Critical {
                let f = Self::critical_finding_for(&entry.id);
                fs.push(f);
            }
            proof {
                let now = flagged_ids(all.subrange(0, i + 1), p);
                assert forall|k: int| 0 <= k < fs@.len() implies #[trigger] critical_finding(fs@[k], now[k]) by {
                    if k < before.len() {
                        assert(now[k] == before[k]);
                    }
                }
            }
            i = i + 1;
        }
        assert(all.subrange(0, n as int) =~= all);
        fs
    }

    /// The findings of a report of type `report_type` over `events`.
    pub fn identify_compliance_issues(events: &Vec<&AuditLogEntry>, report_type: ComplianceReportType) -> (fs: Vec<ComplianceFinding>)
        ensures
            findings_ok(fs@, entry_values(events@), report_type),
    {
        match report_type {
            ComplianceReportType::Gdpr => Self::check_gdpr_compliance(events),
            ComplianceReportType::Security => Self::check_security_compliance(events),
            _ => Self::check_generic_compliance(events, report_type),
        }
    }

    /// Recommendations for a set of findings: a call to address the
    /// critical ones, if any, then three standing recommendations.
    pub fn generate_recommendations(findings: &Vec<ComplianceFinding>) -> (r: Vec<String>)
        ensures
            string_views(r@) == recommendations_for(count_critical_findings(findings@)),
    {
        let n = findings.len();
        let mut critical: u64 = 0;
        let mut i: usize = 0;
        while i < n
            invariant
                n == findings@.len(),
                i <= n,
                critical == count_critical_findings(findings@.subrange(0, i as int)),
                critical <= i,
            decreases n - i,
        {
            proof {
                let t = findings@.subrange(0, i + 1);
                assert(t.drop_last() =~= findings@.subrange(0, i as int));
                assert(t.last() == findings@[i as int]);
            }
            if findings[i].severity == AuditSeverity::Critical {
                critical = critical + 1;
            }
            i = i + 1;
        }
        assert(findings@.subrange(0, n as int) =~= findings@);
        let mut r: Vec<String> = Vec::new();
        if critical > 0 {
            let mut first = String::from_str("Address ");
            let count_text = u64_to_decimal(critical);
            first.append(count_text.as_str());
            first.append(" critical security findings immediately");
            r.push(first);
        }
        r.push(String::from_str("Implement regular compliance monitoring"));
        r.push(String::from_str("Review and update security policies"));
        r.push(String::from_str("Conduct security awareness training"));
        assert(string_views(r@) =~= recommendations_for(critical as nat));
        r
    }

    /// A compliance report of type `report_type` over the entries logged
    /// between `period_start_ms` and `period_end_ms`, generated at `now`.
    pub fn generate_compliance_report(
        &self,
        report_type: ComplianceReportType,
        period_start_ms: u64,
        period_end_ms: u64,
        now: u64,
    ) -> (r: ComplianceReport)
        ensures
            r.report_type == report_type,
            r.generated_at_ms == now,
            r.period_start_ms == period_start_ms,
            r.period_end_ms == period_end_ms,
            ({
                let events = query_result(self.entries(), period_query(period_start_ms, period_end_ms));
                &&& r.summary.total_events == events.len()
                &&& r.summary.info_events == count_severity(events, AuditSeverity::Info)
                &&& r.summary.warning_events == count_severity(events, AuditSeverity::Warning)
                &&& r.summary.error_events == count_severity(events, AuditSeverity::Error)
                &&& r.summary.critical_events == count_severity(events, AuditSeverity::Critical)
                &&& r.summary.critical_issues == r.summary.critical_events
                &&& r.summary.issues_found == r.summary.warning_events + r.summary.error_events + r.summary.critical_events
                &&& findings_ok(r.findings@, events, report_type)
                &&& string_views(r.recommendations@) == recommendations_for(count_critical_findings(r.findings@))
            }),
    {
        let query = AuditQuery {
            start_time_ms: Some(period_start_ms),
            end_time_ms: Some(period_end_ms),
            event_types: None,
            user_id: None,
            source: None,
            severity: None,
            limit: None,
            offset: None,
        };
        let events = self.query_logs(&query);
        let summary = Self::analyze_compliance_data(&events);
        let findings = Self::identify_compliance_issues(&events, report_type);
        let recommendations = Self::generate_recommendations(&findings);
        ComplianceReport {
            id: new_uuid_v4(),
            report_type,
            generated_at_ms: now,
            period_start_ms,
            period_end_ms,
            summary,
            findings,
            recommendations,
        }
    }
}

/// Whether `v` holds a string equal to `s`.
pub fn contains_string(v: &Vec<String>, s: &String) -> (r: bool)
    ensures
        r == string_views(v@).contains(s@),
{
    let n = v.len();
    let mut i: usize = 0;
    while i < n
        invariant
            n == v@.len(),
            i <= n,
            forall|j: int| 0 <= j < i ==> (#[trigger] v@[j])@ != s@,
        decreases n - i,
    {
        if v[i] == *s {
            assert(string_views(v@)[i as int] == s@);
            return true;
        }
        i = i + 1;
    }
    assert(!string_views(v@).contains(s@)) by {
        if string_views(v@).contains(s@) {
            let j = choose|j: int| 0 <= j < v@.len() && #[trigger] string_views(v@)[j] == s@;
            assert(v@[j]@ != s@);
        }
    }
    false
}

/// The name of a severity.
pub fn severity_name(s: AuditSeverity) -> (r: &'static str)
    ensures
        r@ == severity_text(s),
{
    match s {
        AuditSeverity::Info => "Info",
        AuditSeverity::Warning => "Warning",
        AuditSeverity::Error => "Error",
        AuditSeverity::Critical => "Critical",
    }
}

/// `x.to_le_bytes()`.
pub fn le_bytes_vec(x: u64) -> (r: Vec<u8>)
    ensures
        r@ == le_bytes(x),
{
    let mut r: Vec<u8> = Vec::new();
    let mut y = x;
    let mut k: usize = 0;
    while k < 8
        invariant
            k <= 8,
            r@ + le_bytes_n(y as nat, (8 - k) as nat) == le_bytes(x),
        decreases 8 - k,
    {
        let b = (y % 256) as u8;
        proof {
            assert(le_bytes_n(y as nat, (8 - k) as nat) == seq![(y as nat % 256) as u8] + le_bytes_n(y as nat / 256, (8 - k - 1) as nat));
            assert(r@.push(b) + le_bytes_n((y / 256) as nat, (8 - k - 1) as nat) =~= r@ + le_bytes_n(y as nat, (8 - k) as nat));
        }
        r.push(b);
        y = y / 256;
        k = k + 1;
    }
    assert(r@ =~= le_bytes(x));
    r
}

/// The name of an event's kind (its variant), as the export writes it.
pub open spec fn event_name(e: AuditEvent) -> Seq<char> {
    match e {
        AuditEvent::ServiceStartup { .. } => "ServiceStartup"@,
        AuditEvent::ServiceShutdown { .. } => "ServiceShutdown"@,
        AuditEvent::AuthenticationAttempt { .. } => "AuthenticationAttempt"@,
        AuditEvent::AuthenticationSuccess { .. } => "AuthenticationSuccess"@,
        AuditEvent::AuthenticationFailure { .. } => "AuthenticationFailure"@,
        AuditEvent::SessionCreated { .. } => "SessionCreated"@,
        AuditEvent::SessionExpired { .. } => "SessionExpired"@,
        AuditEvent::SessionCleanup { .. } => "SessionCleanup"@,
        AuditEvent::UserCreated { .. } => "UserCreated"@,
        AuditEvent::UserDeactivated { .. } => "UserDeactivated"@,
        AuditEvent::UserReactivated { .. } => "UserReactivated"@,
        AuditEvent::UserProfileUpdated { .. } => "UserProfileUpdated"@,
        AuditEvent::RoomCreated { .. } => "RoomCreated"@,
        AuditEvent::RoomDeleted { .. } => "RoomDeleted"@,
        AuditEvent::RoomMembershipChanged { .. } => "RoomMembershipChanged"@,
        AuditEvent::RoomSettingsChanged { .. } => "RoomSettingsChanged"@,
        AuditEvent::DataAccessed { .. } => "DataAccessed"@,
        AuditEvent::DataModified { .. } => "DataModified"@,
        AuditEvent::DataExported { .. } => "DataExported"@,
        AuditEvent::AdminActionPerformed { .. } => "AdminActionPerformed"@,
        AuditEvent::ConfigurationChanged { .. } => "ConfigurationChanged"@,
        AuditEvent::SecurityViolation { .. } => "SecurityViolation"@,
        AuditEvent::SuspiciousActivity { .. } => "SuspiciousActivity"@,
        AuditEvent::AccessDenied { .. } => "AccessDenied"@,
        AuditEvent::ConsentGiven { .. } => "ConsentGiven"@,
        AuditEvent::ConsentWithdrawn { .. } => "ConsentWithdrawn"@,
        AuditEvent::DataRetentionAction { .. } => "DataRetentionAction"@,
        AuditEvent::PersonalDataRequest { .. } => "PersonalDataRequest"@,
    }
}

/// The name of an event's kind (its variant).
pub fn event_name_text(e: &AuditEvent) -> (r: &'static str)
    ensures
        r@ == event_name(*e),
{
    proof {
        reveal_strlit("ServiceStartup");
        reveal_strlit("ServiceShutdown");
        reveal_strlit("AuthenticationAttempt");
        reveal_strlit("AuthenticationSuccess");
        reveal_strlit("AuthenticationFailure");
        reveal_strlit("SessionCreated");
        reveal_strlit("SessionExpired");
        reveal_strlit("SessionCleanup");
        reveal_strlit("UserCreated");
        reveal_strlit("UserDeactivated");
        reveal_strlit("UserReactivated");
        reveal_strlit("UserProfileUpdated");
        reveal_strlit("RoomCreated");
        reveal_strlit("RoomDeleted");
        reveal_strlit("RoomMembershipChanged");
        reveal_strlit("RoomSettingsChanged");
        reveal_strlit("DataAccessed");
        reveal_strlit("DataModified");
        reveal_strlit("DataExported");
        reveal_strlit("AdminActionPerformed");
        reveal_strlit("ConfigurationChanged");
        reveal_strlit("SecurityViolation");
        reveal_strlit("SuspiciousActivity");
        reveal_strlit("AccessDenied");
        reveal_strlit("ConsentGiven");
        reveal_strlit("ConsentWithdrawn");
        reveal_strlit("DataRetentionAction");
        reveal_strlit("PersonalDataRequest");
    }
    match e {
        AuditEvent::ServiceStartup { .. } => "ServiceStartup",
        AuditEvent::ServiceShutdown { .. } => "ServiceShutdown",
        AuditEvent::AuthenticationAttempt { .. } => "AuthenticationAttempt",
        AuditEvent::AuthenticationSuccess { .. } => "AuthenticationSuccess",
        AuditEvent::AuthenticationFailure { .. } => "AuthenticationFailure",
        AuditEvent::SessionCreated { .. } => "SessionCreated",
        AuditEvent::SessionExpired { .. } => "SessionExpired",
        AuditEvent::SessionCleanup { .. } => "SessionCleanup",
        AuditEvent::UserCreated { .. } => "UserCreated",
        AuditEvent::UserDeactivated { .. } => "UserDeactivated",
        AuditEvent::UserReactivated { .. } => "UserReactivated",
        AuditEvent::UserProfileUpdated { .. } => "UserProfileUpdated",
        AuditEvent::RoomCreated { .. } => "RoomCreated",
        AuditEvent::RoomDeleted { .. } => "RoomDeleted",
        AuditEvent::RoomMembershipChanged { .. } => "RoomMembershipChanged",
        AuditEvent::RoomSettingsChanged { .. } => "RoomSettingsChanged",
        AuditEvent::DataAccessed { .. } => "DataAccessed",
        AuditEvent::DataModified { .. } => "DataModified",
        AuditEvent::DataExported { .. } => "DataExported",
        AuditEvent::AdminActionPerformed { .. } => "AdminActionPerformed",
        AuditEvent::ConfigurationChanged { .. } => "ConfigurationChanged",
        AuditEvent::SecurityViolation { .. } => "SecurityViolation",
        AuditEvent::SuspiciousActivity { .. } => "SuspiciousActivity",
        AuditEvent::AccessDenied { .. } => "AccessDenied",
        AuditEvent::ConsentGiven { .. } => "ConsentGiven",
        AuditEvent::ConsentWithdrawn { .. } => "ConsentWithdrawn",
        AuditEvent::DataRetentionAction { .. } => "DataRetentionAction",
        AuditEvent::PersonalDataRequest { .. } => "PersonalDataRequest",
    }
}

/// An entry's time can be written as RFC 3339 text (before the year 10000).
pub open spec fn time_printable(e: AuditLogEntry) -> bool {
    e.timestamp_ms / 1000 < 253_402_300_800
}

/// One CSV line of an entry: id, sequence, event type, severity, source,
/// time, and the name of the event's kind.
pub open spec fn csv_line(e: AuditLogEntry) -> Seq<char> {
    e.id@ + ","@ + decimal(e.sequence as nat) + ","@ + event_type_text(e.event) + ","@ + severity_text(e.severity) + ","@
        + e.source@ + ","@ + spec_rfc3339_seconds((e.timestamp_ms / 1000) as u64) + ","@ + event_name(e.event) + "\n"@
}

/// The CSV lines of the entries, in order.
pub open spec fn csv_lines(s: Seq<AuditLogEntry>) -> Seq<char>
    decreases s.len(),
{
    if s.len() == 0 {
        Seq::empty()
    } else {
        csv_lines(s.drop_last()) + csv_line(s.last())
    }
}

/// The XML element of an entry.
pub open spec fn xml_entry(e: AuditLogEntry) -> Seq<char> {
    "  <entry id=\""@ + e.id@ + "\" sequence=\""@ + decimal(e.sequence as nat) + "\" severity=\""@ + severity_text(e.severity)
        + "\" source=\""@ + e.source@ + "\" timestamp=\""@ + spec_rfc3339_seconds((e.timestamp_ms / 1000) as u64) + "\">\n"@
        + "    <event>"@ + event_name(e.event) + "</event>\n"@ + "  </entry>\n"@
}

/// The XML elements of the entries, in order.
pub open spec fn xml_entries(s: Seq<AuditLogEntry>) -> Seq<char>
    decreases s.len(),
{
    if s.len() == 0 {
        Seq::empty()
    } else {
        xml_entries(s.drop_last()) + xml_entry(s.last())
    }
}

/// The CSV header.
pub open spec fn csv_header() -> Seq<char> {
    "ID,Sequence,Event Type,Severity,Source,Timestamp,Description\n"@
}

/// The XML prologue and closing tag.
pub open spec fn xml_head() -> Seq<char> {
    "<?xml version=\"1.0\" encoding=\"UTF-8\"?>\n<audit_logs>\n"@
}

/// The name of an export format.
pub open spec fn format_text(f: ExportFormat) -> Seq<char> {
    match f {
        ExportFormat::Json => "Json"@,
        ExportFormat::Csv => "Csv"@,
        ExportFormat::Xml => "Xml"@,
    }
}

fn csv_line_exec(e: &AuditLogEntry) -> (r: String)
    requires
        time_printable(*e),
    ensures
        r@ == csv_line(*e),
{
    proof {
        reveal_strlit(",");
        reveal_strlit("\n");
    }
    let mut line = String::from_str(e.id.as_str());
    line.append(",");
    line.append(u64_to_decimal(e.sequence).as_str());
    line.append(",");
    line.append(e.event.event_type_name().as_str());
    line.append(",");
    line.append(severity_name(e.severity));
    line.append(",");
    line.append(e.source.as_str());
    line.append(",");
    line.append(rfc3339_seconds(e.timestamp_ms / 1000).as_str());
    line.append(",");
    line.append(event_name_text(&e.event));
    line.append("\n");
    line
}

fn xml_entry_exec(e: &AuditLogEntry) -> (r: String)
    requires
        time_printable(*e),
    ensures
        r@ == xml_entry(*e),
{
    proof {
        reveal_strlit("  <entry id=\"");
        reveal_strlit("\" sequence=\"");
        reveal_strlit("\" severity=\"");
        reveal_strlit("\" source=\"");
        reveal_strlit("\" timestamp=\"");
        reveal_strlit("\">\n");
        reveal_strlit("    <event>");
        reveal_strlit("</event>\n");
        reveal_strlit("  </entry>\n");
    }
    let mut x = String::from_str("  <entry id=\"");
    x.append(e.id.as_str());
    x.append("\" sequence=\"");
    x.append(u64_to_decimal(e.sequence).as_str());
    x.append("\" severity=\"");
    x.append(severity_name(e.severity));
    x.append("\" source=\"");
    x.append(e.source.as_str());
    x.append("\" timestamp=\"");
    x.append(rfc3339_seconds(e.timestamp_ms / 1000).as_str());
    x.append("\">\n");
    x.append("    <event>");
    x.append(event_name_text(&e.event));
    x.append("</event>\n");
    x.append("  </entry>\n");
    x
}

/// The entries as CSV: a header, then one line per entry.
pub fn export_csv(entries: &Vec<&AuditLogEntry>) -> (r: String)
    requires
        forall|i: int| 0 <= i < entries@.len() ==> time_printable(*#[trigger] entries@[i]),
    ensures
        r@ == csv_header() + csv_lines(entry_values(entries@)),
{
    let mut out = String::from_str("ID,Sequence,Event Type,Severity,Source,Timestamp,Description\n");
    let ghost all = entry_values(entries@);
    let mut i: usize = 0;
    while i < entries.len()
        invariant
            i <= entries@.len(),
            all == entry_values(entries@),
            forall|j: int| 0 <= j < entries@.len() ==> time_printable(*#[trigger] entries@[j]),
            out@ == csv_header() + csv_lines(all.subrange(0, i as int)),
        decreases entries@.len() - i,
    {
        proof {
            assert(all.subrange(0, i + 1).drop_last() =~= all.subrange(0, i as int));
            assert(all.subrange(0, i + 1).last() == *entries@[i as int]);
        }
        let line = csv_line_exec(entries[i]);
        out.append(line.as_str());
        proof {
            assert(out@ =~= csv_header() + csv_lines(all.subrange(0, i + 1)));
        }
        i = i + 1;
    }
    proof {
        assert(all.subrange(0, i as int) =~= all);
    }
    out
}

/// The entries as XML: one `entry` element each inside `audit_logs`.
pub fn export_xml(entries: &Vec<&AuditLogEntry>) -> (r: String)
    requires
        forall|i: int| 0 <= i < entries@.len() ==> time_printable(*#[trigger] entries@[i]),
    ensures
        r@ == xml_head() + xml_entries(entry_values(entries@)) + "</audit_logs>"@,
{
    let mut out = String::from_str("<?xml version=\"1.0\" encoding=\"UTF-8\"?>\n<audit_logs>\n");
    let ghost all = entry_values(entries@);
    let mut i: usize = 0;
    while i < entries.len()
        invariant
            i <= entries@.len(),
            all == entry_values(entries@),
            forall|j: int| 0 <= j < entries@.len() ==> time_printable(*#[trigger] entries@[j]),
            out@ == xml_head() + xml_entries(all.subrange(0, i as int)),
        decreases entries@.len() - i,
    {
        proof {
            assert(all.subrange(0, i + 1).drop_last() =~= all.subrange(0, i as int));
            assert(all.subrange(0, i + 1).last() == *entries@[i as int]);
        }
        let x = xml_entry_exec(entries[i]);
        out.append(x.as_str());
        proof {
            assert(out@ =~= xml_head() + xml_entries(all.subrange(0, i + 1)));
        }
        i = i + 1;
    }
    proof {
        assert(all.subrange(0, i as int) =~= all);
    }
    out.append("</audit_logs>");
    proof {
        assert(all.subrange(0, i as int) =~= all);
    }
    out
}

/// The name of export format `f`.
pub fn export_format_name(f: ExportFormat) -> (r: &'static str)
    ensures
        r@ == format_text(f),
{
    match f {
        ExportFormat::Json => "Json",
        ExportFormat::Csv => "Csv",
        ExportFormat::Xml => "Xml",
    }
}

/// A verified log whose entry `i` has its stored hash replaced by another
/// fails verification.
pub proof fn lemma_changed_hash_detected(entries: Seq<AuditLogEntry>, i: int, h: String)
    requires
        chain_ok(entries),
        0 <= i < entries.len(),
        h@ != entries[i].integrity_hash@,
    ensures
        !chain_ok(entries.update(i, AuditLogEntry { integrity_hash: h, ..entries[i] })),
{
    let t = entries.update(i, AuditLogEntry { integrity_hash: h, ..entries[i] });
    assert(link_ok(entries, i));
    assert(!link_ok(t, i));
}

/// A verified log whose entry `i` has its link to the entry before it
/// (its previous hash) replaced by another fails verification.
pub proof fn lemma_changed_link_detected(entries: Seq<AuditLogEntry>, i: int, p: Option<String>)
    requires
        chain_ok(entries),
        0 <= i < entries.len(),
        match (p, entries[i].previous_hash) {
            (Some(a), Some(b)) => a@ != b@,
            (None, None) => false,
            _ => true,
        },
    ensures
        !chain_ok(entries.update(i, AuditLogEntry { previous_hash: p, ..entries[i] })),
{
    let t = entries.update(i, AuditLogEntry { previous_hash: p, ..entries[i] });
    assert(link_ok(entries, i));
    if i > 0 {
        assert(link_ok(entries, i - 1));
        assert(t[i - 1] == entries[i - 1]);
    }
    assert(!link_ok(t, i));
}

/// A verified log whose entry `i` is replaced by one with the same stored
/// hash but other contents fails verification, unless the two contents hash
/// alike (a SHA-256 collision).
pub proof fn lemma_changed_contents_detected(entries: Seq<AuditLogEntry>, i: int, e: AuditLogEntry)
    requires
        chain_ok(entries),
        0 <= i < entries.len(),
        e.integrity_hash == entries[i].integrity_hash,
        integrity_of(e) != integrity_of(entries[i]),
    ensures
        !chain_ok(entries.update(i, e)),
{
    assert(link_ok(entries, i));
    assert(!link_ok(entries.update(i, e), i));
}

/// Removing an entry other than the last from a verified log makes it fail
/// verification, unless the removed entry's hash equals the hash of the
/// entry before it (a SHA-256 collision).
pub proof fn lemma_removed_entry_detected(entries: Seq<AuditLogEntry>, j: int)
    requires
        chain_ok(entries),
        0 <= j < entries.len() - 1,
        j > 0 ==> entries[j].integrity_hash@ != entries[j - 1].integrity_hash@,
    ensures
        !chain_ok(entries.remove(j)),
{
    let t = entries.remove(j);
    assert(link_ok(entries, j + 1));
    assert(t[j] == entries[j + 1]);
    if j > 0 {
        assert(t[j - 1] == entries[j - 1]);
    }
    assert(!link_ok(t, j));
}

/// Swapping two entries of a verified log makes it fail verification,
/// unless the entries before them have equal hashes (a SHA-256 collision).
pub proof fn lemma_swapped_entries_detected(entries: Seq<AuditLogEntry>, a: int, b: int)
    requires
        chain_ok(entries),
        0 <= a < b < entries.len(),
        a > 0 ==> entries[b - 1].integrity_hash@ != entries[a - 1].integrity_hash@,
    ensures
        !chain_ok(entries.update(a, entries[b]).update(b, entries[a])),
{
    let t = entries.update(a, entries[b]).update(b, entries[a]);
    assert(link_ok(entries, b));
    assert(t[a] == entries[b]);
    if a > 0 {
        assert(t[a - 1] == entries[a - 1]);
    }
    assert(!link_ok(t, a));
}

/// The severity every kind of event is logged with: security violations
/// are critical; suspicious activity is critical above a risk of 0.8 (800
/// thousandths), a warning above 0.5 and informational otherwise;
/// authentication failures, denied access and deactivations are warnings;
/// every other kind of event is informational.
pub proof fn lemma_severity_by_event_kind(e: AuditEvent)
    ensures
        e is SecurityViolation ==> severity_of(e) == AuditSeverity::Critical,
        e matches AuditEvent::SuspiciousActivity { risk_score_milli, .. } ==> severity_of(e) == (if risk_score_milli > 800 {
            AuditSeverity::Critical
        } else if risk_score_milli > 500 {
            AuditSeverity::Warning
        } else {
            AuditSeverity::Info
        }),
        e is AuthenticationFailure ==> severity_of(e) == AuditSeverity::Warning,
        e is AccessDenied ==> severity_of(e) == AuditSeverity::Warning,
        e is UserDeactivated ==> severity_of(e) == AuditSeverity::Warning,
        !(e is SecurityViolation || e is SuspiciousActivity || e is AuthenticationFailure || e is AccessDenied
            || e is UserDeactivated) ==> severity_of(e) == AuditSeverity::Info,
        severity_of(e) != AuditSeverity::Error,
{
}

/// A query by user alone selects an entry exactly when its event names that
/// user: sign-ins, sessions created or expired, user creation, deactivation
/// and profile changes, membership changes, denied access, consent and
/// personal-data requests by their `user_id`; security violations and
/// suspicious activity by their `user_id` when they have one. Events of
/// other kinds name no user and are never selected.
pub proof fn lemma_user_query_selects(e: AuditLogEntry, q: AuditQuery, u: String)
    requires
        q.user_id == Some(u),
        q.start_time_ms is None,
        q.end_time_ms is None,
        q.event_types is None,
        q.source is None,
        q.severity is None,
    ensures
        e.event matches AuditEvent::AuthenticationSuccess { user_id, .. } ==> (matches_query(e, q) <==> user_id@ == u@),
        e.event matches AuditEvent::SessionCreated { user_id, .. } ==> (matches_query(e, q) <==> user_id@ == u@),
        e.event matches AuditEvent::SessionExpired { user_id, .. } ==> (matches_query(e, q) <==> user_id@ == u@),
        e.event matches AuditEvent::UserCreated { user_id, .. } ==> (matches_query(e, q) <==> user_id@ == u@),
        e.event matches AuditEvent::UserDeactivated { user_id, .. } ==> (matches_query(e, q) <==> user_id@ == u@),
        e.event matches AuditEvent::UserProfileUpdated { user_id, .. } ==> (matches_query(e, q) <==> user_id@ == u@),
        e.event matches AuditEvent::RoomMembershipChanged { user_id, .. } ==> (matches_query(e, q) <==> user_id@ == u@),
        e.event matches AuditEvent::AccessDenied { user_id, .. } ==> (matches_query(e, q) <==> user_id@ == u@),
        e.event matches AuditEvent::ConsentGiven { user_id, .. } ==> (matches_query(e, q) <==> user_id@ == u@),
        e.event matches AuditEvent::ConsentWithdrawn { user_id, .. } ==> (matches_query(e, q) <==> user_id@ == u@),
        e.event matches AuditEvent::PersonalDataRequest { user_id, .. } ==> (matches_query(e, q) <==> user_id@ == u@),
        e.event matches AuditEvent::SecurityViolation { user_id, .. } ==> (matches_query(e, q) <==> (user_id matches Some(
            x,
        ) && x@ == u@)),
        e.event matches AuditEvent::SuspiciousActivity { user_id, .. } ==> (matches_query(e, q) <==> (user_id matches Some(
            x,
        ) && x@ == u@)),
        (e.event is ServiceStartup || e.event is ServiceShutdown || e.event is AuthenticationAttempt
            || e.event is AuthenticationFailure || e.event is SessionCleanup || e.event is UserReactivated
            || e.event is RoomCreated || e.event is RoomDeleted || e.event is RoomSettingsChanged
            || e.event is DataAccessed || e.event is DataModified || e.event is DataExported
            || e.event is AdminActionPerformed || e.event is ConfigurationChanged || e.event is DataRetentionAction)
            ==> !matches_query(e, q),
{
}

} // verus!
