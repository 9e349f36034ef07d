//! The enterprise integration service: starts sign-ins through the SAML and
//! OIDC services, keeps enterprise sessions and user profiles, and collects
//! the audit events its operations produce for the audit log.
use vstd::prelude::*;
use vstd::string::*;

use crate::enterprise::ComplianceMode;
use crate::enterprise::audit::AuditEvent;
use crate::enterprise::identity::{IdentityServerConfig, IdentityServerService, identity_config_problem};
use crate::enterprise::oidc::{OidcConfig, OidcProviderService, oidc_config_problem};
use crate::enterprise::saml::{SamlAuthRequest, SamlConfig, SamlSsoService, saml_config_problem};
use crate::error::{ErrorKind, ServiceError, is_error, make_error};
use crate::external::{new_uuid_v4, random_alphanumeric};
use crate::strmap::StrMap;
use crate::text::{has_prefix, u64_to_decimal};

verus! {

/// How a user signs in.
#[derive(Debug)]
pub enum AuthenticationMethod {
    SamlSso { provider: String, assertion_id: String },
    OidcProvider { provider: String, token_id: String },
    DirectoryService { domain: String, username: String },
    MultiFactorAuth { primary_method: Box<AuthenticationMethod>, mfa_methods: Vec<String> },
    CertificateAuth { certificate_fingerprint: String },
}

/// Status of an enterprise account.
#[derive(Debug, Clone, Copy, PartialEq, Eq, Structural)]
pub enum AccountStatus {
    Active,
    Disabled,
    Locked,
    Pending,
    Expired,
}

/// Enterprise integration configuration; the session timeout is in
/// milliseconds.
#[derive(Debug)]
pub struct EnterpriseConfig {
    pub enabled: bool,
    pub saml: Option<SamlConfig>,
    pub oidc: Option<OidcConfig>,
    pub identity_server: Option<IdentityServerConfig>,
    pub session_timeout_ms: u64,
    pub enable_audit_logging: bool,
    pub compliance_mode: ComplianceMode,
}

/// An enterprise session; times are milliseconds since the Unix epoch.
#[derive(Debug)]
pub struct EnterpriseSession {
    pub session_id: String,
    pub user_id: String,
    pub auth_method: AuthenticationMethod,
    pub created_at_ms: u64,
    pub last_activity_ms: u64,
    pub expires_at_ms: u64,
    pub device_id: Option<String>,
    pub client_ip: Option<String>,
    pub user_agent: Option<String>,
    pub mfa_verified: bool,
    pub metadata: Vec<(String, String)>,
}

/// A user's enterprise profile; updated at a time in milliseconds.
#[derive(Debug)]
pub struct EnterpriseUserProfile {
    pub user_id: String,
    pub email: Option<String>,
    pub department: Option<String>,
    pub title: Option<String>,
    pub manager: Option<String>,
    pub employee_id: Option<String>,
    pub distinguished_name: Option<String>,
    pub security_groups: Vec<String>,
    pub enterprise_roles: Vec<String>,
    pub account_status: AccountStatus,
    pub updated_at_ms: u64,
}

/// Counters of the enterprise service.
#[derive(Debug, Clone, Copy, PartialEq, Eq, Structural)]
pub struct EnterpriseStatistics {
    pub active_sessions: usize,
    pub registered_users: usize,
    pub saml_enabled: bool,
    pub oidc_enabled: bool,
    pub identity_server_enabled: bool,
    pub directory_service_enabled: bool,
    pub mfa_enabled: bool,
}

/// The name of a sign-in method (its variant), as the audit log records it.
pub open spec fn method_name(m: AuthenticationMethod) -> Seq<char> {
    match m {
        AuthenticationMethod::SamlSso { .. } => "SamlSso"@,
        AuthenticationMethod::OidcProvider { .. } => "OidcProvider"@,
        AuthenticationMethod::DirectoryService { .. } => "DirectoryService"@,
        AuthenticationMethod::MultiFactorAuth { .. } => "MultiFactorAuth"@,
        AuthenticationMethod::CertificateAuth { .. } => "CertificateAuth"@,
    }
}

/// The name of a sign-in method.
pub fn method_name_text(m: &AuthenticationMethod) -> (r: String)
    ensures
        r@ == method_name(*m),
{
    proof {
        reveal_strlit("SamlSso");
        reveal_strlit("OidcProvider");
        reveal_strlit("DirectoryService");
        reveal_strlit("MultiFactorAuth");
        reveal_strlit("CertificateAuth");
    }
    match m {
        AuthenticationMethod::SamlSso { .. } => String::from_str("SamlSso"),
        AuthenticationMethod::OidcProvider { .. } => String::from_str("OidcProvider"),
        AuthenticationMethod::DirectoryService { .. } => String::from_str("DirectoryService"),
        AuthenticationMethod::MultiFactorAuth { .. } => String::from_str("MultiFactorAuth"),
        AuthenticationMethod::CertificateAuth { .. } => String::from_str("CertificateAuth"),
    }
}

/// The first problem among the configured sub-services, if any.
pub open spec fn enterprise_config_problem(c: EnterpriseConfig) -> Option<Seq<char>> {
    match c.saml {
        Some(s) if saml_config_problem(s) is Some => saml_config_problem(s),
        _ => match c.oidc {
            Some(o) if oidc_config_problem(o) is Some => oidc_config_problem(o),
            _ => match c.identity_server {
                Some(i) => identity_config_problem(i),
                None => None,
            },
        },
    }
}

/// The configured sub-services' configurations keep distinct keys.
pub open spec fn enterprise_config_wf(c: EnterpriseConfig) -> bool {
    &&& c.saml matches Some(s) ==> crate::enterprise::saml::config_wf(s)
    &&& c.oidc matches Some(o) ==> crate::enterprise::oidc::config_wf(o)
}

/// The session recorded when `user` completes signing in under `session_id`.
pub open spec fn completed_session(
    s: EnterpriseSession,
    session_id: Seq<char>,
    user: Seq<char>,
    device_id: Option<String>,
    now: u64,
    timeout: u64,
) -> bool {
    &&& s.session_id@ == session_id
    &&& s.user_id@ == user
    &&& s.auth_method matches AuthenticationMethod::SamlSso { provider, assertion_id } && provider@ == "enterprise"@
        && assertion_id@ == session_id
    &&& s.created_at_ms == now
    &&& s.last_activity_ms == now
    &&& s.expires_at_ms == now + timeout
    &&& s.device_id == device_id
    &&& s.client_ip is None
    &&& s.user_agent is None
    &&& !s.mfa_verified
}

/// A session completed at `now` stays valid for the session timeout: a
/// validation at `t` keeps it exactly when `t` is at most `now` plus the
/// timeout (validating moves its last activity, not its expiry).
pub proof fn lemma_session_valid_through_timeout(
    s: EnterpriseSession,
    session_id: Seq<char>,
    user: Seq<char>,
    device_id: Option<String>,
    now: u64,
    timeout: u64,
    t: u64,
)
    requires
        completed_session(s, session_id, user, device_id, now, timeout),
    ensures
        !(t > s.expires_at_ms) <==> t <= now + timeout,
{
}

/// The profile recorded for `user` at `now`: active, with nothing else known.
pub open spec fn fresh_profile(p: EnterpriseUserProfile, user: Seq<char>, now: u64) -> bool {
    &&& p.user_id@ == user
    &&& p.email is None
    &&& p.department is None
    &&& p.title is None
    &&& p.manager is None
    &&& p.employee_id is None
    &&& p.distinguished_name is None
    &&& p.security_groups@.len() == 0
    &&& p.enterprise_roles@.len() == 0
    &&& p.account_status == AccountStatus::Active
    &&& p.updated_at_ms == now
}

/// `a` and `b` are the same sign-in method: the same variant with the same
/// fields, lists compared by their contents.
pub open spec fn same_method(a: AuthenticationMethod, b: AuthenticationMethod) -> bool
    decreases a,
{
    match a {
        AuthenticationMethod::MultiFactorAuth { primary_method: p1, mfa_methods: m1 } => match b {
            AuthenticationMethod::MultiFactorAuth { primary_method: p2, mfa_methods: m2 } => same_method(*p1, *p2)
                && m1@ == m2@,
            _ => false,
        },
        _ => a == b,
    }
}

/// `a` and `b` are the same session: equal fields, the sign-in method and
/// the metadata compared by their contents.
pub open spec fn same_session(a: EnterpriseSession, b: EnterpriseSession) -> bool {
    &&& a.session_id == b.session_id
    &&& a.user_id == b.user_id
    &&& same_method(a.auth_method, b.auth_method)
    &&& a.created_at_ms == b.created_at_ms
    &&& a.last_activity_ms == b.last_activity_ms
    &&& a.expires_at_ms == b.expires_at_ms
    &&& a.device_id == b.device_id
    &&& a.client_ip == b.client_ip
    &&& a.user_agent == b.user_agent
    &&& a.mfa_verified == b.mfa_verified
    &&& a.metadata@ == b.metadata@
}

/// A copy of a sign-in method.
fn copy_method(m: &AuthenticationMethod) -> (r: AuthenticationMethod)
    ensures
        same_method(r, *m),
    decreases m,
{
    match m {
        AuthenticationMethod::SamlSso { provider, assertion_id } => AuthenticationMethod::SamlSso {
            provider: provider.clone(),
            assertion_id: assertion_id.clone(),
        },
        AuthenticationMethod::OidcProvider { provider, token_id } => AuthenticationMethod::OidcProvider {
            provider: provider.clone(),
            token_id: token_id.clone(),
        },
        AuthenticationMethod::DirectoryService { domain, username } => AuthenticationMethod::DirectoryService {
            domain: domain.clone(),
            username: username.clone(),
        },
        AuthenticationMethod::MultiFactorAuth { primary_method, mfa_methods } => AuthenticationMethod::MultiFactorAuth {
            primary_method: Box::new(copy_method(primary_method)),
            mfa_methods: crate::counters::copy_strings(mfa_methods),
        },
        AuthenticationMethod::CertificateAuth { certificate_fingerprint } => AuthenticationMethod::CertificateAuth {
            certificate_fingerprint: certificate_fingerprint.clone(),
        },
    }
}

/// A copy of an optional string.
fn copy_opt(s: &Option<String>) -> (r: Option<String>)
    ensures
        r == *s,
{
    match s {
        Some(x) => Some(x.clone()),
        None => None,
    }
}

/// A copy of a list of key-value pairs.
fn copy_pairs(v: &Vec<(String, String)>) -> (r: Vec<(String, String)>)
    ensures
        r@ == v@,
{
    let mut r: Vec<(String, String)> = Vec::new();
    let mut i: usize = 0;
    while i < v.len()
        invariant
            i <= v@.len(),
            r@ == v@.subrange(0, i as int),
        decreases v@.len() - i,
    {
        let (k, x) = &v[i];
        r.push((k.clone(), x.clone()));
        proof {
            assert(v@.subrange(0, i + 1) =~= v@.subrange(0, i as int).push(v@[i as int]));
        }
        i = i + 1;
    }
    assert(v@.subrange(0, v@.len() as int) =~= v@);
    r
}

/// A copy of a session.
fn copy_session(s: &EnterpriseSession) -> (r: EnterpriseSession)
    ensures
        same_session(r, *s),
{
    EnterpriseSession {
        session_id: s.session_id.clone(),
        user_id: s.user_id.clone(),
        auth_method: copy_method(&s.auth_method),
        created_at_ms: s.created_at_ms,
        last_activity_ms: s.last_activity_ms,
        expires_at_ms: s.expires_at_ms,
        device_id: copy_opt(&s.device_id),
        client_ip: copy_opt(&s.client_ip),
        user_agent: copy_opt(&s.user_agent),
        mfa_verified: s.mfa_verified,
        metadata: copy_pairs(&s.metadata),
    }
}

/// The enterprise integration service.
pub struct EnterpriseIntegrationService {
    enabled: bool,
    session_timeout_ms: u64,
    enable_audit_logging: bool,
    compliance_mode: ComplianceMode,
    saml_service: Option<SamlSsoService>,
    oidc_service: Option<OidcProviderService>,
    identity_service: Option<IdentityServerService>,
    sessions: StrMap<EnterpriseSession>,
    user_profiles: StrMap<EnterpriseUserProfile>,
    audit_events: Vec<AuditEvent>,
}

impl EnterpriseIntegrationService {
    /// Sessions by id.
    pub closed spec fn session_map(&self) -> Map<Seq<char>, EnterpriseSession> {
        self.sessions@
    }

    /// Profiles by user.
    pub closed spec fn profile_map(&self) -> Map<Seq<char>, EnterpriseUserProfile> {
        self.user_profiles@
    }

    /// Audit events produced and not yet taken, oldest first.
    pub closed spec fn pending_events(&self) -> Seq<AuditEvent> {
        self.audit_events@
    }

    /// The session timeout in milliseconds.
    pub closed spec fn timeout(&self) -> u64 {
        self.session_timeout_ms
    }

    /// The SAML service, where one runs.
    pub closed spec fn saml_view(&self) -> Option<SamlSsoService> {
        self.saml_service
    }

    /// The OIDC provider, where one runs.
    pub closed spec fn oidc_view(&self) -> Option<OidcProviderService> {
        self.oidc_service
    }

    /// The identity server, where one runs.
    pub closed spec fn identity_view(&self) -> Option<IdentityServerService> {
        self.identity_service
    }

    /// Whether the service is enabled, whether it logs audit events, and
    /// its compliance mode.
    pub closed spec fn settings(&self) -> (bool, bool, ComplianceMode) {
        (self.enabled, self.enable_audit_logging, self.compliance_mode)
    }

    /// Which sub-services run: SAML, OIDC, identity server.
    pub closed spec fn services_on(&self) -> (bool, bool, bool) {
        (self.saml_service is Some, self.oidc_service is Some, self.identity_service is Some)
    }

    /// Numbers of sessions and profiles.
    pub closed spec fn counts(&self) -> (nat, nat) {
        (self.sessions.spec_len(), self.user_profiles.spec_len())
    }

    /// Every OIDC client can start a sign-in (has a redirect URI).
    pub closed spec fn oidc_ready(&self) -> bool {
        self.oidc_service matches Some(o) ==> forall|k: Seq<char>| #[trigger] o.config_view().clients@.contains_key(k)
            ==> o.config_view().clients@[k].redirect_uris@.len() > 0
    }

    /// Well-formedness of the service and its sub-services.
    pub closed spec fn wf(&self) -> bool {
        &&& self.sessions.wf()
        &&& self.user_profiles.wf()
        &&& self.saml_service matches Some(s) ==> s.wf()
        &&& self.oidc_service matches Some(o) ==> o.wf()
        &&& self.identity_service matches Some(i) ==> i.wf()
    }

    /// A service over `config` at `now`: each configured sub-service is
    /// started from its own configuration, with nothing pending (the first
    /// whose configuration is refused makes this fail), the settings are the
    /// configuration's, there are no sessions or profiles, and a service
    /// start-up event is pending for the audit log.
    pub fn new(config: EnterpriseConfig, now: u64) -> (r: Result<Self, ServiceError>)
        requires
            enterprise_config_wf(config),
        ensures
            match enterprise_config_problem(config) {
                Some(m) => r matches Err(e) && is_error(e, ErrorKind::InvalidParam, m),
                None => r matches Ok(s) && s.wf() && s.counts() == (0nat, 0nat) && s.timeout() == config.session_timeout_ms
                    && s.services_on() == (config.saml is Some, config.oidc is Some, config.identity_server is Some)
                    && s.settings() == (config.enabled, config.enable_audit_logging, config.compliance_mode)
                    && (s.saml_view() matches Some(x) ==> x.config_view() == config.saml->Some_0
                        && x.requests() == Map::<Seq<char>, SamlAuthRequest>::empty() && x.request_count() == 0)
                    && (s.oidc_view() matches Some(x) ==> x.config_view() == config.oidc->Some_0
                        && x.counts() == (0nat, 0nat, 0nat, 0nat))
                    && (s.identity_view() matches Some(x) ==> x.config_view() == config.identity_server->Some_0
                        && x.counts() == (0nat, 0nat, 0nat))
                    && s.pending_events().len() == 1 && (s.pending_events()[0] matches AuditEvent::ServiceStartup {
                    service,
                    timestamp,
                } && service@ == "enterprise_integration"@ && timestamp == now),
            },
    {
        let EnterpriseConfig { enabled, saml, oidc, identity_server, session_timeout_ms, enable_audit_logging, compliance_mode } =
            config;
        let saml_service = match saml {
            Some(c) => match SamlSsoService::new(c) {
                Ok(s) => Some(s),
                Err(e) => {
                    return Err(e);
                },
            },
            None => None,
        };
        let oidc_service = match oidc {
            Some(c) => match OidcProviderService::new(c) {
                Ok(s) => Some(s),
                Err(e) => {
                    return Err(e);
                },
            },
            None => None,
        };
        let identity_service = match identity_server {
            Some(c) => match IdentityServerService::new(c) {
                Ok(s) => Some(s),
                Err(e) => {
                    return Err(e);
                },
            },
            None => None,
        };
        let mut audit_events: Vec<AuditEvent> = Vec::new();
        audit_events.push(
            AuditEvent::ServiceStartup { service: String::from_str("enterprise_integration"), timestamp: now },
        );
        Ok(EnterpriseIntegrationService {
            enabled,
            session_timeout_ms,
            enable_audit_logging,
            compliance_mode,
            saml_service,
            oidc_service,
            identity_service,
            sessions: StrMap::new(),
            user_profiles: StrMap::new(),
            audit_events,
        })
    }

    /// `after` is this service after sign-in `session_id` was started at
    /// `now` with `auth_method` from
    /// `client_ip`, answering `r`: the attempt is recorded for the audit
    /// log; SAML and OIDC sign-ins go to the configured service, which
    /// decides; directory services are not configured; other methods are
    /// refused. Sessions and profiles are untouched.
    pub open spec fn auth_started(
        self,
        after: Self,
        auth_method: AuthenticationMethod,
        client_ip: Option<String>,
        session_id: String,
        now: u64,
        r: Result<String, ServiceError>,
    ) -> bool {
        &&& after.oidc_ready()
        &&& after.session_map() == self.session_map()
        &&& after.profile_map() == self.profile_map()
        &&& after.services_on() == self.services_on()
        &&& after.pending_events().len() == self.pending_events().len() + 1
        &&& after.pending_events().drop_last() == self.pending_events()
        &&& after.pending_events().last() matches AuditEvent::AuthenticationAttempt { session_id: sid, method, client_ip: ip, timestamp }
            && sid@ == session_id@ && method@ == method_name(auth_method) && ip == client_ip && timestamp == now
        &&& r matches Ok(id) ==> id@ == session_id@
        &&& after.saml_view() is Some == self.saml_view() is Some
        &&& after.oidc_view() is Some == self.oidc_view() is Some
        &&& !(auth_method is SamlSso) ==> after.saml_view() == self.saml_view()
        &&& !(auth_method is OidcProvider) ==> after.oidc_view() == self.oidc_view()
        &&& match auth_method {
            AuthenticationMethod::SamlSso { provider, .. } => match self.saml_view() {
                None => r matches Err(e) && is_error(e, ErrorKind::Forbidden, "SAML SSO not configured"@),
                Some(s0) => exists|request_id: Seq<char>, inner: Result<String, ServiceError>| {
                    &&& #[trigger] s0.initiated(after.saml_view()->Some_0, session_id@, provider@, request_id, now, inner)
                    &&& has_prefix(request_id, "saml_req_"@)
                    &&& r == match inner {
                        Ok(_) => Ok::<String, ServiceError>(session_id),
                        Err(e) => Err(e),
                    }
                },
            },
            AuthenticationMethod::OidcProvider { provider, .. } => match self.oidc_view() {
                None => r matches Err(e) && is_error(e, ErrorKind::Forbidden, "OIDC not configured"@),
                Some(o0) => exists|inner: Result<String, ServiceError>| {
                    &&& #[trigger] o0.started(after.oidc_view()->Some_0, session_id@, provider@, now, inner)
                    &&& r == match inner {
                        Ok(_) => Ok::<String, ServiceError>(session_id),
                        Err(e) => Err(e),
                    }
                },
            },
            AuthenticationMethod::DirectoryService { .. } => r matches Err(e) && is_error(
                e,
                ErrorKind::Forbidden,
                "Directory service not configured"@,
            ),
            _ => r matches Err(e) && is_error(e, ErrorKind::InvalidParam, "Unsupported authentication method"@),
        }
    }

    /// Starts signing in with `auth_method` at `now` under `session_id`: an
    /// authentication attempt is recorded for the audit log, then the SAML
    /// or OIDC service starts the sign-in. Methods whose service is not
    /// configured are refused as forbidden; other methods as unsupported.
    #[verifier::spinoff_prover]
    pub fn start_authentication_with(
        &mut self,
        auth_method: AuthenticationMethod,
        client_ip: Option<String>,
        user_agent: Option<String>,
        now: u64,
        session_id: String,
    ) -> (r: Result<String, ServiceError>)
        requires
            old(self).wf(),
            old(self).oidc_ready(),
            now / 1000 < 253_402_300_800,
        ensures
            final(self).wf(),
            old(self).auth_started(*final(self), auth_method, client_ip, session_id, now, r),
    {
        let method_text = method_name_text(&auth_method);
        let ip_copy = copy_opt(&client_ip);
        self.audit_events.push(
            AuditEvent::AuthenticationAttempt {
                session_id: session_id.clone(),
                method: method_text,
                client_ip: ip_copy,
                timestamp: now,
            },
        );
        assert(self.audit_events@.drop_last() =~= old(self).audit_events@);
        match &auth_method {
            AuthenticationMethod::SamlSso { provider, .. } => {
                let mut saml = self.saml_service.take();
                let result = match &mut saml {
                    Some(s) => s.initiate_authentication(session_id.as_str(), provider.as_str(), now),
                    None => Err(make_error(ErrorKind::Forbidden, "SAML SSO not configured")),
                };
                self.saml_service = saml;
                proof {
                    if old(self).saml_service is Some {
                        let s0 = old(self).saml_service->Some_0;
                        let s1 = self.saml_service->Some_0;
                        let rid = choose|rid: Seq<char>|
                            #[trigger] s0.initiated(s1, session_id@, provider@, rid, now, result) && has_prefix(rid, "saml_req_"@);
                        assert(s0.initiated(s1, session_id@, provider@, rid, now, result));
                    }
                }
                match result {
                    Ok(_) => Ok(session_id),
                    Err(e) => Err(e),
                }
            },
            AuthenticationMethod::OidcProvider { provider, .. } => {
                let mut oidc = self.oidc_service.take();
                let result = match &mut oidc {
                    Some(o) => o.initiate_authentication(session_id.as_str(), provider.as_str(), now),
                    None => Err(make_error(ErrorKind::Forbidden, "OIDC not configured")),
                };
                self.oidc_service = oidc;
                proof {
                    if old(self).oidc_service is Some {
                        assert(old(self).oidc_service->Some_0.started(
                            self.oidc_service->Some_0,
                            session_id@,
                            provider@,
                            now,
                            result,
                        ));
                    }
                }
                match result {
                    Ok(_) => Ok(session_id),
                    Err(e) => Err(e),
                }
            },
            AuthenticationMethod::DirectoryService { .. } => Err(
                make_error(ErrorKind::Forbidden, "Directory service not configured"),
            ),
            _ => Err(make_error(ErrorKind::InvalidParam, "Unsupported authentication method")),
        }
    }

    /// Starts signing in under a fresh session id (`ent_auth_`, the time in
    /// seconds, `_` and sixteen random letters and digits); see
    /// `start_authentication_with`.
    pub fn start_authentication(
        &mut self,
        auth_method: AuthenticationMethod,
        client_ip: Option<String>,
        user_agent: Option<String>,
        now: u64,
    ) -> (r: Result<String, ServiceError>)
        requires
            old(self).wf(),
            old(self).oidc_ready(),
            now / 1000 < 253_402_300_800,
        ensures
            final(self).wf(),
            exists|session_id: String|
                #[trigger] old(self).auth_started(*final(self), auth_method, client_ip, session_id, now, r) && has_prefix(
                    session_id@,
                    "ent_auth_"@,
                ),
    {
        let mut session_id = String::from_str("ent_auth_");
        let secs = u64_to_decimal(now / 1000);
        session_id.append(secs.as_str());
        session_id.append("_");
        let tail = random_alphanumeric(16);
        session_id.append(tail.as_str());
        let ghost sid = session_id;
        proof {
            reveal_strlit("ent_auth_");
            assert(sid@.subrange(0, 9) =~= "ent_auth_"@);
        }
        let ghost ip = client_ip;
        let r = self.start_authentication_with(auth_method, client_ip, user_agent, now, session_id);
        proof {
            assert(old(self).auth_started(*self, auth_method, ip, sid, now, r));
        }
        r
    }

    /// Records that `user` completed signing in under `session_id` at
    /// `now`: a session lasting the configured timeout, a fresh active
    /// profile, and an authentication success for the audit log. Returns the
    /// access token the user service created for the login.
    pub fn complete_authentication(
        &mut self,
        session_id: &str,
        user: &str,
        device_id: Option<String>,
        now: u64,
        access_token: String,
    ) -> (t: String)
        requires
            old(self).wf(),
            now + old(self).timeout() <= u64::MAX,
        ensures
            final(self).wf(),
            final(self).oidc_ready() == old(self).oidc_ready(),
            final(self).services_on() == old(self).services_on(),
            final(self).timeout() == old(self).timeout(),
            t == access_token,
            final(self).session_map() == old(self).session_map().insert(session_id@, final(self).session_map()[session_id@]),
            completed_session(final(self).session_map()[session_id@], session_id@, user@, device_id, now, old(self).timeout()),
            final(self).profile_map() == old(self).profile_map().insert(user@, final(self).profile_map()[user@]),
            fresh_profile(final(self).profile_map()[user@], user@, now),
            final(self).pending_events() == old(self).pending_events().push(final(self).pending_events().last()),
            final(self).pending_events().last() matches AuditEvent::AuthenticationSuccess { session_id: sid, user_id, timestamp }
                && sid@ == session_id@ && user_id@ == user@ && timestamp == now,
    {
        let session = EnterpriseSession {
            session_id: String::from_str(session_id),
            user_id: String::from_str(user),
            auth_method: AuthenticationMethod::SamlSso {
                provider: String::from_str("enterprise"),
                assertion_id: String::from_str(session_id),
            },
            created_at_ms: now,
            last_activity_ms: now,
            expires_at_ms: now + self.session_timeout_ms,
            device_id,
            client_ip: None,
            user_agent: None,
            mfa_verified: false,
            metadata: Vec::new(),
        };
        self.sessions.insert(session_id, session);
        self.update_user_profile(user, now);
        self.audit_events.push(
            AuditEvent::AuthenticationSuccess {
                session_id: String::from_str(session_id),
                user_id: String::from_str(user),
                timestamp: now,
            },
        );
        access_token
    }

    /// Records a fresh active profile for `user` at `now`.
    pub fn update_user_profile(&mut self, user: &str, now: u64)
        requires
            old(self).wf(),
        ensures
            final(self).wf(),
            final(self).oidc_ready() == old(self).oidc_ready(),
            final(self).services_on() == old(self).services_on(),
            final(self).timeout() == old(self).timeout(),
            final(self).session_map() == old(self).session_map(),
            final(self).pending_events() == old(self).pending_events(),
            final(self).profile_map() == old(self).profile_map().insert(user@, final(self).profile_map()[user@]),
            fresh_profile(final(self).profile_map()[user@], user@, now),
    {
        let profile = EnterpriseUserProfile {
            user_id: String::from_str(user),
            email: None,
            department: None,
            title: None,
            manager: None,
            employee_id: None,
            distinguished_name: None,
            security_groups: Vec::new(),
            enterprise_roles: Vec::new(),
            account_status: AccountStatus::Active,
            updated_at_ms: now,
        };
        self.user_profiles.insert(user, profile);
    }

    /// Checks session `session_id` at `now`: an unknown session gives
    /// `None`; an expired one is dropped, recorded for the audit log, and
    /// gives `None`; otherwise its last activity becomes `now` and it is
    /// returned.
    pub fn validate_session(&mut self, session_id: &str, now: u64) -> (r: Option<EnterpriseSession>)
        requires
            old(self).wf(),
        ensures
            final(self).wf(),
            final(self).oidc_ready() == old(self).oidc_ready(),
            final(self).services_on() == old(self).services_on(),
            final(self).timeout() == old(self).timeout(),
            final(self).profile_map() == old(self).profile_map(),
            !old(self).session_map().contains_key(session_id@) ==> {
                &&& r is None
                &&& final(self).session_map() == old(self).session_map()
                &&& final(self).pending_events() == old(self).pending_events()
            },
            old(self).session_map().contains_key(session_id@) ==> {
                let s = old(self).session_map()[session_id@];
                if now > s.expires_at_ms {
                    &&& r is None
                    &&& final(self).session_map() == old(self).session_map().remove(session_id@)
                    &&& final(self).pending_events() == old(self).pending_events().push(final(self).pending_events().last())
                    &&& final(self).pending_events().last() matches AuditEvent::SessionExpired { session_id: sid, user_id, timestamp }
                        && sid@ == session_id@ && user_id == s.user_id && timestamp == now
                } else {
                    let t = EnterpriseSession { last_activity_ms: now, ..s };
                    &&& final(self).session_map() == old(self).session_map().insert(session_id@, t)
                    &&& r matches Some(v) && same_session(v, t)
                    &&& final(self).pending_events() == old(self).pending_events()
                }
            },
    {
        let mut session = match self.sessions.remove(session_id) {
            Some(s) => s,
            None => {
                return None;
            },
        };
        if now > session.expires_at_ms {
            self.audit_events.push(
                AuditEvent::SessionExpired {
                    session_id: String::from_str(session_id),
                    user_id: session.user_id,
                    timestamp: now,
                },
            );
            return None;
        }
        session.last_activity_ms = now;
        let result = copy_session(&session);
        self.sessions.insert(session_id, session);
        proof {
            assert(self.sessions@ =~= old(self).sessions@.insert(session_id@, self.sessions@[session_id@]));
        }
        Some(result)
    }

    /// The profile of `user`, if there is one.
    pub fn get_user_profile(&self, user: &str) -> (r: Option<EnterpriseUserProfile>)
        requires
            self.wf(),
        ensures
            !self.profile_map().contains_key(user@) ==> r is None,
            self.profile_map().contains_key(user@) ==> (r matches Some(p) && p.user_id == self.profile_map()[user@].user_id
                && p.account_status == self.profile_map()[user@].account_status && p.updated_at_ms
                == self.profile_map()[user@].updated_at_ms && p.email == self.profile_map()[user@].email),
    {
        match self.user_profiles.get(user) {
            Some(p) => Some(
                EnterpriseUserProfile {
                    user_id: p.user_id.clone(),
                    email: copy_opt(&p.email),
                    department: copy_opt(&p.department),
                    title: copy_opt(&p.title),
                    manager: copy_opt(&p.manager),
                    employee_id: copy_opt(&p.employee_id),
                    distinguished_name: copy_opt(&p.distinguished_name),
                    security_groups: crate::counters::copy_strings(&p.security_groups),
                    enterprise_roles: crate::counters::copy_strings(&p.enterprise_roles),
                    account_status: p.account_status,
                    updated_at_ms: p.updated_at_ms,
                },
            ),
            None => None,
        }
    }

    /// Drops the sessions past their expiry at `now`, recording a session
    /// clean-up for the audit log for each, in the order the sessions are
    /// kept.
    pub fn cleanup_expired_sessions(&mut self, now: u64) -> (removed: usize)
        requires
            old(self).wf(),
        ensures
            final(self).wf(),
            final(self).oidc_ready() == old(self).oidc_ready(),
            final(self).services_on() == old(self).services_on(),
            final(self).timeout() == old(self).timeout(),
            final(self).profile_map() == old(self).profile_map(),
            forall|k: Seq<char>| #[trigger] final(self).session_map().contains_key(k) == (old(self).session_map().contains_key(
                k,
            ) && now <= old(self).session_map()[k].expires_at_ms),
            forall|k: Seq<char>| #[trigger] final(self).session_map().contains_key(k) ==> final(self).session_map()[k]
                == old(self).session_map()[k],
            removed + final(self).counts().0 == old(self).counts().0,
            final(self).pending_events().len() >= old(self).pending_events().len(),
            final(self).pending_events().subrange(0, old(self).pending_events().len() as int) == old(self).pending_events(),
            forall|j: int| old(self).pending_events().len() <= j < final(self).pending_events().len() ==> (
            #[trigger] final(self).pending_events()[j] matches AuditEvent::SessionCleanup { timestamp, .. } && timestamp == now),
    {
        let n = self.sessions.len();
        let mut keep: Vec<bool> = Vec::new();
        let ghost pred = |s: EnterpriseSession| now <= s.expires_at_ms;
        let ghost old_events = self.audit_events@;
        let mut i: usize = 0;
        let mut count: usize = 0;
        while i < n
            invariant
                n == self.sessions.spec_len(),
                self.sessions.wf(),
                self.wf(),
                self.sessions == old(self).sessions,
                self.oidc_ready() == old(self).oidc_ready(),
                self.services_on() == old(self).services_on(),
                self.timeout() == old(self).timeout(),
                self.profile_map() == old(self).profile_map(),
                i <= n,
                count <= i,
                keep@.len() == i,
                pred == (|s: EnterpriseSession| now <= s.expires_at_ms),
                forall|j: int| 0 <= j < i ==> keep@[j] == pred(#[trigger] self.sessions.entries_seq()[j].1),
                self.audit_events@.len() == old_events.len() + count,
                self.audit_events@.subrange(0, old_events.len() as int) == old_events,
                forall|j: int| old_events.len() <= j < self.audit_events@.len() ==> (#[trigger] self.audit_events@[j] matches AuditEvent::SessionCleanup {
                    timestamp,
                    ..
                } && timestamp == now),
            decreases n - i,
        {
            let s = self.sessions.value_at_index(i);
            let expired = now > s.expires_at_ms;
            keep.push(!expired);
            if expired {
                let event = AuditEvent::SessionCleanup {
                    session_id: self.sessions.key_at_index(i).clone(),
                    user_id: s.user_id.clone(),
                    timestamp: now,
                };
                let ghost before = self.audit_events@;
                self.audit_events.push(event);
                assert(self.audit_events@.subrange(0, old_events.len() as int) =~= before.subrange(
                    0,
                    old_events.len() as int,
                ));
                count = count + 1;
            }
            i = i + 1;
        }
        self.sessions.retain_marked(&keep, Ghost(pred))
    }

    /// The audit events produced since the last call, oldest first.
    pub fn take_audit_events(&mut self) -> (events: Vec<AuditEvent>)
        ensures
            events@ == old(self).pending_events(),
            final(self).pending_events().len() == 0,
            final(self).session_map() == old(self).session_map(),
            final(self).profile_map() == old(self).profile_map(),
            final(self).wf() == old(self).wf(),
            final(self).oidc_ready() == old(self).oidc_ready(),
            final(self).services_on() == old(self).services_on(),
            final(self).timeout() == old(self).timeout(),
    {
        let mut events: Vec<AuditEvent> = Vec::new();
        std::mem::swap(&mut events, &mut self.audit_events);
        events
    }

    /// Counters of the service; no directory or multi-factor service runs.
    pub fn get_statistics(&self) -> (s: EnterpriseStatistics)
        requires
            self.wf(),
        ensures
            s.active_sessions == self.counts().0,
            s.registered_users == self.counts().1,
            (s.saml_enabled, s.oidc_enabled, s.identity_server_enabled) == self.services_on(),
            !s.directory_service_enabled,
            !s.mfa_enabled,
    {
        EnterpriseStatistics {
            active_sessions: self.sessions.len(),
            registered_users: self.user_profiles.len(),
            saml_enabled: self.saml_service.is_some(),
            oidc_enabled: self.oidc_service.is_some(),
            identity_server_enabled: self.identity_service.is_some(),
            directory_service_enabled: false,
            mfa_enabled: false,
        }
    }
}

impl Default for EnterpriseConfig {
    fn default() -> (c: Self)
        ensures
            !c.enabled,
            c.saml is None,
            c.oidc is None,
            c.identity_server is None,
            c.session_timeout_ms == 3600000,
            c.enable_audit_logging,
            c.compliance_mode == ComplianceMode::Standard,
    {
        EnterpriseConfig {
            enabled: false,
            saml: None,
            oidc: None,
            identity_server: None,
            session_timeout_ms: 3600000,
            enable_audit_logging: true,
            compliance_mode: ComplianceMode::Standard,
        }
    }
}

} // verus!
