//! Login through an OpenID Connect provider (MSC3861): the authorization
//! redirect with its state and PKCE challenge, the callback's decisions,
//! the mapping of a provider's user to a Matrix user ID, sessions, logout,
//! and counters. The HTTP exchanges with the provider and the user database
//! are the caller's; this module decides what to send and what the answers
//! mean.
use vstd::prelude::*;
use vstd::string::*;

use crate::counters::{copy_opt_string, copy_strings};
use crate::error::{ErrorKind, ServiceError, is_error, make_error, make_error_with};
use crate::external::{
    ascii_alphanumeric,
    base64_url_encode,
    pair_views,
    parse_url,
    random_alphanumeric,
    sha256,
    spec_base64_url,
    spec_parse_url,
    spec_sha256,
    spec_url_with_query,
    spec_user_id_error_text,
    spec_valid_user_id,
    url_with_query,
    user_id_problem,
};
use crate::strmap::StrMap;
use crate::text::{concat2, concat3, has_prefix, occurs_at, occurs_at_exec, str_eq, to_owned};

verus! {

/// Where a login session stands.
#[derive(Debug, Clone, Copy, PartialEq, Eq, Structural)]
pub enum SessionStatus {
    Initiated,
    CodeReceived,
    TokensExchanged,
    Authenticated,
    Expired,
    Revoked,
}

/// The JWT signing algorithms.
#[derive(Debug, Clone, Copy, PartialEq, Eq, Structural)]
pub enum JwtAlgorithm {
    HS256,
    HS384,
    HS512,
    ES256,
    ES384,
    RS256,
    RS384,
    RS512,
    PS256,
    PS384,
    PS512,
    EdDSA,
}

/// The algorithm the service's own JWT keys use: an HMAC algorithm as
/// asked, and HMAC SHA-256 in place of any other (no key pairs are made).
pub open spec fn key_algorithm(a: JwtAlgorithm) -> JwtAlgorithm {
    match a {
        JwtAlgorithm::HS256 | JwtAlgorithm::HS384 | JwtAlgorithm::HS512 => a,
        _ => JwtAlgorithm::HS256,
    }
}

/// The service's own JWT signing keys: the algorithm and the 32-character
/// random secret the HMAC keys are made from.
#[derive(Debug)]
pub struct JwtKeys {
    pub algorithm: JwtAlgorithm,
    pub secret: String,
}

/// Which provider claims make the Matrix user, and the user ID template
/// (with `{sub}`, `{email}` and `{server_name}`).
#[derive(Debug)]
pub struct OidcUserMapping {
    pub user_id_claim: String,
    pub display_name_claim: String,
    pub email_claim: String,
    pub avatar_claim: Option<String>,
    pub user_id_template: String,
}

/// The OIDC configuration; URLs are text, times are milliseconds.
#[derive(Debug)]
pub struct OidcConfig {
    pub enabled: bool,
    pub client_id: String,
    pub client_secret: String,
    pub discovery_url: String,
    pub redirect_uri: String,
    pub default_scopes: Vec<String>,
    pub session_timeout_ms: u64,
    pub code_timeout_ms: u64,
    pub enable_pkce: bool,
    pub jwt_algorithm: JwtAlgorithm,
    pub jwt_issuer: String,
    pub jwt_audience: String,
    pub user_mapping: OidcUserMapping,
    pub auto_provision_users: bool,
}

/// The default configuration: disabled, no client, example URLs, the
/// `openid profile email` scopes, sessions of an hour, codes of ten minutes,
/// PKCE on, HMAC SHA-256 keys, and users `@{sub}:{server_name}` that are
/// provisioned on first login.
pub open spec fn is_default_oidc_config(c: OidcConfig) -> bool {
    &&& !c.enabled
    &&& c.client_id@ == Seq::<char>::empty()
    &&& c.client_secret@ == Seq::<char>::empty()
    &&& c.discovery_url@ == "https://example.com/.well-known/openid_configuration"@
    &&& c.redirect_uri@ == "https://matrix.example.com/_matrix/client/v1/auth/oidc/callback"@
    &&& strings_view(c.default_scopes@) == seq!["openid"@, "profile"@, "email"@]
    &&& c.session_timeout_ms == 3600000
    &&& c.code_timeout_ms == 600000
    &&& c.enable_pkce
    &&& c.jwt_algorithm == JwtAlgorithm::HS256
    &&& c.jwt_issuer@ == "matrixon-matrix-server"@
    &&& c.jwt_audience@ == "matrix-clients"@
    &&& c.user_mapping.user_id_claim@ == "sub"@
    &&& c.user_mapping.display_name_claim@ == "name"@
    &&& c.user_mapping.email_claim@ == "email"@
    &&& opt_chars(c.user_mapping.avatar_claim) == Some("picture"@)
    &&& c.user_mapping.user_id_template@ == "@{sub}:{server_name}"@
    &&& c.auto_provision_users
}

impl Default for OidcConfig {
    fn default() -> (c: Self)
        ensures
            is_default_oidc_config(c),
    {
        let scopes = strings_of(&["openid", "profile", "email"]);
        assert(strings_view(scopes@) =~= seq!["openid"@, "profile"@, "email"@]);
        OidcConfig {
            enabled: false,
            client_id: String::new(),
            client_secret: String::new(),
            discovery_url: String::from_str("https://example.com/.well-known/openid_configuration"),
            redirect_uri: String::from_str("https://matrix.example.com/_matrix/client/v1/auth/oidc/callback"),
            default_scopes: scopes,
            session_timeout_ms: 3600000,
            code_timeout_ms: 600000,
            enable_pkce: true,
            jwt_algorithm: JwtAlgorithm::HS256,
            jwt_issuer: String::from_str("matrixon-matrix-server"),
            jwt_audience: String::from_str("matrix-clients"),
            user_mapping: OidcUserMapping {
                user_id_claim: String::from_str("sub"),
                display_name_claim: String::from_str("name"),
                email_claim: String::from_str("email"),
                avatar_claim: Some(String::from_str("picture")),
                user_id_template: String::from_str("@{sub}:{server_name}"),
            },
            auto_provision_users: true,
        }
    }
}

/// The provider's endpoints and what it supports.
#[derive(Debug)]
pub struct OidcProviderConfig {
    pub issuer: String,
    pub authorization_endpoint: String,
    pub token_endpoint: String,
    pub userinfo_endpoint: String,
    pub jwks_uri: String,
    pub end_session_endpoint: Option<String>,
    pub registration_endpoint: Option<String>,
    pub scopes_supported: Vec<String>,
    pub response_types_supported: Vec<String>,
    pub grant_types_supported: Vec<String>,
    pub subject_types_supported: Vec<String>,
    pub id_token_signing_alg_values_supported: Vec<String>,
    pub claims_supported: Vec<String>,
    pub code_challenge_methods_supported: Vec<String>,
}

/// A login session; times are milliseconds.
#[derive(Debug)]
pub struct OidcSession {
    pub session_id: String,
    pub user_id: Option<String>,
    pub device_id: Option<String>,
    pub state: String,
    pub code_verifier: String,
    pub redirect_uri: String,
    pub scopes: Vec<String>,
    pub created_at_ms: u64,
    pub last_activity_ms: u64,
    pub status: SessionStatus,
    pub oidc_access_token: Option<String>,
    pub oidc_refresh_token: Option<String>,
    pub matrix_access_token: Option<String>,
}

/// A login session as values.
pub struct SessionView {
    pub session_id: Seq<char>,
    pub user_id: Option<Seq<char>>,
    pub device_id: Option<Seq<char>>,
    pub state: Seq<char>,
    pub code_verifier: Seq<char>,
    pub redirect_uri: Seq<char>,
    pub scopes: Seq<Seq<char>>,
    pub created_at_ms: u64,
    pub last_activity_ms: u64,
    pub status: SessionStatus,
    pub oidc_access_token: Option<Seq<char>>,
    pub oidc_refresh_token: Option<Seq<char>>,
    pub matrix_access_token: Option<Seq<char>>,
}

/// The characters of an optional string.
pub open spec fn opt_chars(o: Option<String>) -> Option<Seq<char>> {
    match o {
        Some(s) => Some(s@),
        None => None,
    }
}

/// The characters of each string.
pub open spec fn strings_view(v: Seq<String>) -> Seq<Seq<char>> {
    v.map_values(|s: String| s@)
}

impl View for OidcSession {
    type V = SessionView;

    open spec fn view(&self) -> SessionView {
        SessionView {
            session_id: self.session_id@,
            user_id: opt_chars(self.user_id),
            device_id: opt_chars(self.device_id),
            state: self.state@,
            code_verifier: self.code_verifier@,
            redirect_uri: self.redirect_uri@,
            scopes: strings_view(self.scopes@),
            created_at_ms: self.created_at_ms,
            last_activity_ms: self.last_activity_ms,
            status: self.status,
            oidc_access_token: opt_chars(self.oidc_access_token),
            oidc_refresh_token: opt_chars(self.oidc_refresh_token),
            matrix_access_token: opt_chars(self.matrix_access_token),
        }
    }
}

/// An authorization code waiting to be exchanged; times are milliseconds.
#[derive(Debug)]
pub struct OidcAuthCode {
    pub code: String,
    pub session_id: String,
    pub expires_at_ms: u64,
    pub code_challenge: Option<String>,
    pub code_challenge_method: Option<String>,
}

/// Counters of the service (the last authentication's time in
/// milliseconds is kept under `avg_auth_time`).
#[derive(Debug, Clone, Copy, PartialEq, Eq, Structural)]
pub struct OidcMetrics {
    pub total_auth_attempts: u64,
    pub successful_auths: u64,
    pub failed_auths: u64,
    pub active_sessions: u64,
    pub token_refreshes: u64,
    pub avg_auth_time: u64,
}

/// What the provider sends back to the callback.
#[derive(Debug)]
pub struct OidcCallbackParams {
    pub code: Option<String>,
    pub state: String,
    pub error: Option<String>,
    pub error_description: Option<String>,
}

/// The answer to a completed login.
#[derive(Debug)]
pub struct OidcCallbackResponse {
    pub access_token: String,
    pub device_id: String,
    pub user_id: String,
    pub well_known: Option<String>,
    pub expires_in_ms: Option<u64>,
    pub refresh_token: Option<String>,
}

/// The answer to a logout: where the provider ends its own session.
#[derive(Debug)]
pub struct OidcLogoutResponse {
    pub logout_url: Option<String>,
}

/// The service's OIDC configuration as clients see it.
#[derive(Debug)]
pub struct OidcConfigResponse {
    pub enabled: bool,
    pub issuer: String,
    pub authorization_endpoint: String,
    pub token_endpoint: String,
    pub userinfo_endpoint: String,
    pub jwks_uri: String,
    pub scopes_supported: Vec<String>,
    pub response_types_supported: Vec<String>,
    pub client_id: String,
    pub redirect_uri: String,
}

/// The provider's token answer.
#[derive(Debug)]
pub struct OidcTokenResponse {
    pub access_token: String,
    pub token_type: String,
    pub expires_in: Option<u64>,
    pub refresh_token: Option<String>,
    pub scope: Option<String>,
    pub id_token: Option<String>,
}

/// The provider's description of the user.
#[derive(Debug)]
pub struct OidcUserInfo {
    pub sub: String,
    pub name: Option<String>,
    pub given_name: Option<String>,
    pub family_name: Option<String>,
    pub email: Option<String>,
    pub email_verified: Option<bool>,
    pub picture: Option<String>,
    pub preferred_username: Option<String>,
    pub locale: Option<String>,
}

/// One more, wrapping to zero past `u64::MAX` (as an atomic counter does).
pub open spec fn wrap_inc(x: u64) -> u64 {
    if x == u64::MAX { 0 } else { (x + 1) as u64 }
}

/// `x - k`, wrapping below zero (as an atomic counter does).
pub open spec fn wrap_sub(x: u64, k: u64) -> u64 {
    if x >= k { (x - k) as u64 } else { (0x1_0000_0000_0000_0000 - (k - x)) as u64 }
}

fn wrapping_inc(x: u64) -> (r: u64)
    ensures
        r == wrap_inc(x),
{
    if x == u64::MAX { 0 } else { x + 1 }
}

fn wrapping_sub(x: u64, k: u64) -> (r: u64)
    ensures
        r == wrap_sub(x, k),
{
    if x >= k { x - k } else { (u64::MAX - (k - x)) + 1 }
}

/// `s` with each occurrence of the non-empty `pat` replaced by `rep`, left
/// to right and without overlaps (as `str::replace` does).
pub open spec fn replace_all(s: Seq<char>, pat: Seq<char>, rep: Seq<char>) -> Seq<char>
    decreases s.len(),
{
    if s.len() == 0 || pat.len() == 0 {
        s
    } else if has_prefix(s, pat) {
        rep + replace_all(s.subrange(pat.len() as int, s.len() as int), pat, rep)
    } else {
        seq![s[0]] + replace_all(s.drop_first(), pat, rep)
    }
}

/// `str::replace` for a non-empty pattern.
pub fn replace_str(s: &str, pat: &str, rep: &str) -> (r: String)
    requires
        pat@.len() > 0,
    ensures
        r@ == replace_all(s@, pat@, rep@),
{
    let n = s.unicode_len();
    let pl = pat.unicode_len();
    let mut out = String::new();
    let mut i: usize = 0;
    proof {
        assert(s@.subrange(0, n as int) =~= s@);
        assert(out@ + replace_all(s@, pat@, rep@) =~= replace_all(s@, pat@, rep@));
    }
    while i < n
        invariant
            n == s@.len(),
            pl == pat@.len(),
            pl > 0,
            i <= n,
            replace_all(s@, pat@, rep@) == out@ + replace_all(s@.subrange(i as int, n as int), pat@, rep@),
        decreases n - i,
    {
        let ghost rest = s@.subrange(i as int, n as int);
        if pl <= n - i && occurs_at_exec(s, pat, i, n, pl) {
            proof {
                assert(rest.subrange(0, pl as int) =~= s@.subrange(i as int, i + pl));
                assert(rest.subrange(pl as int, rest.len() as int) =~= s@.subrange(i + pl, n as int));
            }
            out.append(rep);
            i = i + pl;
        } else {
            proof {
                assert(!has_prefix(rest, pat@)) by {
                    if has_prefix(rest, pat@) {
                        assert(rest.subrange(0, pl as int) =~= s@.subrange(i as int, i + pl));
                    }
                }
                assert(rest.drop_first() =~= s@.subrange(i + 1, n as int));
            }
            let one = s.substring_char(i, i + 1);
            proof {
                assert(one@ =~= seq![rest[0]]);
            }
            out.append(one);
            i = i + 1;
        }
        proof {
            assert(out@ + replace_all(s@.subrange(i as int, n as int), pat@, rep@) =~= replace_all(s@, pat@, rep@));
        }
    }
    proof {
        assert(out@ =~= replace_all(s@, pat@, rep@));
    }
    out
}

/// The strings joined with single spaces.
pub open spec fn join_spaced(v: Seq<Seq<char>>) -> Seq<char>
    decreases v.len(),
{
    if v.len() == 0 {
        Seq::empty()
    } else if v.len() == 1 {
        v[0]
    } else {
        join_spaced(v.drop_last()) + " "@ + v.last()
    }
}

/// `v.join(" ")`.
pub fn join_with_spaces(v: &Vec<String>) -> (r: String)
    ensures
        r@ == join_spaced(strings_view(v@)),
{
    let mut out = String::new();
    let mut i: usize = 0;
    proof {
        reveal_strlit(" ");
    }
    while i < v.len()
        invariant
            i <= v@.len(),
            out@ == join_spaced(strings_view(v@.subrange(0, i as int))),
        decreases v@.len() - i,
    {
        proof {
            assert(strings_view(v@.subrange(0, i + 1)).drop_last() =~= strings_view(v@.subrange(0, i as int)));
        }
        if i > 0 {
            out.append(" ");
        }
        out.append(v[i].as_str());
        i = i + 1;
    }
    proof {
        assert(v@.subrange(0, i as int) =~= v@);
    }
    out
}

/// The PKCE S256 challenge of a verifier: the unpadded URL-safe Base64 of
/// the SHA-256 of its UTF-8 bytes.
pub open spec fn code_challenge_of(verifier: Seq<char>) -> Seq<char> {
    spec_base64_url(spec_sha256(vstd::utf8::encode_utf8(verifier)))
}

/// The PKCE S256 challenge of `verifier`.
pub fn generate_code_challenge(verifier: &str) -> (r: String)
    ensures
        r@ == code_challenge_of(verifier@),
{
    let digest = sha256(verifier.as_bytes());
    base64_url_encode(digest.as_slice())
}

/// The Matrix user ID text for a provider's user: the template with its
/// fields filled in, an `@` put in front when it has none, and
/// `:<server name>` appended when it has no colon.
pub open spec fn mapped_user_text(
    template: Seq<char>,
    sub: Seq<char>,
    email: Option<Seq<char>>,
    server_name: Seq<char>,
) -> Seq<char> {
    let t1 = replace_all(template, "{sub}"@, sub);
    let t2 = replace_all(
        t1,
        "{email}"@,
        match email {
            Some(e) => e,
            None => Seq::empty(),
        },
    );
    let t3 = replace_all(t2, "{server_name}"@, server_name);
    let t4 = if t3.len() > 0 && t3[0] == '@' { t3 } else { "@"@ + t3 };
    if t4.contains(':') { t4 } else { t4 + ":"@ + server_name }
}

/// The session a login starts at `now`: session id, state, PKCE verifier
/// (if any) and redirect URI (the configured one when none is given), the
/// configured scopes, and nothing authenticated yet.
pub open spec fn initiated_session(
    c: OidcConfig,
    session_id: Seq<char>,
    state: Seq<char>,
    verifier: Option<Seq<char>>,
    redirect_uri: Option<Seq<char>>,
    now: u64,
) -> SessionView {
    SessionView {
        session_id,
        user_id: None,
        device_id: None,
        state,
        code_verifier: match verifier {
            Some(x) => x,
            None => Seq::empty(),
        },
        redirect_uri: match redirect_uri {
            Some(u) => u,
            None => c.redirect_uri@,
        },
        scopes: strings_view(c.default_scopes@),
        created_at_ms: now,
        last_activity_ms: now,
        status: SessionStatus::Initiated,
        oidc_access_token: None,
        oidc_refresh_token: None,
        matrix_access_token: None,
    }
}

/// The pairs of the authorization request's query, in order.
pub open spec fn authorization_pairs(c: OidcConfig, state: Seq<char>, verifier: Option<Seq<char>>) -> Seq<(Seq<char>, Seq<char>)> {
    seq![
        ("response_type"@, "code"@),
        ("client_id"@, c.client_id@),
        ("redirect_uri"@, c.redirect_uri@),
        ("scope"@, join_spaced(strings_view(c.default_scopes@))),
        ("state"@, state),
    ] + match verifier {
        Some(v) => seq![("code_challenge"@, code_challenge_of(v)), ("code_challenge_method"@, "S256"@)],
        None => Seq::empty(),
    }
}

/// The form of the token request for authorization code `code` of a session
/// whose PKCE verifier is `verifier`.
pub open spec fn token_pairs(c: OidcConfig, code: Seq<char>, verifier: Seq<char>) -> Seq<(Seq<char>, Seq<char>)> {
    seq![
        ("grant_type"@, "authorization_code"@),
        ("code"@, code),
        ("redirect_uri"@, c.redirect_uri@),
        ("client_id"@, c.client_id@),
        ("client_secret"@, c.client_secret@),
    ] + if c.enable_pkce && verifier.len() > 0 {
        seq![("code_verifier"@, verifier)]
    } else {
        Seq::empty()
    }
}

/// The error a provider reported to the callback, as a message.
pub open spec fn provider_error_message(error: Seq<char>, description: Option<Seq<char>>) -> Seq<char> {
    "OIDC error: "@ + error + " - "@ + match description {
        Some(d) => d,
        None => Seq::empty(),
    }
}

/// The new value of an endpoint after discovery: what the provider gave,
/// when it gave a URL.
pub open spec fn discovered(old: Seq<char>, given: Option<Seq<char>>) -> Seq<char> {
    match given {
        Some(t) => match spec_parse_url(t) {
            Some(u) => u,
            None => old,
        },
        None => old,
    }
}

/// The characters of an optional string slice.
pub open spec fn opt_str(o: Option<&str>) -> Option<Seq<char>> {
    match o {
        Some(s) => Some(s@),
        None => None,
    }
}

/// A session has been idle longer than `timeout_ms` at `now`.
pub open spec fn session_expired(s: SessionView, timeout_ms: u64, now: u64) -> bool {
    now > s.last_activity_ms && now - s.last_activity_ms > timeout_ms
}

fn pair(k: &str, v: &str) -> (r: (String, String))
    ensures
        r.0@ == k@,
        r.1@ == v@,
{
    (to_owned(k), to_owned(v))
}

fn strings_of(items: &[&str]) -> (r: Vec<String>)
    ensures
        r@.len() == items@.len(),
        forall|i: int| 0 <= i < items@.len() ==> #[trigger] r@[i]@ == items@[i]@,
{
    let mut out: Vec<String> = Vec::new();
    let mut i: usize = 0;
    while i < items.len()
        invariant
            i <= items@.len(),
            out@.len() == i,
            forall|j: int| 0 <= j < i ==> #[trigger] out@[j]@ == items@[j]@,
        decreases items@.len() - i,
    {
        out.push(to_owned(items[i]));
        i = i + 1;
    }
    out
}

/// The OIDC authentication service. Its parts are open to callers; the
/// operations below keep them well-formed.
pub struct OidcAuthService {
    pub provider_config: OidcProviderConfig,
    pub sessions: StrMap<OidcSession>,
    pub auth_codes: StrMap<OidcAuthCode>,
    pub config: OidcConfig,
    pub metrics: OidcMetrics,
    pub jwt_keys: JwtKeys,
}

impl OidcAuthService {
    /// The sessions by id.
    pub open spec fn session_map(&self) -> Map<Seq<char>, SessionView> {
        self.sessions@.map_values(|s: OidcSession| s@)
    }

    /// Well-formedness: the maps keep distinct keys, each session is filed
    /// under its id, and the authorization endpoint is a URL.
    pub open spec fn wf(&self) -> bool {
        &&& self.sessions.wf()
        &&& self.auth_codes.wf()
        &&& spec_parse_url(self.provider_config.authorization_endpoint@) is Some
        &&& forall|k: Seq<char>| #[trigger] self.sessions@.contains_key(k) ==> self.sessions@[k].session_id@ == k
    }

    /// A service for `config`, whose provider endpoints all start as the
    /// discovery URL (the caller runs discovery when OIDC is enabled), with
    /// no sessions and zero counters.
    pub fn new(config: OidcConfig) -> (s: Self)
        requires
            spec_parse_url(config.discovery_url@) is Some,
        ensures
            s.wf(),
            s.config == config,
            s.session_map() == Map::<Seq<char>, SessionView>::empty(),
            s.auth_codes@ == Map::<Seq<char>, OidcAuthCode>::empty(),
            s.metrics == (OidcMetrics {
                total_auth_attempts: 0,
                successful_auths: 0,
                failed_auths: 0,
                active_sessions: 0,
                token_refreshes: 0,
                avg_auth_time: 0,
            }),
            s.jwt_keys.algorithm == key_algorithm(config.jwt_algorithm),
            s.jwt_keys.secret@.len() == 32,
            s.provider_config.issuer@ == config.discovery_url@,
            s.provider_config.authorization_endpoint@ == config.discovery_url@,
            s.provider_config.token_endpoint@ == config.discovery_url@,
            s.provider_config.userinfo_endpoint@ == config.discovery_url@,
            s.provider_config.jwks_uri@ == config.discovery_url@,
            s.provider_config.end_session_endpoint is None,
            s.provider_config.registration_endpoint is None,
            strings_view(s.provider_config.scopes_supported@) == strings_view(config.default_scopes@),
            strings_view(s.provider_config.response_types_supported@) == seq!["code"@],
            strings_view(s.provider_config.grant_types_supported@) == seq!["authorization_code"@],
            strings_view(s.provider_config.subject_types_supported@) == seq!["public"@],
            strings_view(s.provider_config.id_token_signing_alg_values_supported@) == seq!["RS256"@],
            strings_view(s.provider_config.claims_supported@) == seq!["sub"@, "name"@, "email"@, "picture"@],
            strings_view(s.provider_config.code_challenge_methods_supported@) == seq!["S256"@],
    {
        let d = config.discovery_url.as_str();
        let response_types = strings_of(&["code"]);
        let grant_types = strings_of(&["authorization_code"]);
        let subject_types = strings_of(&["public"]);
        let algs = strings_of(&["RS256"]);
        let claims = strings_of(&["sub", "name", "email", "picture"]);
        let methods = strings_of(&["S256"]);
        let scopes = copy_strings(&config.default_scopes);
        proof {
            assert(strings_view(response_types@) =~= seq!["code"@]);
            assert(strings_view(grant_types@) =~= seq!["authorization_code"@]);
            assert(strings_view(subject_types@) =~= seq!["public"@]);
            assert(strings_view(algs@) =~= seq!["RS256"@]);
            assert(strings_view(claims@) =~= seq!["sub"@, "name"@, "email"@, "picture"@]);
            assert(strings_view(methods@) =~= seq!["S256"@]);
        }
        let provider_config = OidcProviderConfig {
            issuer: to_owned(d),
            authorization_endpoint: to_owned(d),
            token_endpoint: to_owned(d),
            userinfo_endpoint: to_owned(d),
            jwks_uri: to_owned(d),
            end_session_endpoint: None,
            registration_endpoint: None,
            scopes_supported: scopes,
            response_types_supported: response_types,
            grant_types_supported: grant_types,
            subject_types_supported: subject_types,
            id_token_signing_alg_values_supported: algs,
            claims_supported: claims,
            code_challenge_methods_supported: methods,
        };
        let jwt_keys = Self::generate_jwt_keys(&config.jwt_algorithm).unwrap();
        let s = OidcAuthService {
            provider_config,
            sessions: StrMap::new(),
            auth_codes: StrMap::new(),
            config,
            metrics: OidcMetrics {
                total_auth_attempts: 0,
                successful_auths: 0,
                failed_auths: 0,
                active_sessions: 0,
                token_refreshes: 0,
                avg_auth_time: 0,
            },
            jwt_keys,
        };
        assert(s.session_map() =~= Map::<Seq<char>, SessionView>::empty());
        s
    }

    /// A service for `config` as `new` makes it, or `None` when the
    /// discovery URL is no URL. The configuration holds that URL as text; a
    /// URL that does not parse makes no valid configuration, whether or not
    /// sign-in is enabled, so no service is made from it.
    pub fn try_new(config: OidcConfig) -> (r: Option<Self>)
        ensures
            spec_parse_url(config.discovery_url@) is None ==> r is None,
            spec_parse_url(config.discovery_url@) is Some ==> (r matches Some(s) && s.wf() && s.config == config
                && s.session_map() == Map::<Seq<char>, SessionView>::empty()),
    {
        match parse_url(config.discovery_url.as_str()) {
            Some(_) => Some(Self::new(config)),
            None => None,
        }
    }

    /// Keys for configured algorithm `algorithm`: HMAC keys from a fresh
    /// random secret of 32 characters, under the algorithm asked for when it
    /// is an HMAC one and HMAC SHA-256 otherwise (no key pairs are made).
    pub fn generate_jwt_keys(algorithm: &JwtAlgorithm) -> (r: Result<JwtKeys, ServiceError>)
        ensures
            r matches Ok(k) && k.algorithm == key_algorithm(*algorithm) && k.secret@.len() == 32 && forall|i: int|
                0 <= i < 32 ==> ascii_alphanumeric(#[trigger] k.secret@[i]),
    {
        let chosen = match algorithm {
            JwtAlgorithm::HS256 => JwtAlgorithm::HS256,
            JwtAlgorithm::HS384 => JwtAlgorithm::HS384,
            JwtAlgorithm::HS512 => JwtAlgorithm::HS512,
            _ => JwtAlgorithm::HS256,
        };
        Ok(JwtKeys { algorithm: chosen, secret: random_alphanumeric(32) })
    }

    /// Whether session `session_id` exists.
    pub fn has_session(&self, session_id: &str) -> (r: bool)
        requires
            self.wf(),
        ensures
            r == self.session_map().contains_key(session_id@),
    {
        self.sessions.contains_key(session_id)
    }

    /// Starts a login at `now` with session id `session_id`, state `state`
    /// and, when PKCE is on, code verifier `verifier`: the session is stored
    /// and the provider's authorization URL is returned. Refused when OIDC
    /// is disabled.
    pub fn authorize_with(
        &mut self,
        redirect_uri: Option<String>,
        session_id: String,
        state: String,
        verifier: Option<String>,
        now: u64,
    ) -> (r: Result<String, ServiceError>)
        requires
            old(self).wf(),
        ensures
            final(self).wf(),
            final(self).config == old(self).config,
            final(self).provider_config == old(self).provider_config,
            !old(self).config.enabled ==> {
                &&& (r matches Err(e) && is_error(e, ErrorKind::Unknown, "OIDC authentication is not enabled"@))
                &&& final(self).session_map() == old(self).session_map()
                &&& final(self).metrics == old(self).metrics
            },
            old(self).config.enabled ==> {
                let v = if old(self).config.enable_pkce { opt_chars(verifier) } else { None };
                &&& (r matches Ok(url) && url@ == spec_url_with_query(
                    old(self).provider_config.authorization_endpoint@,
                    authorization_pairs(old(self).config, state@, v),
                ))
                &&& final(self).metrics == (OidcMetrics {
                    total_auth_attempts: wrap_inc(old(self).metrics.total_auth_attempts),
                    ..old(self).metrics
                })
                &&& final(self).session_map() == old(self).session_map().insert(
                    session_id@,
                    initiated_session(old(self).config, session_id@, state@, v, opt_chars(redirect_uri), now),
                )
            },
    {
        if !self.config.enabled {
            return Err(make_error(ErrorKind::Unknown, "OIDC authentication is not enabled"));
        }
        self.metrics.total_auth_attempts = wrapping_inc(self.metrics.total_auth_attempts);
        let verifier = if self.config.enable_pkce { verifier } else { None };
        let code_verifier = match &verifier {
            Some(v) => to_owned(v.as_str()),
            None => String::new(),
        };
        let redirect = match redirect_uri {
            Some(u) => u,
            None => to_owned(self.config.redirect_uri.as_str()),
        };
        let scopes = copy_strings(&self.config.default_scopes);
        proof {
            assert(strings_view(scopes@) =~= strings_view(self.config.default_scopes@));
        }
        proof {
            reveal_strlit("response_type");
            reveal_strlit("code");
            reveal_strlit("client_id");
            reveal_strlit("redirect_uri");
            reveal_strlit("scope");
            reveal_strlit("state");
            reveal_strlit("code_challenge");
            reveal_strlit("code_challenge_method");
            reveal_strlit("S256");
        }
        let mut pairs: Vec<(String, String)> = Vec::new();
        pairs.push(pair("response_type", "code"));
        pairs.push(pair("client_id", self.config.client_id.as_str()));
        pairs.push(pair("redirect_uri", self.config.redirect_uri.as_str()));
        let scope = join_with_spaces(&self.config.default_scopes);
        pairs.push(pair("scope", scope.as_str()));
        pairs.push(pair("state", state.as_str()));
        match &verifier {
            Some(v) => {
                let challenge = generate_code_challenge(v.as_str());
                pairs.push(pair("code_challenge", challenge.as_str()));
                pairs.push(pair("code_challenge_method", "S256"));
            },
            None => {},
        }
        proof {
            assert(pair_views(pairs@) =~= authorization_pairs(self.config, state@, opt_chars(verifier)));
        }
        let url = url_with_query(self.provider_config.authorization_endpoint.as_str(), &pairs);
        let session = OidcSession {
            session_id: to_owned(session_id.as_str()),
            user_id: None,
            device_id: None,
            state,
            code_verifier,
            redirect_uri: redirect,
            scopes,
            created_at_ms: now,
            last_activity_ms: now,
            status: SessionStatus::Initiated,
            oidc_access_token: None,
            oidc_refresh_token: None,
            matrix_access_token: None,
        };
        let ghost sv = session@;
        self.sessions.insert(session_id.as_str(), session);
        proof {
            assert(self.session_map() =~= old(self).session_map().insert(session_id@, sv));
        }
        Ok(url)
    }

    /// Starts a login at `now` with a random 32-character session id, a
    /// random 16-character state and, when PKCE is on, a random
    /// 128-character verifier (see `authorize_with`).
    pub fn authorize(&mut self, redirect_uri: Option<String>, now: u64) -> (r: Result<String, ServiceError>)
        requires
            old(self).wf(),
        ensures
            final(self).wf(),
            final(self).config == old(self).config,
            final(self).provider_config == old(self).provider_config,
            !old(self).config.enabled ==> (r matches Err(e) && is_error(e, ErrorKind::Unknown, "OIDC authentication is not enabled"@))
                && final(self).session_map() == old(self).session_map(),
            old(self).config.enabled ==> {
                &&& final(self).metrics == (OidcMetrics {
                    total_auth_attempts: wrap_inc(old(self).metrics.total_auth_attempts),
                    ..old(self).metrics
                })
                &&& exists|sid: Seq<char>, st: Seq<char>, v: Option<Seq<char>>| {
                    &&& sid.len() == 32 && st.len() == 16
                    &&& (if old(self).config.enable_pkce { v matches Some(x) && x.len() == 128 } else { v is None })
                    &&& final(self).session_map() == old(self).session_map().insert(
                        sid,
                        #[trigger] initiated_session(old(self).config, sid, st, v, opt_chars(redirect_uri), now),
                    )
                    &&& r matches Ok(url) && url@ == spec_url_with_query(
                        old(self).provider_config.authorization_endpoint@,
                        authorization_pairs(old(self).config, st, v),
                    )
                }
            },
    {
        let session_id = random_alphanumeric(32);
        let state = random_alphanumeric(16);
        let verifier = if self.config.enable_pkce { Some(random_alphanumeric(128)) } else { None };
        let ghost sid = session_id@;
        let ghost st = state@;
        let ghost v = opt_chars(verifier);
        let ghost rd = opt_chars(redirect_uri);
        let r = self.authorize_with(redirect_uri, session_id, state, verifier, now);
        proof {
            if old(self).config.enabled {
                assert(self.session_map() == old(self).session_map().insert(
                    sid,
                    initiated_session(old(self).config, sid, st, v, rd, now),
                ));
            }
        }
        r
    }

    /// The id of a session whose state is `state`, if any.
    pub fn find_session_by_state(&self, state: &str) -> (r: Option<String>)
        requires
            self.wf(),
        ensures
            match r {
                Some(k) => self.session_map().contains_key(k@) && self.session_map()[k@].state == state@,
                None => forall|k: Seq<char>| #[trigger] self.session_map().contains_key(k) ==> self.session_map()[k].state != state@,
            },
    {
        let n = self.sessions.len();
        let mut i: usize = 0;
        while i < n
            invariant
                self.wf(),
                n == self.sessions.spec_len(),
                i <= n,
                forall|j: int| 0 <= j < i ==> (#[trigger] self.sessions.entries_seq()[j]).1.state@ != state@,
            decreases n - i,
        {
            let sess = self.sessions.value_at_index(i);
            if str_eq(sess.state.as_str(), state) {
                proof {
                    self.sessions.lemma_entry_in_map(i as int);
                }
                return Some(to_owned(self.sessions.key_at_index(i).as_str()));
            }
            i = i + 1;
        }
        proof {
            assert forall|k: Seq<char>| #[trigger] self.session_map().contains_key(k) implies self.session_map()[k].state != state@ by {
                let j = self.sessions.lemma_key_has_entry(k);
                self.sessions.lemma_entry_in_map(j);
            }
        }
        None
    }

    /// The first step of the callback: the session whose state the provider
    /// sent back, and the authorization code. An unknown state, an error the
    /// provider reports (counted as a failed login), or a missing code is
    /// refused.
    pub fn begin_callback(&mut self, params: &OidcCallbackParams) -> (r: Result<(String, String), ServiceError>)
        requires
            old(self).wf(),
        ensures
            final(self).wf(),
            final(self).config == old(self).config,
            final(self).provider_config == old(self).provider_config,
            final(self).session_map() == old(self).session_map(),
            ({
                let known = exists|k: Seq<char>|
                    #[trigger] old(self).session_map().contains_key(k) && old(self).session_map()[k].state == params.state@;
                &&& !known ==> (r matches Err(e) && is_error(e, ErrorKind::Unknown, "Invalid or expired OIDC state"@))
                    && final(self).metrics == old(self).metrics
                &&& (known && params.error is Some) ==> (r matches Err(e) && is_error(
                    e,
                    ErrorKind::Forbidden,
                    provider_error_message(params.error->0@, opt_chars(params.error_description)),
                )) && final(self).metrics == (OidcMetrics {
                    failed_auths: wrap_inc(old(self).metrics.failed_auths),
                    ..old(self).metrics
                })
                &&& (known && params.error is None && params.code is None) ==> (r matches Err(e) && is_error(
                    e,
                    ErrorKind::InvalidParam,
                    "Missing authorization code"@,
                )) && final(self).metrics == old(self).metrics
                &&& (known && params.error is None && params.code is Some) ==> (r matches Ok(p) && old(
                    self,
                ).session_map().contains_key(p.0@) && old(self).session_map()[p.0@].state == params.state@ && p.1@
                    == params.code->0@) && final(self).metrics == old(self).metrics
            }),
    {
        let sid = match self.find_session_by_state(params.state.as_str()) {
            Some(k) => k,
            None => {
                return Err(make_error(ErrorKind::Unknown, "Invalid or expired OIDC state"));
            },
        };
        match &params.error {
            Some(e) => {
                self.metrics.failed_auths = wrapping_inc(self.metrics.failed_auths);
                proof {
                    reveal_strlit("OIDC error: ");
                    reveal_strlit(" - ");
                }
                let head = concat3("OIDC error: ", e.as_str(), " - ");
                let desc = match &params.error_description {
                    Some(d) => d.as_str(),
                    None => "",
                };
                proof {
                    reveal_strlit("");
                }
                return Err(make_error_with(ErrorKind::Forbidden, head.as_str(), desc));
            },
            None => {},
        }
        match &params.code {
            Some(c) => Ok((sid, to_owned(c.as_str()))),
            None => Err(make_error(ErrorKind::InvalidParam, "Missing authorization code")),
        }
    }

    /// The form to post to the token endpoint for authorization code `code`
    /// of session `session_id`; the PKCE verifier goes along when PKCE is on
    /// and the session has one.
    pub fn token_request_params(&self, session_id: &str, code: &str) -> (r: Vec<(String, String)>)
        requires
            self.wf(),
            self.session_map().contains_key(session_id@),
        ensures
            pair_views(r@) == token_pairs(self.config, code@, self.session_map()[session_id@].code_verifier),
    {
        proof {
            reveal_strlit("grant_type");
            reveal_strlit("authorization_code");
            reveal_strlit("code");
            reveal_strlit("redirect_uri");
            reveal_strlit("client_id");
            reveal_strlit("client_secret");
            reveal_strlit("code_verifier");
        }
        let mut pairs: Vec<(String, String)> = Vec::new();
        pairs.push(pair("grant_type", "authorization_code"));
        pairs.push(pair("code", code));
        pairs.push(pair("redirect_uri", self.config.redirect_uri.as_str()));
        pairs.push(pair("client_id", self.config.client_id.as_str()));
        pairs.push(pair("client_secret", self.config.client_secret.as_str()));
        let verifier = match self.sessions.get(session_id) {
            Some(sess) => sess.code_verifier.as_str(),
            None => "",
        };
        if self.config.enable_pkce && verifier.unicode_len() > 0 {
            pairs.push(pair("code_verifier", verifier));
        }
        proof {
            assert(pair_views(pairs@) =~= token_pairs(self.config, code@, self.session_map()[session_id@].code_verifier));
        }
        pairs
    }

    /// The Matrix user ID of the provider's user `sub` (with email `email`)
    /// on server `server_name`, by the configured template; refused when
    /// the result is no valid user ID.
    pub fn map_oidc_user_to_matrix(&self, sub: &str, email: Option<&str>, server_name: &str) -> (r: Result<String, ServiceError>)
        ensures
            ({
                let t = mapped_user_text(self.config.user_mapping.user_id_template@, sub@, opt_str(email), server_name@);
                &&& spec_valid_user_id(t) ==> (r matches Ok(u) && u@ == t)
                &&& !spec_valid_user_id(t) ==> (r matches Err(e) && is_error(
                    e,
                    ErrorKind::InvalidParam,
                    "Invalid Matrix user ID generated: "@ + spec_user_id_error_text(t),
                ))
            }),
    {
        proof {
            reveal_strlit("{sub}");
            reveal_strlit("{email}");
            reveal_strlit("{server_name}");
            reveal_strlit("@");
            reveal_strlit(":");
            reveal_strlit("");
        }
        let t1 = replace_str(self.config.user_mapping.user_id_template.as_str(), "{sub}", sub);
        let e = match email {
            Some(e) => e,
            None => "",
        };
        let t2 = replace_str(t1.as_str(), "{email}", e);
        let t3 = replace_str(t2.as_str(), "{server_name}", server_name);
        let ghost g1 = replace_all(self.config.user_mapping.user_id_template@, "{sub}"@, sub@);
        assert(t1@ == g1);
        assert(e@ == (match opt_str(email) { Some(x) => x, None => Seq::<char>::empty() }));
        assert(t2@ == replace_all(g1, "{email}"@, e@));
        let t4 = if t3.unicode_len() > 0 && t3.as_str().get_char(0) == '@' {
            t3
        } else {
            concat2("@", t3.as_str())
        };
        let has_colon = crate::text::contains_char(t4.as_str(), ':');
        let text = if has_colon {
            t4
        } else {
            concat3(t4.as_str(), ":", server_name)
        };
        assert(text@ == mapped_user_text(self.config.user_mapping.user_id_template@, sub@, opt_str(email), server_name@));
        match user_id_problem(text.as_str()) {
            None => Ok(text),
            Some(m) => {
                proof {
                    reveal_strlit("Invalid Matrix user ID generated: ");
                }
                Err(make_error_with(ErrorKind::InvalidParam, "Invalid Matrix user ID generated: ", m.as_str()))
            },
        }
    }

    /// A new device id: `OIDC_` and 8 random characters.
    pub fn new_device_id() -> (r: String)
        ensures
            r@.len() == 13,
            has_prefix(r@, "OIDC_"@),
            forall|i: int| 5 <= i < 13 ==> ascii_alphanumeric(#[trigger] r@[i]),
    {
        proof {
            reveal_strlit("OIDC_");
        }
        let tail = random_alphanumeric(8);
        let r = concat2("OIDC_", tail.as_str());
        assert(r@.subrange(0, 5) =~= "OIDC_"@);
        assert forall|i: int| 5 <= i < 13 implies ascii_alphanumeric(#[trigger] r@[i]) by {
            assert(r@[i] == tail@[i - 5]);
        }
        r
    }

    /// A new Matrix access token: 64 random characters.
    pub fn new_matrix_access_token() -> (r: String)
        ensures
            r@.len() == 64,
            forall|i: int| 0 <= i < 64 ==> ascii_alphanumeric(#[trigger] r@[i]),
    {
        random_alphanumeric(64)
    }

    /// The last step of the callback, at `now`: session `session_id` now
    /// belongs to Matrix user `user_id` on device `device_id`, holds the
    /// provider's tokens and the Matrix access token, and is authenticated;
    /// the login is counted, taking `auth_time_ms`.
    pub fn complete_callback(
        &mut self,
        session_id: &str,
        user_id: &str,
        device_id: &str,
        tokens: &OidcTokenResponse,
        matrix_access_token: &str,
        auth_time_ms: u64,
        now: u64,
    ) -> (r: OidcCallbackResponse)
        requires
            old(self).wf(),
            old(self).session_map().contains_key(session_id@),
        ensures
            final(self).wf(),
            final(self).config == old(self).config,
            final(self).provider_config == old(self).provider_config,
            final(self).session_map() == old(self).session_map().insert(
                session_id@,
                SessionView {
                    user_id: Some(user_id@),
                    device_id: Some(device_id@),
                    status: SessionStatus::Authenticated,
                    oidc_access_token: Some(tokens.access_token@),
                    oidc_refresh_token: opt_chars(tokens.refresh_token),
                    matrix_access_token: Some(matrix_access_token@),
                    last_activity_ms: now,
                    ..old(self).session_map()[session_id@]
                },
            ),
            final(self).metrics == (OidcMetrics {
                successful_auths: wrap_inc(old(self).metrics.successful_auths),
                active_sessions: wrap_inc(old(self).metrics.active_sessions),
                avg_auth_time: auth_time_ms,
                ..old(self).metrics
            }),
            r.access_token@ == matrix_access_token@,
            r.device_id@ == device_id@,
            r.user_id@ == user_id@,
            r.well_known is None,
            r.expires_in_ms == Some(old(self).config.session_timeout_ms),
            r.refresh_token is None,
    {
        match self.sessions.remove(session_id) {
            Some(mut sess) => {
                sess.user_id = Some(to_owned(user_id));
                sess.device_id = Some(to_owned(device_id));
                sess.status = SessionStatus::Authenticated;
                sess.oidc_access_token = Some(to_owned(tokens.access_token.as_str()));
                sess.oidc_refresh_token = copy_opt_string(&tokens.refresh_token);
                sess.matrix_access_token = Some(to_owned(matrix_access_token));
                sess.last_activity_ms = now;
                let ghost sv = sess@;
                self.sessions.insert(session_id, sess);
                proof {
                    assert(self.session_map() =~= old(self).session_map().insert(session_id@, sv));
                }
            },
            None => {},
        }
        self.metrics.successful_auths = wrapping_inc(self.metrics.successful_auths);
        self.metrics.active_sessions = wrapping_inc(self.metrics.active_sessions);
        self.metrics.avg_auth_time = auth_time_ms;
        OidcCallbackResponse {
            access_token: to_owned(matrix_access_token),
            device_id: to_owned(device_id),
            user_id: to_owned(user_id),
            well_known: None,
            expires_in_ms: Some(self.config.session_timeout_ms),
            refresh_token: None,
        }
    }

    /// The session a logout with Matrix access token `access_token` ends,
    /// with its user and device, if any session holds that token.
    pub fn logout_target(&self, access_token: &str) -> (r: Option<(String, Option<String>, Option<String>)>)
        requires
            self.wf(),
        ensures
            match r {
                Some(t) => {
                    &&& self.session_map().contains_key(t.0@)
                    &&& self.session_map()[t.0@].matrix_access_token == Some(access_token@)
                    &&& opt_chars(t.1) == self.session_map()[t.0@].user_id
                    &&& opt_chars(t.2) == self.session_map()[t.0@].device_id
                },
                None => forall|k: Seq<char>| #[trigger] self.session_map().contains_key(k)
                    ==> self.session_map()[k].matrix_access_token != Some(access_token@),
            },
    {
        let n = self.sessions.len();
        let mut i: usize = 0;
        while i < n
            invariant
                self.wf(),
                n == self.sessions.spec_len(),
                i <= n,
                forall|j: int| 0 <= j < i ==> opt_chars((#[trigger] self.sessions.entries_seq()[j]).1.matrix_access_token) != Some(access_token@),
            decreases n - i,
        {
            let sess = self.sessions.value_at_index(i);
            let found = match &sess.matrix_access_token {
                Some(t) => str_eq(t.as_str(), access_token),
                None => false,
            };
            if found {
                proof {
                    self.sessions.lemma_entry_in_map(i as int);
                }
                return Some((
                    to_owned(self.sessions.key_at_index(i).as_str()),
                    copy_opt_string(&sess.user_id),
                    copy_opt_string(&sess.device_id),
                ));
            }
            i = i + 1;
        }
        proof {
            assert forall|k: Seq<char>| #[trigger] self.session_map().contains_key(k) implies self.session_map()[k].matrix_access_token
                != Some(access_token@) by {
                let j = self.sessions.lemma_key_has_entry(k);
                self.sessions.lemma_entry_in_map(j);
            }
        }
        None
    }

    /// Ends a logout: session `session_id` (the one `logout_target` found,
    /// if any) is removed and one active session less is counted; the answer
    /// carries the provider's end-session URL.
    pub fn finish_logout(&mut self, session_id: Option<&str>) -> (r: OidcLogoutResponse)
        requires
            old(self).wf(),
        ensures
            final(self).wf(),
            final(self).config == old(self).config,
            final(self).provider_config == old(self).provider_config,
            opt_chars(r.logout_url) == opt_chars(old(self).provider_config.end_session_endpoint),
            match session_id {
                Some(id) => if old(self).session_map().contains_key(id@) {
                    &&& final(self).session_map() == old(self).session_map().remove(id@)
                    &&& final(self).metrics == (OidcMetrics {
                        active_sessions: wrap_sub(old(self).metrics.active_sessions, 1),
                        ..old(self).metrics
                    })
                } else {
                    &&& final(self).session_map() == old(self).session_map()
                    &&& final(self).metrics == old(self).metrics
                },
                None => final(self).session_map() == old(self).session_map() && final(self).metrics == old(self).metrics,
            },
    {
        match session_id {
            Some(id) => {
                match self.sessions.remove(id) {
                    Some(_) => {
                        self.metrics.active_sessions = wrapping_sub(self.metrics.active_sessions, 1);
                        proof {
                            assert(self.session_map() =~= old(self).session_map().remove(id@));
                        }
                    },
                    None => {
                        assert(self.session_map() =~= old(self).session_map());
                    },
                }
            },
            None => {},
        }
        OidcLogoutResponse { logout_url: copy_opt_string(&self.provider_config.end_session_endpoint) }
    }

    /// The OIDC configuration clients see; refused when OIDC is disabled.
    pub fn get_config(&self) -> (r: Result<OidcConfigResponse, ServiceError>)
        ensures
            !self.config.enabled ==> (r matches Err(e) && is_error(e, ErrorKind::Unknown, "OIDC authentication is not enabled"@)),
            self.config.enabled ==> (r matches Ok(c) && {
                &&& c.enabled
                &&& c.issuer@ == self.provider_config.issuer@
                &&& c.authorization_endpoint@ == self.provider_config.authorization_endpoint@
                &&& c.token_endpoint@ == self.provider_config.token_endpoint@
                &&& c.userinfo_endpoint@ == self.provider_config.userinfo_endpoint@
                &&& c.jwks_uri@ == self.provider_config.jwks_uri@
                &&& c.scopes_supported@ == self.provider_config.scopes_supported@
                &&& c.response_types_supported@ == self.provider_config.response_types_supported@
                &&& c.client_id@ == self.config.client_id@
                &&& c.redirect_uri@ == self.config.redirect_uri@
            }),
    {
        if !self.config.enabled {
            return Err(make_error(ErrorKind::Unknown, "OIDC authentication is not enabled"));
        }
        Ok(OidcConfigResponse {
            enabled: self.config.enabled,
            issuer: to_owned(self.provider_config.issuer.as_str()),
            authorization_endpoint: to_owned(self.provider_config.authorization_endpoint.as_str()),
            token_endpoint: to_owned(self.provider_config.token_endpoint.as_str()),
            userinfo_endpoint: to_owned(self.provider_config.userinfo_endpoint.as_str()),
            jwks_uri: to_owned(self.provider_config.jwks_uri.as_str()),
            scopes_supported: copy_strings(&self.provider_config.scopes_supported),
            response_types_supported: copy_strings(&self.provider_config.response_types_supported),
            client_id: to_owned(self.config.client_id.as_str()),
            redirect_uri: to_owned(self.config.redirect_uri.as_str()),
        })
    }

    /// Applies what discovery found: each endpoint the provider gave as a
    /// URL replaces the one held.
    pub fn apply_discovery(
        &mut self,
        issuer: Option<&str>,
        authorization_endpoint: Option<&str>,
        token_endpoint: Option<&str>,
        userinfo_endpoint: Option<&str>,
        jwks_uri: Option<&str>,
    )
        requires
            old(self).wf(),
        ensures
            final(self).wf(),
            final(self).config == old(self).config,
            final(self).metrics == old(self).metrics,
            final(self).session_map() == old(self).session_map(),
            final(self).provider_config.issuer@ == discovered(old(self).provider_config.issuer@, opt_str(issuer)),
            final(self).provider_config.authorization_endpoint@ == discovered(
                old(self).provider_config.authorization_endpoint@,
                opt_str(authorization_endpoint),
            ),
            final(self).provider_config.token_endpoint@ == discovered(old(self).provider_config.token_endpoint@, opt_str(token_endpoint)),
            final(self).provider_config.userinfo_endpoint@ == discovered(
                old(self).provider_config.userinfo_endpoint@,
                opt_str(userinfo_endpoint),
            ),
            final(self).provider_config.jwks_uri@ == discovered(old(self).provider_config.jwks_uri@, opt_str(jwks_uri)),
            final(self).provider_config.end_session_endpoint == old(self).provider_config.end_session_endpoint,
            final(self).provider_config.scopes_supported == old(self).provider_config.scopes_supported,
            final(self).provider_config.response_types_supported == old(self).provider_config.response_types_supported,
    {
        match issuer {
            Some(t) => match parse_url(t) {
                Some(u) => { self.provider_config.issuer = u; },
                None => {},
            },
            None => {},
        }
        match authorization_endpoint {
            Some(t) => match parse_url(t) {
                Some(u) => { self.provider_config.authorization_endpoint = u; },
                None => {},
            },
            None => {},
        }
        match token_endpoint {
            Some(t) => match parse_url(t) {
                Some(u) => { self.provider_config.token_endpoint = u; },
                None => {},
            },
            None => {},
        }
        match userinfo_endpoint {
            Some(t) => match parse_url(t) {
                Some(u) => { self.provider_config.userinfo_endpoint = u; },
                None => {},
            },
            None => {},
        }
        match jwks_uri {
            Some(t) => match parse_url(t) {
                Some(u) => { self.provider_config.jwks_uri = u; },
                None => {},
            },
            None => {},
        }
    }

    /// Removes, at `now`, the sessions idle longer than the session
    /// timeout, counting one active session less for each; returns how many
    /// went.
    pub fn cleanup_expired_sessions(&mut self, now: u64) -> (removed: usize)
        requires
            old(self).wf(),
        ensures
            final(self).wf(),
            final(self).config == old(self).config,
            final(self).provider_config == old(self).provider_config,
            forall|k: Seq<char>| #[trigger] final(self).session_map().contains_key(k) == (old(self).session_map().contains_key(k)
                && !session_expired(old(self).session_map()[k], old(self).config.session_timeout_ms, now)),
            forall|k: Seq<char>| #[trigger] final(self).session_map().contains_key(k) ==> final(self).session_map()[k]
                == old(self).session_map()[k],
            removed + final(self).session_map().len() == old(self).session_map().len(),
            final(self).metrics == (OidcMetrics {
                active_sessions: wrap_sub(old(self).metrics.active_sessions, removed as u64),
                ..old(self).metrics
            }),
    {
        proof {
            self.sessions.lemma_len();
            assert(old(self).session_map().dom() =~= old(self).sessions@.dom());
        }
        let timeout = self.config.session_timeout_ms;
        let n = self.sessions.len();
        let ghost pred = |s: OidcSession| !session_expired(s@, timeout, now);
        let mut keep: Vec<bool> = Vec::new();
        let mut i: usize = 0;
        while i < n
            invariant
                n == self.sessions.spec_len(),
                i <= n,
                keep@.len() == i,
                pred == (|s: OidcSession| !session_expired(s@, timeout, now)),
                forall|j: int| 0 <= j < i ==> keep@[j] == pred(#[trigger] self.sessions.entries_seq()[j].1),
            decreases n - i,
        {
            let last = self.sessions.value_at_index(i).last_activity_ms;
            keep.push(!(now > last && now - last > timeout));
            i = i + 1;
        }
        let removed = self.sessions.retain_marked(&keep, Ghost(pred));
        proof {
            self.sessions.lemma_len();
            assert(self.session_map().dom() =~= self.sessions@.dom());
            assert forall|k: Seq<char>| #[trigger] self.sessions@.contains_key(k) implies self.sessions@[k].session_id@ == k by {
                assert(old(self).sessions@.contains_key(k));
            }
        }
        self.metrics.active_sessions = wrapping_sub(self.metrics.active_sessions, removed as u64);
        removed
    }

    /// The counters.
    pub fn get_metrics(&self) -> (m: OidcMetrics)
        ensures
            m == self.metrics,
    {
        self.metrics
    }
}

} // verus!
