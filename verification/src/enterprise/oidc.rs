//! OpenID Connect provider: client configuration checks, authorization
//! requests, authorization codes and their exchange for tokens, and the
//! expiry of codes, tokens and pending requests.
use vstd::prelude::*;
use vstd::string::*;
use vstd::utf8::*;

use crate::error::{ErrorKind, ServiceError, is_error, make_error, make_error_with};
use crate::external::{
    spec_base64, spec_json_string, url_encode_bytes, base64_encode, json_string, new_uuid_v4, url_encode,
};
use crate::strmap::StrMap;
use crate::text::{decimal, has_prefix, str_eq, u64_to_decimal};

verus! {

/// JWT signing algorithms.
#[derive(Debug, Clone, Copy, PartialEq, Eq, Structural)]
pub enum JwtAlgorithm {
    Rs256,
    Rs384,
    Rs512,
    Hs256,
    Hs384,
    Hs512,
}

/// How a client authenticates at the token endpoint.
#[derive(Debug, Clone, Copy, PartialEq, Eq, Structural)]
pub enum TokenEndpointAuthMethod {
    ClientSecretBasic,
    ClientSecretPost,
    ClientSecretJwt,
    PrivateKeyJwt,
    /// No client authentication (a public client).
    PublicClient,
}

/// OAuth 2.0 response types.
#[derive(Debug, Clone, Copy, PartialEq, Eq, Structural)]
pub enum ResponseType {
    Code,
    Token,
    IdToken,
    CodeIdToken,
    CodeToken,
    TokenIdToken,
    CodeTokenIdToken,
}

/// OAuth 2.0 grant types.
#[derive(Debug, Clone, Copy, PartialEq, Eq, Structural)]
pub enum GrantType {
    AuthorizationCode,
    Implicit,
    Password,
    ClientCredentials,
    RefreshToken,
    JwtBearer,
}

/// Configuration of one OIDC client.
#[derive(Debug)]
pub struct OidcClientConfig {
    pub client_id: String,
    pub client_secret: String,
    pub redirect_uris: Vec<String>,
    pub allowed_scopes: Vec<String>,
    pub client_name: String,
    pub authorization_endpoint: String,
    pub token_endpoint: String,
    pub userinfo_endpoint: String,
    pub jwks_endpoint: Option<String>,
    pub discovery_endpoint: Option<String>,
    pub token_endpoint_auth_method: TokenEndpointAuthMethod,
    pub response_types: Vec<ResponseType>,
    pub grant_types: Vec<GrantType>,
    pub pkce_required: bool,
}

/// Which OIDC claim feeds which Matrix user attribute.
#[derive(Debug)]
pub struct OidcAttributeMappings {
    pub user_id: String,
    pub display_name: Option<String>,
    pub email: Option<String>,
    pub given_name: Option<String>,
    pub family_name: Option<String>,
    pub preferred_username: Option<String>,
    pub picture: Option<String>,
    pub locale: Option<String>,
    pub groups: Option<String>,
    pub custom: StrMap<String>,
}

/// How users that sign in through OIDC are provisioned.
#[derive(Debug)]
pub struct OidcUserProvisioningConfig {
    pub auto_create_users: bool,
    pub update_user_attributes: bool,
    pub default_user_type: String,
    pub default_rooms: Vec<String>,
    pub require_email_verification: bool,
}

/// What the discovery document announces.
#[derive(Debug)]
pub struct OidcDiscoveryConfig {
    pub issuer: String,
    pub response_types_supported: Vec<String>,
    pub subject_types_supported: Vec<String>,
    pub id_token_signing_alg_values_supported: Vec<String>,
    pub scopes_supported: Vec<String>,
    pub token_endpoint_auth_methods_supported: Vec<String>,
    pub claims_supported: Vec<String>,
    pub code_challenge_methods_supported: Vec<String>,
}

/// OIDC provider configuration; lifetimes are in seconds.
#[derive(Debug)]
pub struct OidcConfig {
    pub enabled: bool,
    pub clients: StrMap<OidcClientConfig>,
    pub default_client: Option<String>,
    pub signing_algorithm: JwtAlgorithm,
    pub access_token_lifetime_secs: u64,
    pub refresh_token_lifetime_secs: u64,
    pub id_token_lifetime_secs: u64,
    pub authorization_code_lifetime_secs: u64,
    pub supported_scopes: Vec<String>,
    pub attribute_mappings: OidcAttributeMappings,
    pub user_provisioning: OidcUserProvisioningConfig,
    pub discovery_config: OidcDiscoveryConfig,
}

/// A pending authorization request; issued at a time in milliseconds.
#[derive(Debug)]
pub struct OidcAuthRequest {
    pub id: String,
    pub client_id: String,
    pub redirect_uri: String,
    pub response_type: String,
    pub scope: String,
    pub state: Option<String>,
    pub nonce: Option<String>,
    pub code_challenge: Option<String>,
    pub code_challenge_method: Option<String>,
    pub issue_instant_ms: u64,
    pub session_id: String,
}

/// The answer to an authorization response.
#[derive(Debug)]
pub struct OidcAuthResponse {
    pub code: Option<String>,
    pub access_token: Option<String>,
    pub token_type: Option<String>,
    pub id_token: Option<String>,
    pub state: Option<String>,
    pub error: Option<String>,
    pub error_description: Option<String>,
}

/// Tokens handed out for an authorization code.
#[derive(Debug)]
pub struct OidcTokenResponse {
    pub access_token: String,
    pub token_type: String,
    pub expires_in: u64,
    pub refresh_token: Option<String>,
    pub id_token: Option<String>,
    pub scope: Option<String>,
}

/// What an authorization code grants; times in milliseconds.
#[derive(Debug)]
pub struct AuthorizationCodeData {
    pub client_id: String,
    pub redirect_uri: String,
    pub scope: String,
    pub user_id: String,
    pub nonce: Option<String>,
    pub code_challenge: Option<String>,
    pub code_challenge_method: Option<String>,
    pub issued_at_ms: u64,
    pub expires_at_ms: u64,
}

/// What an access token grants; times in milliseconds.
#[derive(Debug)]
pub struct AccessTokenData {
    pub client_id: String,
    pub user_id: String,
    pub scope: String,
    pub issued_at_ms: u64,
    pub expires_at_ms: u64,
}

/// What a refresh token grants; times in milliseconds.
#[derive(Debug)]
pub struct RefreshTokenData {
    pub client_id: String,
    pub user_id: String,
    pub scope: String,
    pub issued_at_ms: u64,
    pub expires_at_ms: u64,
}

/// Counters of the OIDC provider.
#[derive(Debug, Clone, Copy, PartialEq, Eq, Structural)]
pub struct OidcStatistics {
    pub active_requests: usize,
    pub active_authorization_codes: usize,
    pub active_access_tokens: usize,
    pub active_refresh_tokens: usize,
    pub configured_clients: usize,
}

/// The problem with one client's configuration, if any.
pub open spec fn client_problem(key: Seq<char>, c: OidcClientConfig) -> Option<Seq<char>> {
    if c.client_id@ != key {
        Some("Client ID mismatch for client: "@ + key)
    } else if c.redirect_uris@.len() == 0 {
        Some("Client "@ + key + " must have at least one redirect URI"@)
    } else if c.authorization_endpoint@.len() == 0 {
        Some("Client "@ + key + " authorization endpoint is required"@)
    } else if c.token_endpoint@.len() == 0 {
        Some("Client "@ + key + " token endpoint is required"@)
    } else {
        None
    }
}

/// The first problem among the clients from position `i` on.
pub open spec fn client_problem_from(s: Seq<(String, OidcClientConfig)>, i: int) -> Option<Seq<char>>
    decreases s.len() - i,
{
    if i < 0 || i >= s.len() {
        None
    } else {
        match client_problem(s[i].0@, s[i].1) {
            Some(m) => Some(m),
            None => client_problem_from(s, i + 1),
        }
    }
}

/// The message of the error `validate_config` reports, if any.
pub open spec fn oidc_config_problem(c: OidcConfig) -> Option<Seq<char>> {
    if !c.enabled {
        None
    } else if c.clients.spec_len() == 0 {
        Some("At least one OIDC client must be configured"@)
    } else {
        client_problem_from(c.clients.entries_seq(), 0)
    }
}

/// The scope every authorization request asks for.
pub open spec fn default_scope() -> Seq<char> {
    "openid profile email"@
}

/// The URL a client's user is sent to for a request.
pub open spec fn authorization_url(endpoint: Seq<char>, r: OidcAuthRequest) -> Seq<char> {
    endpoint + "?response_type="@ + r.response_type@ + "&client_id="@ + r.client_id@ + "&redirect_uri="@
        + url_encode_bytes(encode_utf8(r.redirect_uri@)) + "&scope="@ + url_encode_bytes(encode_utf8(r.scope@))
        + "&state="@ + r.state->Some_0@ + "&nonce="@ + r.nonce->Some_0@
}

/// The request recorded when `session_id` starts signing in with client
/// `client_id` at `now`.
pub open spec fn request_for(
    client: OidcClientConfig,
    client_id: Seq<char>,
    request_id: Seq<char>,
    nonce: Seq<char>,
    session_id: Seq<char>,
    now: u64,
    r: OidcAuthRequest,
) -> bool {
    &&& r.id@ == request_id
    &&& r.client_id@ == client_id
    &&& r.redirect_uri@ == client.redirect_uris@[0]@
    &&& r.response_type@ == "code"@
    &&& r.scope@ == default_scope()
    &&& r.state matches Some(s) && s@ == session_id
    &&& r.nonce matches Some(n) && n@ == nonce
    &&& r.code_challenge is None
    &&& r.code_challenge_method is None
    &&& r.issue_instant_ms == now
    &&& r.session_id@ == session_id
}

/// A request whose state is `state`.
pub open spec fn has_state(r: OidcAuthRequest, state: Seq<char>) -> bool {
    r.state matches Some(s) && s@ == state
}

/// The code data recorded for request `r` at `now`: ten minutes of validity.
pub open spec fn code_data_for(r: OidcAuthRequest, now: u64, d: AuthorizationCodeData) -> bool {
    &&& d.client_id == r.client_id
    &&& d.redirect_uri == r.redirect_uri
    &&& d.scope == r.scope
    &&& d.user_id@ == "@placeholder:example.com"@
    &&& d.nonce == r.nonce
    &&& d.code_challenge == r.code_challenge
    &&& d.code_challenge_method == r.code_challenge_method
    &&& d.issued_at_ms == now
    &&& d.expires_at_ms == now + 600000
}

/// The JSON text of the ID token claims.
pub open spec fn claims_json(
    iss: Seq<char>,
    sub: Seq<char>,
    aud: Seq<char>,
    exp: nat,
    now_secs: nat,
    jti: Seq<char>,
    nonce: Option<String>,
) -> Seq<char> {
    "{\"iss\":"@ + spec_json_string(iss) + ",\"sub\":"@ + spec_json_string(sub) + ",\"aud\":"@ + spec_json_string(aud)
        + ",\"exp\":"@ + decimal(exp) + ",\"nbf\":"@ + decimal(now_secs) + ",\"iat\":"@ + decimal(now_secs)
        + ",\"jti\":"@ + spec_json_string(jti) + ",\"nonce\":"@ + match nonce {
        Some(n) => spec_json_string(n@),
        None => "null"@,
    } + "}"@
}

/// The ID token for code data `d` at `now` (milliseconds) with token id `jti`.
pub open spec fn id_token_text(c: OidcConfig, d: AuthorizationCodeData, now: u64, jti: Seq<char>) -> Seq<char> {
    let secs = (now / 1000) as nat;
    "eyJ0eXAiOiJKV1QiLCJhbGciOiJIUzI1NiJ9."@ + spec_base64(
        encode_utf8(
            claims_json(
                c.discovery_config.issuer@,
                d.user_id@,
                d.client_id@,
                (secs + c.id_token_lifetime_secs) as nat,
                secs,
                jti,
                d.nonce,
            ),
        ),
    ) + ".signature"@
}

/// The error an exchange of `code` fails with, given the code data taken
/// out (if there was any), if it fails.
pub open spec fn exchange_problem(
    c: OidcConfig,
    client_id: Seq<char>,
    client_secret: Seq<char>,
    code_data: Option<AuthorizationCodeData>,
    redirect_uri: Seq<char>,
    now: u64,
) -> Option<(ErrorKind, Seq<char>)> {
    if !c.clients@.contains_key(client_id) {
        Some((ErrorKind::InvalidParam, "Invalid client ID"@))
    } else if c.clients@[client_id].client_secret@ != client_secret {
        Some((ErrorKind::Forbidden, "Invalid client secret"@))
    } else {
        match code_data {
            None => Some((ErrorKind::InvalidParam, "Invalid or expired authorization code"@)),
            Some(d) => if d.redirect_uri@ != redirect_uri {
                Some((ErrorKind::InvalidParam, "Redirect URI mismatch"@))
            } else if now > d.expires_at_ms {
                Some((ErrorKind::InvalidParam, "Authorization code has expired"@))
            } else {
                None
            },
        }
    }
}

/// The data held for `code`, if it is held.
pub open spec fn code_entry(codes: Map<Seq<char>, AuthorizationCodeData>, code: Seq<char>) -> Option<AuthorizationCodeData> {
    if codes.contains_key(code) {
        Some(codes[code])
    } else {
        None
    }
}

/// Times stay representable: `now` plus any configured lifetime fits.
pub open spec fn times_fit(c: OidcConfig, now: u64) -> bool {
    &&& now + c.access_token_lifetime_secs * 1000 <= u64::MAX
    &&& now + c.refresh_token_lifetime_secs * 1000 <= u64::MAX
    &&& now / 1000 + c.id_token_lifetime_secs <= u64::MAX
}

/// The state a response echoes is the one the caller passed.
pub open spec fn state_echo(echoed: Option<String>, state: Option<&str>) -> bool {
    match state {
        Some(s) => echoed matches Some(t) && t@ == s@,
        None => echoed is None,
    }
}

/// A pending request issued at `issued` has expired at `now` (ten minutes).
pub open spec fn request_expired(issued: u64, now: u64) -> bool {
    now > issued && now - issued > 600000
}

/// Well-formedness of a configuration: its maps keep distinct keys.
pub open spec fn config_wf(c: OidcConfig) -> bool {
    c.clients.wf() && c.attribute_mappings.custom.wf()
}

/// The problem with one client, if any.
fn check_client(key: &String, c: &OidcClientConfig) -> (r: Option<String>)
    ensures
        match r {
            Some(m) => client_problem(key@, *c) == Some(m@),
            None => client_problem(key@, *c) is None,
        },
{
    if c.client_id != *key {
        let mut m = String::from_str("Client ID mismatch for client: ");
        m.append(key.as_str());
        Some(m)
    } else if c.redirect_uris.len() == 0 {
        let mut m = String::from_str("Client ");
        m.append(key.as_str());
        m.append(" must have at least one redirect URI");
        Some(m)
    } else if c.authorization_endpoint.as_str().unicode_len() == 0 {
        let mut m = String::from_str("Client ");
        m.append(key.as_str());
        m.append(" authorization endpoint is required");
        Some(m)
    } else if c.token_endpoint.as_str().unicode_len() == 0 {
        let mut m = String::from_str("Client ");
        m.append(key.as_str());
        m.append(" token endpoint is required");
        Some(m)
    } else {
        None
    }
}

/// A copy of an optional string.
fn copy_opt(s: &Option<String>) -> (r: Option<String>)
    ensures
        r == *s,
{
    match s {
        Some(x) => Some(x.clone()),
        None => None,
    }
}

/// The OIDC provider: configuration, pending requests, authorization codes
/// and issued tokens.
pub struct OidcProviderService {
    config: OidcConfig,
    active_requests: StrMap<OidcAuthRequest>,
    authorization_codes: StrMap<AuthorizationCodeData>,
    access_tokens: StrMap<AccessTokenData>,
    refresh_tokens: StrMap<RefreshTokenData>,
}

impl OidcProviderService {
    /// The configuration.
    pub closed spec fn config_view(&self) -> OidcConfig {
        self.config
    }

    /// Pending requests by id.
    pub closed spec fn requests(&self) -> Map<Seq<char>, OidcAuthRequest> {
        self.active_requests@
    }

    /// Authorization codes not yet exchanged.
    pub closed spec fn codes(&self) -> Map<Seq<char>, AuthorizationCodeData> {
        self.authorization_codes@
    }

    /// Issued access tokens.
    pub closed spec fn access(&self) -> Map<Seq<char>, AccessTokenData> {
        self.access_tokens@
    }

    /// Issued refresh tokens.
    pub closed spec fn refresh(&self) -> Map<Seq<char>, RefreshTokenData> {
        self.refresh_tokens@
    }

    /// `after` is this provider after client `client_id` started signing
    /// in `session_id` at `now`, answering `r`: an unknown client is
    /// refused; otherwise a request under a fresh `oidc_req_` id is recorded
    /// for the client and its authorization URL returned. Codes and tokens
    /// are untouched.
    pub open spec fn started(
        self,
        after: Self,
        session_id: Seq<char>,
        client_id: Seq<char>,
        now: u64,
        r: Result<String, ServiceError>,
    ) -> bool {
        &&& after.config_view() == self.config_view()
        &&& after.codes() == self.codes()
        &&& after.access() == self.access()
        &&& after.refresh() == self.refresh()
        &&& !self.config_view().clients@.contains_key(client_id) ==> {
            &&& r matches Err(e) && is_error(e, ErrorKind::InvalidParam, "Unknown OIDC client: "@ + client_id)
            &&& after.requests() == self.requests()
        }
        &&& self.config_view().clients@.contains_key(client_id) ==> {
            let client = self.config_view().clients@[client_id];
            exists|id: Seq<char>| {
                let req = #[trigger] after.requests()[id];
                &&& after.requests() == self.requests().insert(id, req)
                &&& has_prefix(id, "oidc_req_"@)
                &&& request_for(client, client_id, id, req.nonce->Some_0@, session_id, now, req)
                &&& r matches Ok(url) && url@ == authorization_url(client.authorization_endpoint@, req)
            }
        }
    }

    /// An authorization code is good for one exchange: after an exchange
    /// of it by a client that presented its credentials, a second exchange
    /// of the same code by a client that presents its credentials is
    /// refused as an invalid or expired code, and issues no token.
    pub proof fn lemma_code_single_use(
        s0: Self,
        s1: Self,
        s2: Self,
        code: Seq<char>,
        first: (Seq<char>, Seq<char>, Seq<char>, u64),
        second: (Seq<char>, Seq<char>, Seq<char>, u64),
        tokens1: (Seq<char>, Seq<char>, Seq<char>),
        tokens2: (Seq<char>, Seq<char>, Seq<char>),
        r1: Result<OidcTokenResponse, ServiceError>,
        r2: Result<OidcTokenResponse, ServiceError>,
    )
        requires
            s0.exchanged(s1, code, first.0, first.1, first.2, first.3, tokens1.0, tokens1.1, tokens1.2, r1),
            s1.exchanged(s2, code, second.0, second.1, second.2, second.3, tokens2.0, tokens2.1, tokens2.2, r2),
            s0.config_view().clients@.contains_key(first.0),
            s0.config_view().clients@[first.0].client_secret@ == first.1,
            s0.config_view().clients@.contains_key(second.0),
            s0.config_view().clients@[second.0].client_secret@ == second.1,
        ensures
            r2 matches Err(e) && is_error(e, ErrorKind::InvalidParam, "Invalid or expired authorization code"@),
            s2.access() == s1.access(),
            s2.refresh() == s1.refresh(),
    {
        assert(!s1.codes().contains_key(code));
    }

    /// `after` is this provider after an exchange of `code` by `client_id`
    /// with `client_secret` and `redirect_uri` at `now` that answered `r`,
    /// naming the tokens `access_token` and `refresh_token` and the ID
    /// token `jti`: the code is used up once the client presented its
    /// credentials; a refused exchange issues nothing; a granted one issues
    /// both tokens for the code's user and scope.
    pub open spec fn exchanged(
        self,
        after: Self,
        code: Seq<char>,
        client_id: Seq<char>,
        client_secret: Seq<char>,
        redirect_uri: Seq<char>,
        now: u64,
        access_token: Seq<char>,
        refresh_token: Seq<char>,
        jti: Seq<char>,
        r: Result<OidcTokenResponse, ServiceError>,
    ) -> bool {
        let c = self.config_view();
        let data = code_entry(self.codes(), code);
        let client_ok = c.clients@.contains_key(client_id) && c.clients@[client_id].client_secret@ == client_secret;
        &&& after.config_view() == c
        &&& after.requests() == self.requests()
        &&& client_ok ==> after.codes() == self.codes().remove(code)
        &&& !client_ok ==> after.codes() == self.codes()
        &&& match exchange_problem(c, client_id, client_secret, data, redirect_uri, now) {
            Some((k, m)) => {
                &&& r matches Err(e) && is_error(e, k, m)
                &&& after.access() == self.access()
                &&& after.refresh() == self.refresh()
            },
            None => {
                let d = data->Some_0;
                &&& r matches Ok(t) && t.access_token@ == access_token && t.token_type@ == "Bearer"@
                    && t.expires_in == c.access_token_lifetime_secs && (t.refresh_token matches Some(x) && x@ == refresh_token)
                    && (t.id_token matches Some(id) && id@ == id_token_text(c, d, now, jti)) && t.scope == Some(d.scope)
                &&& after.access() == self.access().insert(
                    access_token,
                    AccessTokenData {
                        client_id: d.client_id,
                        user_id: d.user_id,
                        scope: d.scope,
                        issued_at_ms: now,
                        expires_at_ms: (now + c.access_token_lifetime_secs * 1000) as u64,
                    },
                )
                &&& after.refresh() == self.refresh().insert(
                    refresh_token,
                    RefreshTokenData {
                        client_id: d.client_id,
                        user_id: d.user_id,
                        scope: d.scope,
                        issued_at_ms: now,
                        expires_at_ms: (now + c.refresh_token_lifetime_secs * 1000) as u64,
                    },
                )
            },
        }
    }

    /// Number of pending requests, codes, access and refresh tokens.
    pub closed spec fn counts(&self) -> (nat, nat, nat, nat) {
        (
            self.active_requests.spec_len(),
            self.authorization_codes.spec_len(),
            self.access_tokens.spec_len(),
            self.refresh_tokens.spec_len(),
        )
    }

    /// Well-formedness: maps keep distinct keys, and each pending request is
    /// kept under its own id.
    pub closed spec fn wf(&self) -> bool {
        &&& config_wf(self.config)
        &&& self.active_requests.wf()
        &&& self.authorization_codes.wf()
        &&& self.access_tokens.wf()
        &&& self.refresh_tokens.wf()
        &&& forall|k: Seq<char>| #[trigger] self.active_requests@.contains_key(k) ==> self.active_requests@[k].id@ == k
    }

    /// Checks a configuration: a disabled one always passes; an enabled one
    /// needs at least one client, each stored under its own id, with a
    /// redirect URI, an authorization endpoint and a token endpoint.
    pub fn validate_config(config: &OidcConfig) -> (r: Result<(), ServiceError>)
        requires
            config_wf(*config),
        ensures
            match oidc_config_problem(*config) {
                None => r is Ok,
                Some(m) => r matches Err(e) && is_error(e, ErrorKind::InvalidParam, m),
            },
    {
        if !config.enabled {
            return Ok(());
        }
        let n = config.clients.len();
        if n == 0 {
            return Err(make_error(ErrorKind::InvalidParam, "At least one OIDC client must be configured"));
        }
        let ghost s = config.clients.entries_seq();
        let mut i: usize = 0;
        while i < n
            invariant
                n == s.len(),
                s == config.clients.entries_seq(),
                i <= n,
                client_problem_from(s, 0) == client_problem_from(s, i as int),
                oidc_config_problem(*config) == client_problem_from(s, 0),
            decreases n - i,
        {
            let key = config.clients.key_at_index(i);
            let c = config.clients.value_at_index(i);
            match check_client(key, c) {
                Some(m) => {
                    assert(client_problem_from(s, i as int) == Some(m@));
                    return Err(ServiceError { kind: ErrorKind::InvalidParam, message: m });
                },
                None => {
                    assert(client_problem_from(s, i as int) == client_problem_from(s, i + 1));
                },
            }
            i = i + 1;
        }
        assert(client_problem_from(s, n as int) is None);
        Ok(())
    }

    /// A provider over a configuration that passes `validate_config`, with
    /// nothing pending or issued.
    pub fn new(config: OidcConfig) -> (r: Result<Self, ServiceError>)
        requires
            config_wf(config),
        ensures
            match oidc_config_problem(config) {
                None => r matches Ok(s) && s.wf() && s.config_view() == config && s.counts() == (0nat, 0nat, 0nat, 0nat),
                Some(m) => r matches Err(e) && is_error(e, ErrorKind::InvalidParam, m),
            },
    {
        match Self::validate_config(&config) {
            Err(e) => Err(e),
            Ok(()) => Ok(OidcProviderService {
                config,
                active_requests: StrMap::new(),
                authorization_codes: StrMap::new(),
                access_tokens: StrMap::new(),
                refresh_tokens: StrMap::new(),
            }),
        }
    }

    /// Starts signing in `session_id` with client `client_id` at `now`
    /// under `request_id` and `nonce`: records a code-flow request for the
    /// client's first redirect URI and the default scope, and returns the
    /// authorization URL.
    pub fn initiate_authentication_with(
        &mut self,
        session_id: &str,
        client_id: &str,
        request_id: String,
        nonce: String,
        now: u64,
    ) -> (r: Result<String, ServiceError>)
        requires
            old(self).wf(),
            old(self).config_view().clients@.contains_key(client_id@) ==> old(
                self,
            ).config_view().clients@[client_id@].redirect_uris@.len() > 0,
        ensures
            final(self).wf(),
            final(self).config_view() == old(self).config_view(),
            final(self).codes() == old(self).codes(),
            final(self).access() == old(self).access(),
            final(self).refresh() == old(self).refresh(),
            !old(self).config_view().clients@.contains_key(client_id@) ==> {
                &&& r matches Err(e) && is_error(e, ErrorKind::InvalidParam, "Unknown OIDC client: "@ + client_id@)
                &&& final(self).requests() == old(self).requests()
            },
            old(self).config_view().clients@.contains_key(client_id@) ==> {
                let client = old(self).config_view().clients@[client_id@];
                let req = final(self).requests()[request_id@];
                &&& final(self).requests() == old(self).requests().insert(request_id@, req)
                &&& request_for(client, client_id@, request_id@, nonce@, session_id@, now, req)
                &&& r matches Ok(url) && url@ == authorization_url(client.authorization_endpoint@, req)
            },
    {
        let client = match self.config.clients.get(client_id) {
            Some(c) => c,
            None => {
                return Err(make_error_with(ErrorKind::InvalidParam, "Unknown OIDC client: ", client_id));
            },
        };
        let request = OidcAuthRequest {
            id: request_id.clone(),
            client_id: String::from_str(client_id),
            redirect_uri: client.redirect_uris[0].clone(),
            response_type: String::from_str("code"),
            scope: String::from_str("openid profile email"),
            state: Some(String::from_str(session_id)),
            nonce: Some(nonce.clone()),
            code_challenge: None,
            code_challenge_method: None,
            issue_instant_ms: now,
            session_id: String::from_str(session_id),
        };
        let mut url = client.authorization_endpoint.clone();
        url.append("?response_type=");
        url.append(request.response_type.as_str());
        url.append("&client_id=");
        url.append(request.client_id.as_str());
        url.append("&redirect_uri=");
        let redirect = url_encode(request.redirect_uri.as_str());
        url.append(redirect.as_str());
        url.append("&scope=");
        let scope = url_encode(request.scope.as_str());
        url.append(scope.as_str());
        url.append("&state=");
        url.append(session_id);
        url.append("&nonce=");
        url.append(nonce.as_str());
        let ghost old_requests = self.active_requests@;
        self.active_requests.insert(request_id.as_str(), request);
        proof {
            assert forall|k: Seq<char>| #[trigger] self.active_requests@.contains_key(k) implies self.active_requests@[k].id@
                == k by {
                if k != request_id@ {
                    assert(old_requests.contains_key(k));
                }
            }
        }
        Ok(url)
    }

    /// Starts signing in `session_id` with client `client_id` at `now`
    /// under a fresh request id (`oidc_req_`, the time in seconds, `_` and
    /// a random UUID) and a random nonce; see `initiate_authentication_with`.
    pub fn initiate_authentication(&mut self, session_id: &str, client_id: &str, now: u64) -> (r: Result<
        String,
        ServiceError,
    >)
        requires
            old(self).wf(),
            old(self).config_view().clients@.contains_key(client_id@) ==> old(
                self,
            ).config_view().clients@[client_id@].redirect_uris@.len() > 0,
        ensures
            final(self).wf(),
            old(self).started(*final(self), session_id@, client_id@, now, r),
    {
        let mut request_id = String::from_str("oidc_req_");
        let secs = u64_to_decimal(now / 1000);
        request_id.append(secs.as_str());
        request_id.append("_");
        let uuid = new_uuid_v4();
        request_id.append(uuid.as_str());
        let nonce = new_uuid_v4();
        let ghost id = request_id@;
        let ghost n = nonce@;
        proof {
            reveal_strlit("oidc_req_");
            assert(id.subrange(0, 9) =~= "oidc_req_"@);
        }
        let r = self.initiate_authentication_with(session_id, client_id, request_id, nonce, now);
        proof {
            if old(self).config_view().clients@.contains_key(client_id@) {
                let req = self.requests()[id];
                assert(request_for(old(self).config_view().clients@[client_id@], client_id@, id, n, session_id@, now, req));
            }
        }
        r
    }

    /// Index of the first pending request whose state is `state`.
    fn find_request_by_state(&self, state: &str) -> (r: Option<usize>)
        requires
            self.wf(),
        ensures
            match r {
                Some(i) => i < self.active_requests.spec_len() && has_state(
                    self.active_requests.entries_seq()[i as int].1,
                    state@,
                ),
                None => forall|k: Seq<char>| #[trigger] self.requests().contains_key(k) ==> !has_state(
                    self.requests()[k],
                    state@,
                ),
            },
    {
        let n = self.active_requests.len();
        let mut i: usize = 0;
        while i < n
            invariant
                n == self.active_requests.spec_len(),
                i <= n,
                forall|j: int| 0 <= j < i ==> !has_state(#[trigger] self.active_requests.entries_seq()[j].1, state@),
            decreases n - i,
        {
            let req = self.active_requests.value_at_index(i);
            let matches = match &req.state {
                Some(s) => str_eq(s.as_str(), state),
                None => false,
            };
            if matches {
                return Some(i);
            }
            i = i + 1;
        }
        proof {
            assert forall|k: Seq<char>| #[trigger] self.requests().contains_key(k) implies !has_state(
                self.requests()[k],
                state@,
            ) by {
                let j = self.active_requests.lemma_key_has_entry(k);
                self.active_requests.lemma_entry_in_map(j);
            }
        }
        None
    }

    /// Handles the authorization response for `code` at `now`. An `error`
    /// is passed back with "Authorization failed". Otherwise the pending
    /// request whose state is `state` (the empty text when there is none)
    /// is completed: `code` is recorded for ten minutes with the request's
    /// client, redirect URI, scope and nonce, and the request is dropped.
    pub fn process_authorization_response(
        &mut self,
        code: &str,
        state: Option<&str>,
        error: Option<&str>,
        now: u64,
    ) -> (r: Result<OidcAuthResponse, ServiceError>)
        requires
            old(self).wf(),
            now <= u64::MAX - 600000,
        ensures
            final(self).wf(),
            final(self).config_view() == old(self).config_view(),
            final(self).access() == old(self).access(),
            final(self).refresh() == old(self).refresh(),
            error matches Some(err) ==> {
                &&& r matches Ok(resp) && resp.code is None && resp.access_token is None && resp.token_type is None
                    && resp.id_token is None && (resp.error matches Some(e) && e@ == err@) && (
                resp.error_description matches Some(d) && d@ == "Authorization failed"@) && state_echo(resp.state, state)
                &&& final(self).requests() == old(self).requests()
                &&& final(self).codes() == old(self).codes()
            },
            error is None ==> {
                let wanted = match state {
                    Some(s) => s@,
                    None => Seq::<char>::empty(),
                };
                if exists|k: Seq<char>| #[trigger] old(self).requests().contains_key(k) && has_state(old(self).requests()[k], wanted) {
                    &&& r matches Ok(resp) && (resp.code matches Some(c) && c@ == code@) && resp.error is None
                        && state_echo(resp.state, state)
                    &&& exists|k: Seq<char>| {
                        &&& #[trigger] old(self).requests().contains_key(k)
                        &&& has_state(old(self).requests()[k], wanted)
                        &&& final(self).requests() == old(self).requests().remove(k)
                        &&& final(self).codes().contains_key(code@)
                        &&& final(self).codes() == old(self).codes().insert(code@, final(self).codes()[code@])
                        &&& code_data_for(old(self).requests()[k], now, final(self).codes()[code@])
                    }
                } else {
                    &&& r matches Err(e) && is_error(e, ErrorKind::InvalidParam, "No matching OIDC request found"@)
                    &&& final(self).requests() == old(self).requests()
                    &&& final(self).codes() == old(self).codes()
                }
            },
    {
        let state_copy = match state {
            Some(s) => Some(String::from_str(s)),
            None => None,
        };
        match error {
            Some(err) => {
                return Ok(OidcAuthResponse {
                    code: None,
                    access_token: None,
                    token_type: None,
                    id_token: None,
                    state: state_copy,
                    error: Some(String::from_str(err)),
                    error_description: Some(String::from_str("Authorization failed")),
                });
            },
            None => {},
        }
        let wanted: &str = match state {
            Some(s) => s,
            None => "",
        };
        proof {
            reveal_strlit("");
            assert(""@ =~= Seq::<char>::empty());
        }
        let i = match self.find_request_by_state(wanted) {
            Some(i) => i,
            None => {
                return Err(make_error(ErrorKind::InvalidParam, "No matching OIDC request found"));
            },
        };
        let ghost key = self.active_requests.entries_seq()[i as int].0@;
        proof {
            self.active_requests.lemma_entry_in_map(i as int);
        }
        let req = self.active_requests.value_at_index(i);
        let data = AuthorizationCodeData {
            client_id: req.client_id.clone(),
            redirect_uri: req.redirect_uri.clone(),
            scope: req.scope.clone(),
            user_id: String::from_str("@placeholder:example.com"),
            nonce: copy_opt(&req.nonce),
            code_challenge: copy_opt(&req.code_challenge),
            code_challenge_method: copy_opt(&req.code_challenge_method),
            issued_at_ms: now,
            expires_at_ms: now + 600000,
        };
        let request_id = req.id.clone();
        let ghost old_requests = self.active_requests@;
        self.authorization_codes.insert(code, data);
        self.active_requests.remove(request_id.as_str());
        proof {
            assert(request_id@ == key);
            assert forall|k: Seq<char>| #[trigger] self.active_requests@.contains_key(k) implies self.active_requests@[k].id@
                == k by {
                assert(old_requests.contains_key(k));
            }
            assert(old(self).requests().contains_key(key) && has_state(old(self).requests()[key], wanted@));
            assert(self.authorization_codes@.contains_key(code@));
            assert(code_data_for(old_requests[key], now, self.authorization_codes@[code@]));
        }
        Ok(OidcAuthResponse {
            code: Some(String::from_str(code)),
            access_token: None,
            token_type: None,
            id_token: None,
            state: state_copy,
            error: None,
            error_description: None,
        })
    }

    /// The ID token for code data `data` at `now` with token id `jti`: a
    /// fixed JWT header, the Base64 of the claims' JSON, and a placeholder
    /// signature.
    pub fn generate_id_token(&self, data: &AuthorizationCodeData, now: u64, jti: &str) -> (t: String)
        requires
            now / 1000 + self.config_view().id_token_lifetime_secs <= u64::MAX,
        ensures
            t@ == id_token_text(self.config_view(), *data, now, jti@),
    {
        let secs = now / 1000;
        let exp = secs + self.config.id_token_lifetime_secs;
        let mut json = String::from_str("{\"iss\":");
        let iss = json_string(self.config.discovery_config.issuer.as_str());
        json.append(iss.as_str());
        json.append(",\"sub\":");
        let sub = json_string(data.user_id.as_str());
        json.append(sub.as_str());
        json.append(",\"aud\":");
        let aud = json_string(data.client_id.as_str());
        json.append(aud.as_str());
        json.append(",\"exp\":");
        let exp_text = u64_to_decimal(exp);
        json.append(exp_text.as_str());
        json.append(",\"nbf\":");
        let now_text = u64_to_decimal(secs);
        json.append(now_text.as_str());
        json.append(",\"iat\":");
        json.append(now_text.as_str());
        json.append(",\"jti\":");
        let jti_text = json_string(jti);
        json.append(jti_text.as_str());
        json.append(",\"nonce\":");
        match &data.nonce {
            Some(n) => {
                let nonce_text = json_string(n.as_str());
                json.append(nonce_text.as_str());
            },
            None => {
                json.append("null");
            },
        }
        json.append("}");
        let bytes = json.as_str().as_bytes_vec();
        let encoded = base64_encode(bytes.as_slice());
        let mut token = String::from_str("eyJ0eXAiOiJKV1QiLCJhbGciOiJIUzI1NiJ9.");
        token.append(encoded.as_str());
        token.append(".signature");
        token
    }

    /// Exchanges `code` for tokens at `now`, issuing `access_token` and
    /// `refresh_token` and an ID token with id `jti`. The client must exist
    /// and present its secret; the code is then used up whatever follows,
    /// and it must exist, name the same redirect URI, and not have expired.
    pub fn exchange_code_for_tokens_with(
        &mut self,
        code: &str,
        client_id: &str,
        client_secret: &str,
        redirect_uri: &str,
        now: u64,
        access_token: String,
        refresh_token: String,
        jti: &str,
    ) -> (r: Result<OidcTokenResponse, ServiceError>)
        requires
            old(self).wf(),
            times_fit(old(self).config_view(), now),
        ensures
            final(self).wf(),
            old(self).exchanged(
                *final(self),
                code@,
                client_id@,
                client_secret@,
                redirect_uri@,
                now,
                access_token@,
                refresh_token@,
                jti@,
                r,
            ),
    {
        let client = match self.config.clients.get(client_id) {
            Some(c) => c,
            None => {
                return Err(make_error(ErrorKind::InvalidParam, "Invalid client ID"));
            },
        };
        if !str_eq(client.client_secret.as_str(), client_secret) {
            return Err(make_error(ErrorKind::Forbidden, "Invalid client secret"));
        }
        let data = match self.authorization_codes.remove(code) {
            Some(d) => d,
            None => {
                return Err(make_error(ErrorKind::InvalidParam, "Invalid or expired authorization code"));
            },
        };
        if !str_eq(data.redirect_uri.as_str(), redirect_uri) {
            return Err(make_error(ErrorKind::InvalidParam, "Redirect URI mismatch"));
        }
        if now > data.expires_at_ms {
            return Err(make_error(ErrorKind::InvalidParam, "Authorization code has expired"));
        }
        let id_token = self.generate_id_token(&data, now, jti);
        let access_expires = now + self.config.access_token_lifetime_secs * 1000;
        let refresh_expires = now + self.config.refresh_token_lifetime_secs * 1000;
        self.access_tokens.insert(
            access_token.as_str(),
            AccessTokenData {
                client_id: data.client_id.clone(),
                user_id: data.user_id.clone(),
                scope: data.scope.clone(),
                issued_at_ms: now,
                expires_at_ms: access_expires,
            },
        );
        self.refresh_tokens.insert(
            refresh_token.as_str(),
            RefreshTokenData {
                client_id: data.client_id.clone(),
                user_id: data.user_id.clone(),
                scope: data.scope.clone(),
                issued_at_ms: now,
                expires_at_ms: refresh_expires,
            },
        );
        Ok(OidcTokenResponse {
            access_token,
            token_type: String::from_str("Bearer"),
            expires_in: self.config.access_token_lifetime_secs,
            refresh_token: Some(refresh_token),
            id_token: Some(id_token),
            scope: Some(data.scope),
        })
    }

    /// Exchanges `code` for tokens at `now` under fresh token names
    /// (`oidc_access_` / `oidc_refresh_`, the time in seconds, `_` and a
    /// random UUID) and a random token id; see
    /// `exchange_code_for_tokens_with`.
    pub fn exchange_code_for_tokens(
        &mut self,
        code: &str,
        client_id: &str,
        client_secret: &str,
        redirect_uri: &str,
        now: u64,
    ) -> (r: Result<OidcTokenResponse, ServiceError>)
        requires
            old(self).wf(),
            times_fit(old(self).config_view(), now),
        ensures
            final(self).wf(),
            exists|access_token: Seq<char>, refresh_token: Seq<char>, jti: Seq<char>|
                #[trigger] old(self).exchanged(
                    *final(self),
                    code@,
                    client_id@,
                    client_secret@,
                    redirect_uri@,
                    now,
                    access_token,
                    refresh_token,
                    jti,
                    r,
                ) && has_prefix(access_token, "oidc_access_"@) && has_prefix(refresh_token, "oidc_refresh_"@),
    {
        let secs = u64_to_decimal(now / 1000);
        let mut access_token = String::from_str("oidc_access_");
        access_token.append(secs.as_str());
        access_token.append("_");
        let u1 = new_uuid_v4();
        access_token.append(u1.as_str());
        let mut refresh_token = String::from_str("oidc_refresh_");
        refresh_token.append(secs.as_str());
        refresh_token.append("_");
        let u2 = new_uuid_v4();
        refresh_token.append(u2.as_str());
        let jti = new_uuid_v4();
        let ghost at = access_token@;
        let ghost rt = refresh_token@;
        proof {
            reveal_strlit("oidc_access_");
            reveal_strlit("oidc_refresh_");
            assert(at.subrange(0, 12) =~= "oidc_access_"@);
            assert(rt.subrange(0, 13) =~= "oidc_refresh_"@);
        }
        let r = self.exchange_code_for_tokens_with(
            code,
            client_id,
            client_secret,
            redirect_uri,
            now,
            access_token,
            refresh_token,
            jti.as_str(),
        );
        proof {
            assert(old(self).exchanged(*self, code@, client_id@, client_secret@, redirect_uri@, now, at, rt, jti@, r));
        }
        r
    }

    /// Drops, at `now`, the codes and tokens past their expiry and the
    /// requests pending for more than ten minutes.
    pub fn cleanup_expired(&mut self, now: u64)
        requires
            old(self).wf(),
        ensures
            final(self).wf(),
            final(self).config_view() == old(self).config_view(),
            forall|k: Seq<char>| #[trigger] final(self).codes().contains_key(k) == (old(self).codes().contains_key(k)
                && now <= old(self).codes()[k].expires_at_ms),
            forall|k: Seq<char>| #[trigger] final(self).codes().contains_key(k) ==> final(self).codes()[k] == old(self).codes()[k],
            forall|k: Seq<char>| #[trigger] final(self).access().contains_key(k) == (old(self).access().contains_key(k)
                && now <= old(self).access()[k].expires_at_ms),
            forall|k: Seq<char>| #[trigger] final(self).access().contains_key(k) ==> final(self).access()[k] == old(self).access()[k],
            forall|k: Seq<char>| #[trigger] final(self).refresh().contains_key(k) == (old(self).refresh().contains_key(k)
                && now <= old(self).refresh()[k].expires_at_ms),
            forall|k: Seq<char>| #[trigger] final(self).refresh().contains_key(k) ==> final(self).refresh()[k] == old(self).refresh()[k],
            forall|k: Seq<char>| #[trigger] final(self).requests().contains_key(k) == (old(self).requests().contains_key(k)
                && !request_expired(old(self).requests()[k].issue_instant_ms, now)),
            forall|k: Seq<char>| #[trigger] final(self).requests().contains_key(k) ==> final(self).requests()[k] == old(self).requests()[k],
    {
        // authorization codes
        let n = self.authorization_codes.len();
        let mut keep: Vec<bool> = Vec::new();
        let ghost pc = |d: AuthorizationCodeData| now <= d.expires_at_ms;
        let mut i: usize = 0;
        while i < n
            invariant
                n == self.authorization_codes.spec_len(),
                i <= n,
                keep@.len() == i,
                pc == (|d: AuthorizationCodeData| now <= d.expires_at_ms),
                forall|j: int| 0 <= j < i ==> keep@[j] == pc(#[trigger] self.authorization_codes.entries_seq()[j].1),
            decreases n - i,
        {
            keep.push(now <= self.authorization_codes.value_at_index(i).expires_at_ms);
            i = i + 1;
        }
        self.authorization_codes.retain_marked(&keep, Ghost(pc));
        // access tokens
        let n = self.access_tokens.len();
        let mut keep: Vec<bool> = Vec::new();
        let ghost pa = |d: AccessTokenData| now <= d.expires_at_ms;
        let mut i: usize = 0;
        while i < n
            invariant
                n == self.access_tokens.spec_len(),
                i <= n,
                keep@.len() == i,
                pa == (|d: AccessTokenData| now <= d.expires_at_ms),
                forall|j: int| 0 <= j < i ==> keep@[j] == pa(#[trigger] self.access_tokens.entries_seq()[j].1),
            decreases n - i,
        {
            keep.push(now <= self.access_tokens.value_at_index(i).expires_at_ms);
            i = i + 1;
        }
        self.access_tokens.retain_marked(&keep, Ghost(pa));
        // refresh tokens
        let n = self.refresh_tokens.len();
        let mut keep: Vec<bool> = Vec::new();
        let ghost pr = |d: RefreshTokenData| now <= d.expires_at_ms;
        let mut i: usize = 0;
        while i < n
            invariant
                n == self.refresh_tokens.spec_len(),
                i <= n,
                keep@.len() == i,
                pr == (|d: RefreshTokenData| now <= d.expires_at_ms),
                forall|j: int| 0 <= j < i ==> keep@[j] == pr(#[trigger] self.refresh_tokens.entries_seq()[j].1),
            decreases n - i,
        {
            keep.push(now <= self.refresh_tokens.value_at_index(i).expires_at_ms);
            i = i + 1;
        }
        self.refresh_tokens.retain_marked(&keep, Ghost(pr));
        // pending requests
        let n = self.active_requests.len();
        let mut keep: Vec<bool> = Vec::new();
        let ghost pq = |q: OidcAuthRequest| !request_expired(q.issue_instant_ms, now);
        let mut i: usize = 0;
        while i < n
            invariant
                n == self.active_requests.spec_len(),
                i <= n,
                keep@.len() == i,
                pq == (|q: OidcAuthRequest| !request_expired(q.issue_instant_ms, now)),
                forall|j: int| 0 <= j < i ==> keep@[j] == pq(#[trigger] self.active_requests.entries_seq()[j].1),
            decreases n - i,
        {
            let issued = self.active_requests.value_at_index(i).issue_instant_ms;
            keep.push(!(now > issued && now - issued > 600000));
            i = i + 1;
        }
        let ghost before = self.active_requests@;
        self.active_requests.retain_marked(&keep, Ghost(pq));
        proof {
            assert forall|k: Seq<char>| #[trigger] self.active_requests@.contains_key(k) implies self.active_requests@[k].id@
                == k by {
                assert(before.contains_key(k));
            }
        }
    }

    /// Counters of the provider.
    pub fn get_statistics(&self) -> (s: OidcStatistics)
        requires
            self.wf(),
        ensures
            s.active_requests == self.counts().0,
            s.active_authorization_codes == self.counts().1,
            s.active_access_tokens == self.counts().2,
            s.active_refresh_tokens == self.counts().3,
            s.configured_clients == self.config_view().clients.spec_len(),
    {
        OidcStatistics {
            active_requests: self.active_requests.len(),
            active_authorization_codes: self.authorization_codes.len(),
            active_access_tokens: self.access_tokens.len(),
            active_refresh_tokens: self.refresh_tokens.len(),
            configured_clients: self.config.clients.len(),
        }
    }
}

/// Three strings in a vector.
fn strings3(a: &str, b: &str, c: &str) -> (v: Vec<String>)
    ensures
        v@.len() == 3,
        v@[0]@ == a@,
        v@[1]@ == b@,
        v@[2]@ == c@,
{
    let mut v: Vec<String> = Vec::new();
    v.push(String::from_str(a));
    v.push(String::from_str(b));
    v.push(String::from_str(c));
    v
}

impl Default for OidcAttributeMappings {
    fn default() -> (m: Self)
        ensures
            m.user_id@ == "sub"@,
            m.display_name matches Some(s) && s@ == "name"@,
            m.email matches Some(s) && s@ == "email"@,
            m.given_name matches Some(s) && s@ == "given_name"@,
            m.family_name matches Some(s) && s@ == "family_name"@,
            m.preferred_username matches Some(s) && s@ == "preferred_username"@,
            m.picture matches Some(s) && s@ == "picture"@,
            m.locale matches Some(s) && s@ == "locale"@,
            m.groups matches Some(s) && s@ == "groups"@,
            m.custom.wf(),
            m.custom.spec_len() == 0,
    {
        OidcAttributeMappings {
            user_id: String::from_str("sub"),
            display_name: Some(String::from_str("name")),
            email: Some(String::from_str("email")),
            given_name: Some(String::from_str("given_name")),
            family_name: Some(String::from_str("family_name")),
            preferred_username: Some(String::from_str("preferred_username")),
            picture: Some(String::from_str("picture")),
            locale: Some(String::from_str("locale")),
            groups: Some(String::from_str("groups")),
            custom: StrMap::new(),
        }
    }
}

impl Default for OidcUserProvisioningConfig {
    fn default() -> (c: Self)
        ensures
            c.auto_create_users,
            c.update_user_attributes,
            c.default_user_type@ == "user"@,
            c.default_rooms@.len() == 0,
            !c.require_email_verification,
    {
        OidcUserProvisioningConfig {
            auto_create_users: true,
            update_user_attributes: true,
            default_user_type: String::from_str("user"),
            default_rooms: Vec::new(),
            require_email_verification: false,
        }
    }
}

impl Default for OidcDiscoveryConfig {
    fn default() -> (c: Self)
        ensures
            c.issuer@ == "https://matrix.example.com"@,
            c.response_types_supported@.len() == 3,
            c.subject_types_supported@.len() == 1 && c.subject_types_supported@[0]@ == "public"@,
            c.id_token_signing_alg_values_supported@.len() == 1 && c.id_token_signing_alg_values_supported@[0]@ == "RS256"@,
            c.scopes_supported@.len() == 3,
            c.token_endpoint_auth_methods_supported@.len() == 2,
            c.claims_supported@.len() == 4,
            c.code_challenge_methods_supported@.len() == 1 && c.code_challenge_methods_supported@[0]@ == "S256"@,
    {
        let mut subject: Vec<String> = Vec::new();
        subject.push(String::from_str("public"));
        let mut algs: Vec<String> = Vec::new();
        algs.push(String::from_str("RS256"));
        let mut auth_methods: Vec<String> = Vec::new();
        auth_methods.push(String::from_str("client_secret_basic"));
        auth_methods.push(String::from_str("client_secret_post"));
        let mut claims = strings3("sub", "name", "email");
        claims.push(String::from_str("preferred_username"));
        let mut challenge: Vec<String> = Vec::new();
        challenge.push(String::from_str("S256"));
        OidcDiscoveryConfig {
            issuer: String::from_str("https://matrix.example.com"),
            response_types_supported: strings3("code", "token", "id_token"),
            subject_types_supported: subject,
            id_token_signing_alg_values_supported: algs,
            scopes_supported: strings3("openid", "profile", "email"),
            token_endpoint_auth_methods_supported: auth_methods,
            claims_supported: claims,
            code_challenge_methods_supported: challenge,
        }
    }
}

impl Default for OidcConfig {
    fn default() -> (c: Self)
        ensures
            !c.enabled,
            c.clients.wf(),
            c.clients.spec_len() == 0,
            c.default_client is None,
            c.signing_algorithm == JwtAlgorithm::Rs256,
            c.access_token_lifetime_secs == 3600,
            c.refresh_token_lifetime_secs == 2592000,
            c.id_token_lifetime_secs == 3600,
            c.authorization_code_lifetime_secs == 600,
            c.supported_scopes@.len() == 3,
            c.supported_scopes@[0]@ == "openid"@,
            c.supported_scopes@[1]@ == "profile"@,
            c.supported_scopes@[2]@ == "email"@,
            c.discovery_config.issuer@ == "https://matrix.example.com"@,
            config_wf(c),
    {
        OidcConfig {
            enabled: false,
            clients: StrMap::new(),
            default_client: None,
            signing_algorithm: JwtAlgorithm::Rs256,
            access_token_lifetime_secs: 3600,
            refresh_token_lifetime_secs: 2592000,
            id_token_lifetime_secs: 3600,
            authorization_code_lifetime_secs: 600,
            supported_scopes: strings3("openid", "profile", "email"),
            attribute_mappings: OidcAttributeMappings::default(),
            user_provisioning: OidcUserProvisioningConfig::default(),
            discovery_config: OidcDiscoveryConfig::default(),
        }
    }
}

} // verus!
