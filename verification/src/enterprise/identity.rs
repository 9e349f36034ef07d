//! Identity server: e-mail verification sessions, bindings of third-party
//! identifiers to Matrix users, and privacy-preserving hashed lookups.
use vstd::prelude::*;
use vstd::string::*;
use vstd::utf8::*;

use crate::error::{ErrorKind, ServiceError, is_error, make_error};
use crate::external::{spec_base64, spec_sha256, base64_encode, new_uuid_v4, random_six_digit_code, sha256};
use crate::strmap::StrMap;
use crate::text::{contains_char, decimal, ends_with_char, has_prefix, starts_with_char, str_eq, u64_to_decimal};

verus! {

/// Identity server configuration; lifetimes are in seconds.
#[derive(Debug)]
pub struct IdentityServerConfig {
    pub enabled: bool,
    pub server_url: String,
    pub access_token: Option<String>,
    pub private_key: Option<String>,
    pub public_key: Option<String>,
    pub server_name: String,
    pub verification_token_lifetime_secs: u64,
    pub session_token_lifetime_secs: u64,
    pub rate_limits: IdentityRateLimits,
    pub privacy_config: IdentityPrivacyConfig,
    pub supported_hash_algorithms: Vec<String>,
    pub lookup_pepper: String,
    pub terms_config: TermsConfig,
}

/// Rate limits of the identity server.
#[derive(Debug, Clone, Copy, PartialEq, Eq, Structural)]
pub struct IdentityRateLimits {
    pub verification_per_minute: u32,
    pub lookup_per_minute: u32,
    pub bulk_lookup_limit: usize,
    pub bind_per_minute: u32,
}

/// Privacy settings; the retention period is in seconds.
#[derive(Debug, Clone, Copy, PartialEq, Eq, Structural)]
pub struct IdentityPrivacyConfig {
    pub enable_hashed_lookups: bool,
    pub require_consent: bool,
    pub retention_period_secs: u64,
    pub gdpr_compliance: bool,
    pub allow_third_party_sharing: bool,
}

/// Terms of service settings.
#[derive(Debug)]
pub struct TermsConfig {
    pub terms_url: Option<String>,
    pub privacy_policy_url: Option<String>,
    pub require_terms_acceptance: bool,
    pub terms_version: String,
}

/// A third-party identifier.
#[derive(Debug)]
pub enum ThirdPartyIdentifier {
    Email(String),
    PhoneNumber(String),
    Custom { identifier_type: String, identifier: String },
}

/// A verification session; times are milliseconds since the Unix epoch.
#[derive(Debug)]
pub struct VerificationSession {
    pub session_id: String,
    pub threepid: ThirdPartyIdentifier,
    pub user_id: Option<String>,
    pub token: String,
    pub attempts: u32,
    pub max_attempts: u32,
    pub created_at_ms: u64,
    pub expires_at_ms: u64,
    pub client_ip: Option<String>,
    pub verified: bool,
    pub metadata: Vec<(String, String)>,
}

/// A binding of a third-party identifier to a user; bound at a time in
/// milliseconds.
#[derive(Debug)]
pub struct ThreepidBinding {
    pub threepid: ThirdPartyIdentifier,
    pub user_id: String,
    pub bound_at_ms: u64,
    pub signature: Option<String>,
    pub terms_version: Option<String>,
}

/// A lookup request.
#[derive(Debug)]
pub struct LookupRequest {
    pub algorithm: String,
    pub addresses: Vec<String>,
    pub pepper: String,
}

/// The answer to a lookup: hashed address to user, and to signature.
#[derive(Debug)]
pub struct LookupResponse {
    pub mappings: StrMap<String>,
    pub signatures: StrMap<String>,
}

/// Counters of the identity server.
#[derive(Debug, Clone, Copy, PartialEq, Eq, Structural)]
pub struct IdentityStatistics {
    pub active_verification_sessions: usize,
    pub total_bindings: usize,
    pub users_with_threepids: usize,
    pub email_bindings: usize,
    pub phone_bindings: usize,
}

/// The key under which a third-party identifier is kept: a tag for its
/// kind, and for a custom one the length of its type, so that different
/// identifiers get different keys.
pub open spec fn threepid_key(t: ThirdPartyIdentifier) -> Seq<char> {
    match t {
        ThirdPartyIdentifier::Email(x) => "e:"@ + x@,
        ThirdPartyIdentifier::PhoneNumber(x) => "p:"@ + x@,
        ThirdPartyIdentifier::Custom { identifier_type, identifier } => "c"@ + decimal(identifier_type@.len()) + ":"@
            + identifier_type@ + identifier@,
    }
}

/// A third-party identifier as plain values: its kind (0 e-mail, 1 phone,
/// 2 custom), its custom type and its identifier.
pub open spec fn threepid_view(t: ThirdPartyIdentifier) -> (nat, Seq<char>, Seq<char>) {
    match t {
        ThirdPartyIdentifier::Email(x) => (0, Seq::empty(), x@),
        ThirdPartyIdentifier::PhoneNumber(x) => (1, Seq::empty(), x@),
        ThirdPartyIdentifier::Custom { identifier_type, identifier } => (2, identifier_type@, identifier@),
    }
}

/// The identifier text of a third-party identifier (the address itself).
pub open spec fn threepid_text(t: ThirdPartyIdentifier) -> Seq<char> {
    match t {
        ThirdPartyIdentifier::Email(x) => x@,
        ThirdPartyIdentifier::PhoneNumber(x) => x@,
        ThirdPartyIdentifier::Custom { identifier, .. } => identifier@,
    }
}

/// The displayed form: `email:`, `phone:` or the custom type and `:`,
/// followed by the identifier.
pub open spec fn threepid_display(t: ThirdPartyIdentifier) -> Seq<char> {
    match t {
        ThirdPartyIdentifier::Email(x) => "email:"@ + x@,
        ThirdPartyIdentifier::PhoneNumber(x) => "phone:"@ + x@,
        ThirdPartyIdentifier::Custom { identifier_type, identifier } => identifier_type@ + ":"@ + identifier@,
    }
}

/// An address is accepted as e-mail: it holds `@` and `.`, and neither
/// starts nor ends with `@`.
pub open spec fn valid_email(e: Seq<char>) -> bool {
    e.contains('@') && e.contains('.') && !(e.len() > 0 && e[0] == '@') && !(e.len() > 0 && e.last() == '@')
}

/// The privacy-preserving hash of an address: Base64 of the SHA-256 of the
/// address followed by the pepper.
pub open spec fn address_hash(address: Seq<char>, pepper: Seq<char>) -> Seq<char> {
    spec_base64(spec_sha256(encode_utf8(address) + encode_utf8(pepper)))
}

/// The problem `validate_config` reports, if any.
pub open spec fn identity_config_problem(c: IdentityServerConfig) -> Option<Seq<char>> {
    if !c.enabled {
        None
    } else if c.server_url@.len() == 0 {
        Some("Identity server URL is required"@)
    } else if c.server_name@.len() == 0 {
        Some("Server name is required"@)
    } else if c.lookup_pepper@.len() == 0 {
        Some("Lookup pepper is required for privacy-preserving lookups"@)
    } else {
        None
    }
}

/// The error a verification attempt fails with before the token is
/// compared, if any.
pub open spec fn verify_precheck(s: Option<VerificationSession>, now: u64) -> Option<Seq<char>> {
    match s {
        None => Some("Invalid or expired verification session"@),
        Some(s) => if now > s.expires_at_ms {
            Some("Verification session has expired"@)
        } else if s.verified {
            Some("Session already verified"@)
        } else if s.attempts >= s.max_attempts {
            Some("Maximum verification attempts exceeded"@)
        } else {
            None
        },
    }
}

/// The characters of an optional string slice.
pub open spec fn opt_text(o: Option<&str>) -> Option<Seq<char>> {
    match o {
        Some(u) => Some(u@),
        None => None,
    }
}

/// The signature of a binding when the server has a private key: Base64 of
/// the identifier, `:` and the user.
pub open spec fn binding_signature(c: IdentityServerConfig, t: ThirdPartyIdentifier, user: Seq<char>) -> Option<Seq<char>> {
    match c.private_key {
        Some(_) => Some(spec_base64(encode_utf8(threepid_text(t) + ":"@ + user))),
        None => None,
    }
}

/// Index, from `i` on, of the first binding whose identifier hashes to `h`.
pub open spec fn first_match(s: Seq<(String, ThreepidBinding)>, pepper: Seq<char>, h: Seq<char>, i: int) -> Option<int>
    decreases s.len() - i,
{
    if i < 0 || i >= s.len() {
        None
    } else if address_hash(threepid_text(s[i].1.threepid), pepper) == h {
        Some(i)
    } else {
        first_match(s, pepper, h, i + 1)
    }
}

/// The mappings and signatures a lookup of the first `n` addresses gives.
pub open spec fn lookup_maps(
    addrs: Seq<String>,
    s: Seq<(String, ThreepidBinding)>,
    pepper: Seq<char>,
    n: int,
) -> (Map<Seq<char>, String>, Map<Seq<char>, String>)
    decreases n,
{
    if n <= 0 || n > addrs.len() {
        (Map::empty(), Map::empty())
    } else {
        let (m, g) = lookup_maps(addrs, s, pepper, n - 1);
        let h = addrs[n - 1]@;
        match first_match(s, pepper, h, 0) {
            Some(j) => (
                m.insert(h, s[j].1.user_id),
                match s[j].1.signature {
                    Some(sig) => g.insert(h, sig),
                    None => g,
                },
            ),
            None => (m, g),
        }
    }
}

/// `first_match` finds the first binding from `i` on whose identifier
/// hashes to `h`, and finds none only where there is none.
proof fn lemma_first_match(s: Seq<(String, ThreepidBinding)>, pepper: Seq<char>, h: Seq<char>, i: int)
    requires
        0 <= i <= s.len(),
    ensures
        match first_match(s, pepper, h, i) {
            Some(j) => i <= j < s.len() && address_hash(threepid_text(s[j].1.threepid), pepper) == h,
            None => forall|j: int| i <= j < s.len() ==> address_hash(threepid_text(#[trigger] s[j].1.threepid), pepper) != h,
        },
    decreases s.len() - i,
{
    if i < s.len() && address_hash(threepid_text(s[i].1.threepid), pepper) != h {
        lemma_first_match(s, pepper, h, i + 1);
    }
}

/// A lookup of the first `n` hashes answers for hash `h` exactly when one
/// of them is `h` and a binding's identifier hashes to it, with the user of
/// the first such binding.
proof fn lemma_lookup_maps(addrs: Seq<String>, s: Seq<(String, ThreepidBinding)>, pepper: Seq<char>, n: int, h: Seq<char>)
    requires
        0 <= n <= addrs.len(),
    ensures
        lookup_maps(addrs, s, pepper, n).0.contains_key(h) <==> ((exists|j: int| 0 <= j < n && #[trigger] addrs[j]@ == h)
            && first_match(s, pepper, h, 0) is Some),
        lookup_maps(addrs, s, pepper, n).0.contains_key(h) ==> lookup_maps(addrs, s, pepper, n).0[h] == s[first_match(
            s,
            pepper,
            h,
            0,
        )->Some_0].1.user_id,
    decreases n,
{
    if n > 0 {
        lemma_lookup_maps(addrs, s, pepper, n - 1, h);
        let last = addrs[n - 1]@;
        if last == h {
            assert(exists|j: int| 0 <= j < n && #[trigger] addrs[j]@ == h) by {
                assert(addrs[n - 1]@ == h);
            }
        } else {
            assert((exists|j: int| 0 <= j < n && #[trigger] addrs[j]@ == h) ==> (exists|j: int|
                0 <= j < n - 1 && #[trigger] addrs[j]@ == h)) by {
                if exists|j: int| 0 <= j < n && #[trigger] addrs[j]@ == h {
                    let j = choose|j: int| 0 <= j < n && #[trigger] addrs[j]@ == h;
                    assert(j != n - 1);
                }
            }
        }
    }
}

/// Number of bindings among `s` whose identifier is of the kind `kind`
/// (0 e-mail, 1 phone).
pub open spec fn count_kind(s: Seq<(String, ThreepidBinding)>, kind: nat) -> nat
    decreases s.len(),
{
    if s.len() == 0 {
        0
    } else {
        count_kind(s.drop_last(), kind) + if (kind == 0 && s.last().1.threepid is Email) || (kind == 1
            && s.last().1.threepid is PhoneNumber) {
            1nat
        } else {
            0nat
        }
    }
}

/// A copy of a third-party identifier.
pub fn copy_threepid(t: &ThirdPartyIdentifier) -> (r: ThirdPartyIdentifier)
    ensures
        r == *t,
{
    match t {
        ThirdPartyIdentifier::Email(x) => ThirdPartyIdentifier::Email(x.clone()),
        ThirdPartyIdentifier::PhoneNumber(x) => ThirdPartyIdentifier::PhoneNumber(x.clone()),
        ThirdPartyIdentifier::Custom { identifier_type, identifier } => ThirdPartyIdentifier::Custom {
            identifier_type: identifier_type.clone(),
            identifier: identifier.clone(),
        },
    }
}

/// A copy of a binding.
fn copy_binding(b: &ThreepidBinding) -> (r: ThreepidBinding)
    ensures
        r == *b,
{
    ThreepidBinding {
        threepid: copy_threepid(&b.threepid),
        user_id: b.user_id.clone(),
        bound_at_ms: b.bound_at_ms,
        signature: match &b.signature {
            Some(s) => Some(s.clone()),
            None => None,
        },
        terms_version: match &b.terms_version {
            Some(s) => Some(s.clone()),
            None => None,
        },
    }
}

impl ThirdPartyIdentifier {
    /// The key under which the identifier is kept.
    pub fn key(&self) -> (k: String)
        ensures
            k@ == threepid_key(*self),
    {
        match self {
            ThirdPartyIdentifier::Email(x) => {
                let mut k = String::from_str("e:");
                k.append(x.as_str());
                k
            },
            ThirdPartyIdentifier::PhoneNumber(x) => {
                let mut k = String::from_str("p:");
                k.append(x.as_str());
                k
            },
            ThirdPartyIdentifier::Custom { identifier_type, identifier } => {
                let mut k = String::from_str("c");
                let n = identifier_type.as_str().unicode_len() as u64;
                let len_text = u64_to_decimal(n);
                k.append(len_text.as_str());
                k.append(":");
                k.append(identifier_type.as_str());
                k.append(identifier.as_str());
                k
            },
        }
    }

    /// The identifier text.
    pub fn text(&self) -> (s: &String)
        ensures
            s@ == threepid_text(*self),
    {
        match self {
            ThirdPartyIdentifier::Email(x) => x,
            ThirdPartyIdentifier::PhoneNumber(x) => x,
            ThirdPartyIdentifier::Custom { identifier, .. } => identifier,
        }
    }

    /// The displayed form, e.g. `email:alice@example.com`.
    pub fn to_string(&self) -> (s: String)
        ensures
            s@ == threepid_display(*self),
    {
        match self {
            ThirdPartyIdentifier::Email(x) => {
                let mut s = String::from_str("email:");
                s.append(x.as_str());
                s
            },
            ThirdPartyIdentifier::PhoneNumber(x) => {
                let mut s = String::from_str("phone:");
                s.append(x.as_str());
                s
            },
            ThirdPartyIdentifier::Custom { identifier_type, identifier } => {
                let mut s = identifier_type.clone();
                s.append(":");
                s.append(identifier.as_str());
                s
            },
        }
    }
}

/// The identity server: configuration, verification sessions, bindings by
/// identifier key, and each user's identifiers by key.
pub struct IdentityServerService {
    config: IdentityServerConfig,
    verification_sessions: StrMap<VerificationSession>,
    threepid_bindings: StrMap<ThreepidBinding>,
    user_threepids: StrMap<StrMap<ThirdPartyIdentifier>>,
}

impl IdentityServerService {
    /// The configuration.
    pub closed spec fn config_view(&self) -> IdentityServerConfig {
        self.config
    }

    /// Verification sessions by id.
    pub closed spec fn sessions(&self) -> Map<Seq<char>, VerificationSession> {
        self.verification_sessions@
    }

    /// Bindings by identifier key.
    pub closed spec fn bindings(&self) -> Map<Seq<char>, ThreepidBinding> {
        self.threepid_bindings@
    }

    /// The bindings in the order the server keeps them.
    pub closed spec fn binding_entries(&self) -> Seq<(String, ThreepidBinding)> {
        self.threepid_bindings.entries_seq()
    }

    /// Each user's identifiers, by identifier key.
    pub closed spec fn user_ids(&self) -> Map<Seq<char>, Map<Seq<char>, ThirdPartyIdentifier>> {
        self.user_threepids@.map_values(|m: StrMap<ThirdPartyIdentifier>| m@)
    }

    /// Numbers of sessions, bindings and users with identifiers.
    pub closed spec fn counts(&self) -> (nat, nat, nat) {
        (self.verification_sessions.spec_len(), self.threepid_bindings.spec_len(), self.user_threepids.spec_len())
    }

    /// Well-formedness: maps keep distinct keys, and each binding is kept
    /// under its identifier's key.
    pub closed spec fn wf(&self) -> bool {
        &&& self.verification_sessions.wf()
        &&& self.threepid_bindings.wf()
        &&& self.user_threepids.wf()
        &&& forall|u: Seq<char>| #[trigger] self.user_threepids@.contains_key(u) ==> self.user_threepids@[u].wf()
        &&& forall|k: Seq<char>| #[trigger] self.threepid_bindings@.contains_key(k) ==> threepid_key(
            self.threepid_bindings@[k].threepid,
        ) == k
    }

    /// Checks a configuration: a disabled one passes; an enabled one needs a
    /// server URL, a server name and a lookup pepper.
    pub fn validate_config(config: &IdentityServerConfig) -> (r: Result<(), ServiceError>)
        ensures
            match identity_config_problem(*config) {
                None => r is Ok,
                Some(m) => r matches Err(e) && is_error(e, ErrorKind::InvalidParam, m),
            },
    {
        if !config.enabled {
            return Ok(());
        }
        if config.server_url.as_str().unicode_len() == 0 {
            return Err(make_error(ErrorKind::InvalidParam, "Identity server URL is required"));
        }
        if config.server_name.as_str().unicode_len() == 0 {
            return Err(make_error(ErrorKind::InvalidParam, "Server name is required"));
        }
        if config.lookup_pepper.as_str().unicode_len() == 0 {
            return Err(make_error(ErrorKind::InvalidParam, "Lookup pepper is required for privacy-preserving lookups"));
        }
        Ok(())
    }

    /// A server over a configuration that passes `validate_config`, with no
    /// sessions or bindings.
    pub fn new(config: IdentityServerConfig) -> (r: Result<Self, ServiceError>)
        ensures
            match identity_config_problem(config) {
                None => r matches Ok(s) && s.wf() && s.config_view() == config && s.counts() == (0nat, 0nat, 0nat),
                Some(m) => r matches Err(e) && is_error(e, ErrorKind::InvalidParam, m),
            },
    {
        match Self::validate_config(&config) {
            Err(e) => Err(e),
            Ok(()) => Ok(IdentityServerService {
                config,
                verification_sessions: StrMap::new(),
                threepid_bindings: StrMap::new(),
                user_threepids: StrMap::new(),
            }),
        }
    }

    /// Whether `email` is accepted as an e-mail address.
    pub fn is_valid_email(email: &str) -> (r: bool)
        ensures
            r == valid_email(email@),
    {
        contains_char(email, '@') && contains_char(email, '.') && !starts_with_char(email, '@') && !ends_with_char(
            email,
            '@',
        )
    }

    /// The privacy-preserving hash of `address` under `pepper`.
    pub fn hash_address(address: &str, pepper: &str) -> (h: String)
        ensures
            h@ == address_hash(address@, pepper@),
    {
        let mut data = address.as_bytes_vec();
        let mut p = pepper.as_bytes_vec();
        data.append(&mut p);
        let digest = sha256(data.as_slice());
        base64_encode(digest.as_slice())
    }

    /// `after` is this service after a verification of `email` (for
    /// `user_id`, from `client_ip`) was requested at `now` under session
    /// `session_id` with token `token`, answering `r`: a malformed address
    /// is refused; otherwise a fresh, unverified session with three
    /// attempts is recorded until the token lifetime has passed. Bindings
    /// are untouched.
    pub open spec fn verification_requested(
        self,
        after: Self,
        email: Seq<char>,
        user_id: Option<Seq<char>>,
        client_ip: Option<String>,
        now: u64,
        session_id: Seq<char>,
        token: Seq<char>,
        r: Result<String, ServiceError>,
    ) -> bool {
        &&& after.config_view() == self.config_view()
        &&& after.bindings() == self.bindings()
        &&& after.user_ids() == self.user_ids()
        &&& !valid_email(email) ==> {
            &&& r matches Err(e) && is_error(e, ErrorKind::InvalidParam, "Invalid email address format"@)
            &&& after.sessions() == self.sessions()
        }
        &&& valid_email(email) ==> {
            let s = after.sessions()[session_id];
            &&& r matches Ok(id) && id@ == session_id
            &&& after.sessions() == self.sessions().insert(session_id, s)
            &&& s.session_id@ == session_id
            &&& s.threepid matches ThirdPartyIdentifier::Email(x) && x@ == email
            &&& match user_id {
                Some(u) => s.user_id matches Some(v) && v@ == u,
                None => s.user_id is None,
            }
            &&& s.token@ == token
            &&& s.attempts == 0
            &&& s.max_attempts == 3
            &&& s.created_at_ms == now
            &&& s.expires_at_ms == now + self.config_view().verification_token_lifetime_secs * 1000
            &&& s.client_ip == client_ip
            &&& !s.verified
        }
    }

    /// Starts verifying `email` at `now` under `session_id` with the code
    /// `token`: the session allows three attempts and lives for the
    /// configured verification token lifetime.
    pub fn request_email_verification_with(
        &mut self,
        email: &str,
        user_id: Option<&str>,
        client_ip: Option<String>,
        now: u64,
        session_id: String,
        token: String,
    ) -> (r: Result<String, ServiceError>)
        requires
            old(self).wf(),
            now + old(self).config_view().verification_token_lifetime_secs * 1000 <= u64::MAX,
        ensures
            final(self).wf(),
            old(self).verification_requested(
                *final(self),
                email@,
                opt_text(user_id),
                client_ip,
                now,
                session_id@,
                token@,
                r,
            ),
    {
        if !Self::is_valid_email(email) {
            return Err(make_error(ErrorKind::InvalidParam, "Invalid email address format"));
        }
        let session = VerificationSession {
            session_id: session_id.clone(),
            threepid: ThirdPartyIdentifier::Email(String::from_str(email)),
            user_id: match user_id {
                Some(u) => Some(String::from_str(u)),
                None => None,
            },
            token,
            attempts: 0,
            max_attempts: 3,
            created_at_ms: now,
            expires_at_ms: now + self.config.verification_token_lifetime_secs * 1000,
            client_ip,
            verified: false,
            metadata: Vec::new(),
        };
        self.verification_sessions.insert(session_id.as_str(), session);
        Ok(session_id)
    }

    /// Starts verifying `email` at `now` under a fresh session id
    /// (`email_verify_`, the time in seconds, `_` and a random UUID) with a
    /// random six-digit code; see `request_email_verification_with`.
    pub fn request_email_verification(
        &mut self,
        email: &str,
        user_id: Option<&str>,
        client_ip: Option<String>,
        now: u64,
    ) -> (r: Result<String, ServiceError>)
        requires
            old(self).wf(),
            now + old(self).config_view().verification_token_lifetime_secs * 1000 <= u64::MAX,
        ensures
            final(self).wf(),
            exists|session_id: Seq<char>, code: nat|
                #[trigger] old(self).verification_requested(
                    *final(self),
                    email@,
                    opt_text(user_id),
                    client_ip,
                    now,
                    session_id,
                    decimal(code),
                    r,
                ) && has_prefix(session_id, "email_verify_"@) && 100000 <= code < 999999,
    {
        let mut session_id = String::from_str("email_verify_");
        let secs = u64_to_decimal(now / 1000);
        session_id.append(secs.as_str());
        session_id.append("_");
        let uuid = new_uuid_v4();
        session_id.append(uuid.as_str());
        let code = random_six_digit_code();
        let token = u64_to_decimal(code as u64);
        let ghost sid = session_id@;
        let ghost ip = client_ip;
        proof {
            reveal_strlit("email_verify_");
            assert(sid.subrange(0, 13) =~= "email_verify_"@);
        }
        let r = self.request_email_verification_with(email, user_id, client_ip, now, session_id, token);
        proof {
            assert(old(self).verification_requested(*self, email@, opt_text(user_id), ip, now, sid, decimal(code as nat), r));
        }
        r
    }

    /// Records that `threepid` is bound to `user` (its binding, and the
    /// identifier among the user's).
    fn record_binding(&mut self, user: &str, binding: ThreepidBinding)
        requires
            old(self).wf(),
        ensures
            final(self).wf(),
            final(self).config_view() == old(self).config_view(),
            final(self).sessions() == old(self).sessions(),
            final(self).bindings() == old(self).bindings().insert(threepid_key(binding.threepid), binding),
            final(self).user_ids() == old(self).user_ids().insert(
                user@,
                if old(self).user_ids().contains_key(user@) {
                    old(self).user_ids()[user@]
                } else {
                    Map::empty()
                }.insert(threepid_key(binding.threepid), binding.threepid),
            ),
    {
        let key = binding.threepid.key();
        let t = copy_threepid(&binding.threepid);
        let ghost old_bindings = self.threepid_bindings@;
        self.threepid_bindings.insert(key.as_str(), binding);
        proof {
            assert forall|k: Seq<char>| #[trigger] self.threepid_bindings@.contains_key(k) implies threepid_key(
                self.threepid_bindings@[k].threepid,
            ) == k by {
                if k != key@ {
                    assert(old_bindings.contains_key(k));
                }
            }
        }
        let ghost old_users = self.user_threepids@;
        let mut set = match self.user_threepids.remove(user) {
            Some(s) => s,
            None => StrMap::new(),
        };
        let ghost old_set = set@;
        set.insert(key.as_str(), t);
        self.user_threepids.insert(user, set);
        proof {
            assert forall|u: Seq<char>| #[trigger] self.user_threepids@.contains_key(u) implies self.user_threepids@[u].wf() by {
                if u != user@ {
                    assert(old_users.contains_key(u));
                }
            }
            let expected = old(self).user_ids().insert(
                user@,
                if old(self).user_ids().contains_key(user@) {
                    old(self).user_ids()[user@]
                } else {
                    Map::empty()
                }.insert(key@, t),
            );
            assert(old_set == if old(self).user_ids().contains_key(user@) {
                old(self).user_ids()[user@]
            } else {
                Map::<Seq<char>, ThirdPartyIdentifier>::empty()
            });
            assert(self.user_ids() =~= expected);
        }
    }

    /// Checks `token` for session `session_id` at `now`. The session must
    /// exist, not have expired, not be verified yet, and have attempts
    /// left; the attempt is then counted. A wrong token fails; the right one
    /// marks the session verified and, when the session names a user, binds
    /// the e-mail address to that user. The binding is returned either way
    /// (naming `@verified:temp` when there is no user).
    pub fn verify_email(&mut self, session_id: &str, token: &str, now: u64) -> (r: Result<ThreepidBinding, ServiceError>)
        requires
            old(self).wf(),
        ensures
            final(self).wf(),
            final(self).config_view() == old(self).config_view(),
            ({
                let s = if old(self).sessions().contains_key(session_id@) {
                    Some(old(self).sessions()[session_id@])
                } else {
                    None
                };
                match verify_precheck(s, now) {
                    Some(m) => {
                        &&& r matches Err(e) && is_error(e, ErrorKind::InvalidParam, m)
                        &&& final(self).sessions() == old(self).sessions()
                        &&& final(self).bindings() == old(self).bindings()
                        &&& final(self).user_ids() == old(self).user_ids()
                    },
                    None => {
                        let s0 = s->Some_0;
                        let s1 = final(self).sessions()[session_id@];
                        &&& final(self).sessions() == old(self).sessions().insert(session_id@, s1)
                        &&& s1 == (VerificationSession {
                            attempts: (s0.attempts + 1) as u32,
                            verified: s0.token@ == token@,
                            ..s0
                        })
                        &&& if s0.token@ != token@ {
                            &&& r matches Err(e) && is_error(e, ErrorKind::InvalidParam, "Invalid verification token"@)
                            &&& final(self).bindings() == old(self).bindings()
                            &&& final(self).user_ids() == old(self).user_ids()
                        } else {
                            &&& r matches Ok(b) && b.threepid == s0.threepid && b.bound_at_ms == now && b.signature is None
                                && (b.terms_version matches Some(v) && v@ == "1.0"@)
                            &&& match s0.user_id {
                                Some(u) => {
                                    &&& r->Ok_0.user_id == u
                                    &&& final(self).bindings() == old(self).bindings().insert(
                                        threepid_key(s0.threepid),
                                        r->Ok_0,
                                    )
                                    &&& final(self).user_ids() == old(self).user_ids().insert(
                                        u@,
                                        if old(self).user_ids().contains_key(u@) {
                                            old(self).user_ids()[u@]
                                        } else {
                                            Map::empty()
                                        }.insert(threepid_key(s0.threepid), s0.threepid),
                                    )
                                },
                                None => {
                                    &&& r->Ok_0.user_id@ == "@verified:temp"@
                                    &&& final(self).bindings() == old(self).bindings()
                                    &&& final(self).user_ids() == old(self).user_ids()
                                },
                            }
                        }
                    },
                }
            }),
    {
        match self.verification_sessions.get(session_id) {
            Some(s) => {
                if now > s.expires_at_ms {
                    return Err(make_error(ErrorKind::InvalidParam, "Verification session has expired"));
                }
                if s.verified {
                    return Err(make_error(ErrorKind::InvalidParam, "Session already verified"));
                }
                if s.attempts >= s.max_attempts {
                    return Err(make_error(ErrorKind::InvalidParam, "Maximum verification attempts exceeded"));
                }
            },
            None => {
                return Err(make_error(ErrorKind::InvalidParam, "Invalid or expired verification session"));
            },
        }
        let mut session = match self.verification_sessions.remove(session_id) {
            Some(s) => s,
            None => {
                return Err(make_error(ErrorKind::InvalidParam, "Invalid or expired verification session"));
            },
        };
        session.attempts = session.attempts + 1;
        if !str_eq(session.token.as_str(), token) {
            self.verification_sessions.insert(session_id, session);
            return Err(make_error(ErrorKind::InvalidParam, "Invalid verification token"));
        }
        session.verified = true;
        let threepid = copy_threepid(&session.threepid);
        let user = match &session.user_id {
            Some(u) => Some(u.clone()),
            None => None,
        };
        self.verification_sessions.insert(session_id, session);
        match user {
            Some(u) => {
                let binding = ThreepidBinding {
                    threepid: copy_threepid(&threepid),
                    user_id: u.clone(),
                    bound_at_ms: now,
                    signature: None,
                    terms_version: Some(String::from_str("1.0")),
                };
                let result = copy_binding(&binding);
                self.record_binding(u.as_str(), binding);
                Ok(result)
            },
            None => Ok(
                ThreepidBinding {
                    threepid,
                    user_id: String::from_str("@verified:temp"),
                    bound_at_ms: now,
                    signature: None,
                    terms_version: Some(String::from_str("1.0")),
                },
            ),
        }
    }

    /// The signature of a binding of `threepid` to `user`, when the server
    /// has a private key.
    pub fn sign_binding(&self, threepid: &ThirdPartyIdentifier, user: &str) -> (r: Option<String>)
        ensures
            match binding_signature(self.config_view(), *threepid, user@) {
                Some(s) => r matches Some(t) && t@ == s,
                None => r is None,
            },
    {
        match &self.config.private_key {
            Some(_) => {
                let mut data = threepid.text().clone();
                data.append(":");
                data.append(user);
                let bytes = data.as_str().as_bytes_vec();
                Some(base64_encode(bytes.as_slice()))
            },
            None => None,
        }
    }

    /// Binds `threepid` to `user` at `now` on the strength of a verified
    /// session for the same identifier.
    pub fn bind_threepid(
        &mut self,
        threepid: ThirdPartyIdentifier,
        user: &str,
        verified_session_id: &str,
        now: u64,
    ) -> (r: Result<ThreepidBinding, ServiceError>)
        requires
            old(self).wf(),
        ensures
            final(self).wf(),
            final(self).config_view() == old(self).config_view(),
            final(self).sessions() == old(self).sessions(),
            !old(self).sessions().contains_key(verified_session_id@) ==> {
                &&& r matches Err(e) && is_error(e, ErrorKind::InvalidParam, "Invalid verification session"@)
                &&& final(self).bindings() == old(self).bindings()
                &&& final(self).user_ids() == old(self).user_ids()
            },
            old(self).sessions().contains_key(verified_session_id@) ==> {
                let s = old(self).sessions()[verified_session_id@];
                if !s.verified {
                    &&& r matches Err(e) && is_error(e, ErrorKind::InvalidParam, "Third-party identifier not verified"@)
                    &&& final(self).bindings() == old(self).bindings()
                    &&& final(self).user_ids() == old(self).user_ids()
                } else if threepid_view(s.threepid) != threepid_view(threepid) {
                    &&& r matches Err(e) && is_error(e, ErrorKind::InvalidParam, "Third-party identifier mismatch"@)
                    &&& final(self).bindings() == old(self).bindings()
                    &&& final(self).user_ids() == old(self).user_ids()
                } else {
                    &&& r matches Ok(b) && b.threepid == threepid && b.user_id@ == user@ && b.bound_at_ms == now
                        && (b.terms_version matches Some(v) && v@ == "1.0"@) && match binding_signature(
                        old(self).config_view(),
                        threepid,
                        user@,
                    ) {
                        Some(sig) => b.signature matches Some(t) && t@ == sig,
                        None => b.signature is None,
                    }
                    &&& final(self).bindings() == old(self).bindings().insert(threepid_key(threepid), r->Ok_0)
                    &&& final(self).user_ids() == old(self).user_ids().insert(
                        user@,
                        if old(self).user_ids().contains_key(user@) {
                            old(self).user_ids()[user@]
                        } else {
                            Map::empty()
                        }.insert(threepid_key(threepid), threepid),
                    )
                }
            },
    {
        let (verified, same) = match self.verification_sessions.get(verified_session_id) {
            Some(s) => (s.verified, same_threepid(&s.threepid, &threepid)),
            None => {
                return Err(make_error(ErrorKind::InvalidParam, "Invalid verification session"));
            },
        };
        if !verified {
            return Err(make_error(ErrorKind::InvalidParam, "Third-party identifier not verified"));
        }
        if !same {
            return Err(make_error(ErrorKind::InvalidParam, "Third-party identifier mismatch"));
        }
        let signature = self.sign_binding(&threepid, user);
        let binding = ThreepidBinding {
            threepid,
            user_id: String::from_str(user),
            bound_at_ms: now,
            signature,
            terms_version: Some(String::from_str("1.0")),
        };
        let result = copy_binding(&binding);
        self.record_binding(user, binding);
        Ok(result)
    }

    /// Removes the binding of `threepid`, which must be bound to `user`, and
    /// the identifier from the user's; a user left with none is dropped.
    pub fn unbind_threepid(&mut self, threepid: &ThirdPartyIdentifier, user: &str) -> (r: Result<(), ServiceError>)
        requires
            old(self).wf(),
        ensures
            final(self).wf(),
            final(self).config_view() == old(self).config_view(),
            final(self).sessions() == old(self).sessions(),
            !old(self).bindings().contains_key(threepid_key(*threepid)) ==> {
                &&& r matches Err(e) && is_error(e, ErrorKind::NotFound, "Third-party identifier binding not found"@)
                &&& final(self).bindings() == old(self).bindings()
                &&& final(self).user_ids() == old(self).user_ids()
            },
            old(self).bindings().contains_key(threepid_key(*threepid)) ==> {
                let b = old(self).bindings()[threepid_key(*threepid)];
                if b.user_id@ != user@ {
                    &&& r matches Err(e) && is_error(e, ErrorKind::Forbidden, "Third-party identifier bound to different user"@)
                    &&& final(self).bindings() == old(self).bindings()
                    &&& final(self).user_ids() == old(self).user_ids()
                } else {
                    &&& r is Ok
                    &&& final(self).bindings() == old(self).bindings().remove(threepid_key(*threepid))
                    &&& final(self).user_ids() == if !old(self).user_ids().contains_key(user@) {
                        old(self).user_ids()
                    } else {
                        let rest = old(self).user_ids()[user@].remove(threepid_key(*threepid));
                        if rest.len() == 0 {
                            old(self).user_ids().remove(user@)
                        } else {
                            old(self).user_ids().insert(user@, rest)
                        }
                    }
                }
            },
    {
        let key = threepid.key();
        let owner_ok = match self.threepid_bindings.get(key.as_str()) {
            Some(b) => str_eq(b.user_id.as_str(), user),
            None => {
                return Err(make_error(ErrorKind::NotFound, "Third-party identifier binding not found"));
            },
        };
        if !owner_ok {
            return Err(make_error(ErrorKind::Forbidden, "Third-party identifier bound to different user"));
        }
        let ghost old_bindings = self.threepid_bindings@;
        self.threepid_bindings.remove(key.as_str());
        proof {
            assert forall|k: Seq<char>| #[trigger] self.threepid_bindings@.contains_key(k) implies threepid_key(
                self.threepid_bindings@[k].threepid,
            ) == k by {
                assert(old_bindings.contains_key(k));
            }
        }
        let ghost old_users = self.user_threepids@;
        match self.user_threepids.remove(user) {
            Some(mut set) => {
                proof {
                    assert(old_users.contains_key(user@));
                }
                set.remove(key.as_str());
                let ghost rest = set@;
                let n = set.len();
                proof {
                    set.lemma_len();
                }
                if n > 0 {
                    self.user_threepids.insert(user, set);
                }
                proof {
                    assert forall|u: Seq<char>| #[trigger] self.user_threepids@.contains_key(u) implies self.user_threepids@[u].wf() by {
                        if u != user@ {
                            assert(old_users.contains_key(u));
                        }
                    }
                    if n > 0 {
                        assert(self.user_ids() =~= old(self).user_ids().insert(user@, rest));
                    } else {
                        assert(self.user_ids() =~= old(self).user_ids().remove(user@));
                    }
                }
            },
            None => {
                proof {
                    assert(self.user_ids() =~= old(self).user_ids());
                }
            },
        }
        Ok(())
    }

    /// A lookup answers for a hash exactly when some bound identifier
    /// hashes to it (with the lookup pepper), and then with the user of such
    /// a binding: the hash of a bound address is found, a hash that matches
    /// no binding is not.
    pub proof fn lemma_lookup_finds_bound(&self, addresses: Seq<String>, i: int)
        requires
            self.wf(),
            0 <= i < addresses.len(),
        ensures
            ({
                let pepper = self.config_view().lookup_pepper@;
                let h = addresses[i]@;
                let m = lookup_maps(addresses, self.binding_entries(), pepper, addresses.len() as int).0;
                &&& m.contains_key(h) <==> exists|k: Seq<char>| #[trigger] self.bindings().contains_key(k) && address_hash(
                    threepid_text(self.bindings()[k].threepid),
                    pepper,
                ) == h
                &&& m.contains_key(h) ==> exists|k: Seq<char>| #[trigger] self.bindings().contains_key(k) && address_hash(
                    threepid_text(self.bindings()[k].threepid),
                    pepper,
                ) == h && self.bindings()[k].user_id == m[h]
            }),
    {
        let pepper = self.config_view().lookup_pepper@;
        let h = addresses[i]@;
        let s = self.binding_entries();
        lemma_lookup_maps(addresses, s, pepper, addresses.len() as int, h);
        lemma_first_match(s, pepper, h, 0);
        assert(exists|j: int| 0 <= j < addresses.len() && #[trigger] addresses[j]@ == h) by {
            assert(addresses[i]@ == h);
        }
        let m = lookup_maps(addresses, s, pepper, addresses.len() as int).0;
        match first_match(s, pepper, h, 0) {
            Some(j) => {
                self.threepid_bindings.lemma_entry_in_map(j);
                let k = s[j].0@;
                assert(self.bindings().contains_key(k) && address_hash(threepid_text(self.bindings()[k].threepid), pepper) == h
                    && self.bindings()[k].user_id == m[h]);
            },
            None => {
                assert forall|k: Seq<char>| #[trigger] self.bindings().contains_key(k) implies address_hash(
                    threepid_text(self.bindings()[k].threepid),
                    pepper,
                ) != h by {
                    let idx = self.threepid_bindings.lemma_key_has_entry(k);
                    self.threepid_bindings.lemma_entry_in_map(idx);
                }
            },
        }
    }

    /// Looks up hashed addresses: each given hash is mapped to the user of
    /// the first binding whose identifier, hashed with the lookup pepper, is
    /// that hash (with its signature, if it has one). More hashes than the
    /// bulk limit are refused.
    pub fn lookup_threepids(&self, addresses: &Vec<String>) -> (r: Result<LookupResponse, ServiceError>)
        requires
            self.wf(),
        ensures
            addresses@.len() > self.config_view().rate_limits.bulk_lookup_limit ==> (r matches Err(e) && is_error(
                e,
                ErrorKind::LimitExceeded,
                "Bulk lookup size limit exceeded"@,
            )),
            addresses@.len() <= self.config_view().rate_limits.bulk_lookup_limit ==> (r matches Ok(resp)
                && resp.mappings.wf() && resp.signatures.wf() && (resp.mappings@, resp.signatures@) == lookup_maps(
                addresses@,
                self.binding_entries(),
                self.config_view().lookup_pepper@,
                addresses@.len() as int,
            )),
    {
        if addresses.len() > self.config.rate_limits.bulk_lookup_limit {
            return Err(make_error(ErrorKind::LimitExceeded, "Bulk lookup size limit exceeded"));
        }
        let ghost s = self.threepid_bindings.entries_seq();
        let ghost pepper = self.config.lookup_pepper@;
        let mut mappings: StrMap<String> = StrMap::new();
        let mut signatures: StrMap<String> = StrMap::new();
        let n = addresses.len();
        let m = self.threepid_bindings.len();
        let mut i: usize = 0;
        while i < n
            invariant
                n == addresses@.len(),
                m == s.len(),
                s == self.threepid_bindings.entries_seq(),
                pepper == self.config.lookup_pepper@,
                i <= n,
                mappings.wf(),
                signatures.wf(),
                (mappings@, signatures@) == lookup_maps(addresses@, s, pepper, i as int),
            decreases n - i,
        {
            let hashed = addresses[i].clone();
            let mut j: usize = 0;
            let mut found: Option<usize> = None;
            while j < m && found.is_none()
                invariant
                    m == s.len(),
                    s == self.threepid_bindings.entries_seq(),
                    pepper == self.config.lookup_pepper@,
                    j <= m,
                    found matches Some(k) ==> k < m && first_match(s, pepper, hashed@, 0) == Some(k as int),
                    found is None ==> first_match(s, pepper, hashed@, 0) == first_match(s, pepper, hashed@, j as int),
                decreases m - j,
            {
                let b = self.threepid_bindings.value_at_index(j);
                let h = Self::hash_address(b.threepid.text().as_str(), self.config.lookup_pepper.as_str());
                if h == hashed {
                    found = Some(j);
                }
                j = j + 1;
            }
            proof {
                if found is None {
                    assert(first_match(s, pepper, hashed@, m as int) is None);
                }
            }
            match found {
                Some(j) => {
                    let b = self.threepid_bindings.value_at_index(j);
                    mappings.insert(hashed.as_str(), b.user_id.clone());
                    match &b.signature {
                        Some(sig) => {
                            signatures.insert(hashed.as_str(), sig.clone());
                        },
                        None => {},
                    }
                },
                None => {},
            }
            i = i + 1;
        }
        Ok(LookupResponse { mappings, signatures })
    }

    /// The identifiers bound to `user`.
    pub fn get_user_threepids(&self, user: &str) -> (r: Vec<ThirdPartyIdentifier>)
        requires
            self.wf(),
        ensures
            !self.user_ids().contains_key(user@) ==> r@.len() == 0,
            self.user_ids().contains_key(user@) ==> {
                &&& r@.len() == self.user_ids()[user@].len()
                &&& forall|i: int| 0 <= i < r@.len() ==> #[trigger] self.user_ids()[user@].contains_value(r@[i])
            },
    {
        let mut out: Vec<ThirdPartyIdentifier> = Vec::new();
        match self.user_threepids.get(user) {
            Some(set) => {
                let n = set.len();
                let mut i: usize = 0;
                while i < n
                    invariant
                        set.wf(),
                        n == set.spec_len(),
                        i <= n,
                        out@.len() == i,
                        forall|j: int| 0 <= j < i ==> #[trigger] out@[j] == set.entries_seq()[j].1,
                    decreases n - i,
                {
                    out.push(copy_threepid(set.value_at_index(i)));
                    i = i + 1;
                }
                proof {
                    set.lemma_len();
                    assert forall|i: int| 0 <= i < out@.len() implies #[trigger] set@.contains_value(out@[i]) by {
                        set.lemma_entry_in_map(i);
                    }
                }
            },
            None => {},
        }
        out
    }

    /// Drops the verification sessions past their expiry at `now`; returns
    /// how many were dropped.
    pub fn cleanup_expired_sessions(&mut self, now: u64) -> (removed: usize)
        requires
            old(self).wf(),
        ensures
            final(self).wf(),
            final(self).config_view() == old(self).config_view(),
            final(self).bindings() == old(self).bindings(),
            final(self).user_ids() == old(self).user_ids(),
            forall|k: Seq<char>| #[trigger] final(self).sessions().contains_key(k) == (old(self).sessions().contains_key(k)
                && now <= old(self).sessions()[k].expires_at_ms),
            forall|k: Seq<char>| #[trigger] final(self).sessions().contains_key(k) ==> final(self).sessions()[k] == old(self).sessions()[k],
            removed + final(self).counts().0 == old(self).counts().0,
    {
        let n = self.verification_sessions.len();
        let mut keep: Vec<bool> = Vec::new();
        let ghost pred = |s: VerificationSession| now <= s.expires_at_ms;
        let mut i: usize = 0;
        while i < n
            invariant
                n == self.verification_sessions.spec_len(),
                i <= n,
                keep@.len() == i,
                pred == (|s: VerificationSession| now <= s.expires_at_ms),
                forall|j: int| 0 <= j < i ==> keep@[j] == pred(#[trigger] self.verification_sessions.entries_seq()[j].1),
            decreases n - i,
        {
            keep.push(now <= self.verification_sessions.value_at_index(i).expires_at_ms);
            i = i + 1;
        }
        self.verification_sessions.retain_marked(&keep, Ghost(pred))
    }

    /// Counters of the server.
    pub fn get_statistics(&self) -> (s: IdentityStatistics)
        requires
            self.wf(),
        ensures
            s.active_verification_sessions == self.counts().0,
            s.total_bindings == self.counts().1,
            s.users_with_threepids == self.counts().2,
            s.email_bindings == count_kind(self.binding_entries(), 0),
            s.phone_bindings == count_kind(self.binding_entries(), 1),
    {
        let ghost s = self.threepid_bindings.entries_seq();
        let n = self.threepid_bindings.len();
        let mut email: usize = 0;
        let mut phone: usize = 0;
        let mut i: usize = 0;
        while i < n
            invariant
                n == s.len(),
                s == self.threepid_bindings.entries_seq(),
                i <= n,
                email == count_kind(s.subrange(0, i as int), 0),
                phone == count_kind(s.subrange(0, i as int), 1),
                email + phone <= i,
            decreases n - i,
        {
            proof {
                let t = s.subrange(0, i + 1);
                assert(t.drop_last() =~= s.subrange(0, i as int));
                assert(t.last() == s[i as int]);
            }
            match &self.threepid_bindings.value_at_index(i).threepid {
                ThirdPartyIdentifier::Email(_) => {
                    email = email + 1;
                },
                ThirdPartyIdentifier::PhoneNumber(_) => {
                    phone = phone + 1;
                },
                _ => {},
            }
            i = i + 1;
        }
        assert(s.subrange(0, n as int) =~= s);
        IdentityStatistics {
            active_verification_sessions: self.verification_sessions.len(),
            total_bindings: n,
            users_with_threepids: self.user_threepids.len(),
            email_bindings: email,
            phone_bindings: phone,
        }
    }
}

/// Whether two identifiers are the same.
pub fn same_threepid(a: &ThirdPartyIdentifier, b: &ThirdPartyIdentifier) -> (r: bool)
    ensures
        r == (threepid_view(*a) == threepid_view(*b)),
{
    match (a, b) {
        (ThirdPartyIdentifier::Email(x), ThirdPartyIdentifier::Email(y)) => *x == *y,
        (ThirdPartyIdentifier::PhoneNumber(x), ThirdPartyIdentifier::PhoneNumber(y)) => *x == *y,
        (
            ThirdPartyIdentifier::Custom { identifier_type: t1, identifier: i1 },
            ThirdPartyIdentifier::Custom { identifier_type: t2, identifier: i2 },
        ) => *t1 == *t2 && *i1 == *i2,
        _ => false,
    }
}

/// The decimal text of a number from 100000 to 999999 has six digits.
proof fn lemma_six_digits(n: nat)
    requires
        100000 <= n < 1000000,
    ensures
        decimal(n).len() == 6,
{
    reveal_with_fuel(decimal, 7);
}

impl Default for IdentityRateLimits {
    fn default() -> (r: Self)
        ensures
            r.verification_per_minute == 5,
            r.lookup_per_minute == 100,
            r.bulk_lookup_limit == 1000,
            r.bind_per_minute == 10,
    {
        IdentityRateLimits { verification_per_minute: 5, lookup_per_minute: 100, bulk_lookup_limit: 1000, bind_per_minute: 10 }
    }
}

impl Default for IdentityPrivacyConfig {
    fn default() -> (r: Self)
        ensures
            r.enable_hashed_lookups,
            r.require_consent,
            r.retention_period_secs == 31536000,
            r.gdpr_compliance,
            !r.allow_third_party_sharing,
    {
        IdentityPrivacyConfig {
            enable_hashed_lookups: true,
            require_consent: true,
            retention_period_secs: 31536000,
            gdpr_compliance: true,
            allow_third_party_sharing: false,
        }
    }
}

impl Default for TermsConfig {
    fn default() -> (r: Self)
        ensures
            r.terms_url is None,
            r.privacy_policy_url is None,
            !r.require_terms_acceptance,
            r.terms_version@ == "1.0"@,
    {
        TermsConfig {
            terms_url: None,
            privacy_policy_url: None,
            require_terms_acceptance: false,
            terms_version: String::from_str("1.0"),
        }
    }
}

impl Default for IdentityServerConfig {
    fn default() -> (c: Self)
        ensures
            !c.enabled,
            c.server_url@ == "https://identity.matrix.org"@,
            c.access_token is None,
            c.private_key is None,
            c.public_key is None,
            c.server_name@ == "matrix.example.com"@,
            c.verification_token_lifetime_secs == 600,
            c.session_token_lifetime_secs == 3600,
            c.rate_limits.bulk_lookup_limit == 1000,
            c.supported_hash_algorithms@.len() == 1,
            c.supported_hash_algorithms@[0]@ == "sha256"@,
            c.lookup_pepper@ == "default_pepper_change_in_production"@,
            c.terms_config.terms_version@ == "1.0"@,
    {
        let mut algs: Vec<String> = Vec::new();
        algs.push(String::from_str("sha256"));
        IdentityServerConfig {
            enabled: false,
            server_url: String::from_str("https://identity.matrix.org"),
            access_token: None,
            private_key: None,
            public_key: None,
            server_name: String::from_str("matrix.example.com"),
            verification_token_lifetime_secs: 600,
            session_token_lifetime_secs: 3600,
            rate_limits: IdentityRateLimits::default(),
            privacy_config: IdentityPrivacyConfig::default(),
            supported_hash_algorithms: algs,
            lookup_pepper: String::from_str("default_pepper_change_in_production"),
            terms_config: TermsConfig::default(),
        }
    }
}

} // verus!
