//! SAML single sign-on: configuration checks, authentication requests for
//! the configured identity providers, response and assertion validation,
//! and the mapping of assertion attributes to Matrix user information.
use vstd::prelude::*;
use vstd::string::*;
use vstd::utf8::*;

use crate::counters::{copy_opt_string, copy_strings};
use crate::error::{ErrorKind, ServiceError, is_error, make_error, make_error_with};
use crate::external::{
    spec_base64, spec_base64_decode, spec_deflate, spec_rfc3339_seconds, base64_decode, base64_encode,
    deflate, new_uuid_v4, rfc3339_seconds, utf8_to_string,
};
use crate::strmap::StrMap;
use crate::text::{decimal, has_prefix, u64_to_decimal};

verus! {

/// SAML name identifier formats.
#[derive(Debug)]
pub enum NameIdFormat {
    EmailAddress,
    Unspecified,
    Transient,
    Persistent,
    Custom(String),
}

/// SAML protocol bindings.
#[derive(Debug, Clone, Copy, PartialEq, Eq, Structural)]
pub enum SamlBinding {
    HttpPost,
    HttpRedirect,
    HttpArtifact,
}

/// Configuration of one identity provider.
#[derive(Debug)]
pub struct IdentityProviderConfig {
    pub entity_id: String,
    pub sso_url: String,
    pub slo_url: Option<String>,
    pub certificate: String,
    pub metadata_url: Option<String>,
    pub name_id_format: NameIdFormat,
    pub binding: SamlBinding,
    pub force_authn: bool,
    pub attributes: Vec<(String, String)>,
}

/// Which SAML attribute feeds which Matrix user attribute.
#[derive(Debug)]
pub struct AttributeMappings {
    pub user_id: String,
    pub display_name: Option<String>,
    pub email: Option<String>,
    pub given_name: Option<String>,
    pub family_name: Option<String>,
    pub department: Option<String>,
    pub title: Option<String>,
    pub phone: Option<String>,
    pub groups: Option<String>,
    /// SAML attribute name to Matrix attribute name.
    pub custom: StrMap<String>,
}

/// How users that sign in through SAML are provisioned.
#[derive(Debug)]
pub struct UserProvisioningConfig {
    pub auto_create_users: bool,
    pub update_user_attributes: bool,
    pub default_user_type: String,
    pub default_rooms: Vec<String>,
    pub require_email_verification: bool,
}

/// SAML service configuration; the assertion validity is in seconds.
#[derive(Debug)]
pub struct SamlConfig {
    pub enabled: bool,
    pub sp_entity_id: String,
    pub sp_acs_url: String,
    pub sp_sls_url: Option<String>,
    pub sp_certificate: Option<String>,
    pub sp_private_key: Option<String>,
    pub identity_providers: StrMap<IdentityProviderConfig>,
    pub default_idp: Option<String>,
    pub sign_requests: bool,
    pub require_signed_assertions: bool,
    pub assertion_validity_secs: u64,
    pub attribute_mappings: AttributeMappings,
    pub user_provisioning: UserProvisioningConfig,
}

/// An authentication request sent to an identity provider; the issue
/// instant is in milliseconds since the Unix epoch.
#[derive(Debug)]
pub struct SamlAuthRequest {
    pub id: String,
    pub issuer: String,
    pub destination: String,
    pub issue_instant_ms: u64,
    pub acs_url: String,
    pub name_id_format: NameIdFormat,
    pub force_authn: bool,
    pub relay_state: Option<String>,
}

/// SAML status codes.
#[derive(Debug)]
pub enum SamlStatusCode {
    Success,
    AuthnFailed,
    InvalidRequest,
    UnsupportedBinding,
    VersionMismatch,
    Custom(String),
}

/// The subject of an assertion.
#[derive(Debug)]
pub struct SamlSubject {
    pub name_id: String,
    pub name_id_format: NameIdFormat,
    pub confirmation_method: String,
    pub not_on_or_after_ms: u64,
    pub recipient: String,
    pub in_response_to: String,
}

/// The authentication statement of an assertion.
#[derive(Debug)]
pub struct SamlAuthnStatement {
    pub authn_instant_ms: u64,
    pub authn_context_class_ref: String,
    pub session_index: Option<String>,
    pub session_not_on_or_after_ms: Option<u64>,
}

/// The attribute statement of an assertion: attribute name to values.
#[derive(Debug)]
pub struct SamlAttributeStatement {
    pub attributes: StrMap<Vec<String>>,
}

/// A SAML assertion; times are milliseconds since the Unix epoch.
#[derive(Debug)]
pub struct SamlAssertion {
    pub id: String,
    pub issuer: String,
    pub subject: SamlSubject,
    pub issue_instant_ms: u64,
    pub not_before_ms: u64,
    pub not_on_or_after_ms: u64,
    pub audience: String,
    pub authn_statement: Option<SamlAuthnStatement>,
    pub attribute_statement: Option<SamlAttributeStatement>,
    pub signature_valid: bool,
}

/// A SAML authentication response.
#[derive(Debug)]
pub struct SamlAuthResponse {
    pub id: String,
    pub in_response_to: String,
    pub issuer: String,
    pub issue_instant_ms: u64,
    pub destination: String,
    pub status_code: SamlStatusCode,
    pub assertion: Option<SamlAssertion>,
}

/// User information taken from an assertion.
#[derive(Debug)]
pub struct SamlUserInfo {
    pub name_id: String,
    pub user_id: Option<String>,
    pub email: Option<String>,
    pub display_name: Option<String>,
    pub given_name: Option<String>,
    pub family_name: Option<String>,
    pub department: Option<String>,
    pub title: Option<String>,
    pub phone: Option<String>,
    pub groups: Vec<String>,
    /// Matrix attribute name to the SAML values.
    pub custom_attributes: StrMap<Vec<String>>,
}

/// Counters of the SAML service.
#[derive(Debug, Clone, Copy, PartialEq, Eq, Structural)]
pub struct SamlStatistics {
    pub active_requests: usize,
    pub configured_idps: usize,
    pub signing_enabled: bool,
    pub signature_validation_enabled: bool,
}

/// The problem with an identity provider's configuration, if any.
pub open spec fn idp_problem(name: Seq<char>, idp: IdentityProviderConfig) -> Option<Seq<char>> {
    if idp.entity_id@.len() == 0 {
        Some("IdP "@ + name + " entity ID is required"@)
    } else if idp.sso_url@.len() == 0 {
        Some("IdP "@ + name + " SSO URL is required"@)
    } else if idp.certificate@.len() == 0 {
        Some("IdP "@ + name + " certificate is required"@)
    } else {
        None
    }
}

/// The first problem among the identity providers from position `i` on.
pub open spec fn idp_problem_from(s: Seq<(String, IdentityProviderConfig)>, i: int) -> Option<Seq<char>>
    decreases s.len() - i,
{
    if i < 0 || i >= s.len() {
        None
    } else {
        match idp_problem(s[i].0@, s[i].1) {
            Some(m) => Some(m),
            None => idp_problem_from(s, i + 1),
        }
    }
}

/// The message of the error `validate_config` reports, if any.
pub open spec fn saml_config_problem(c: SamlConfig) -> Option<Seq<char>> {
    if !c.enabled {
        None
    } else if c.sp_entity_id@.len() == 0 {
        Some("SAML SP entity ID is required"@)
    } else if c.sp_acs_url@.len() == 0 {
        Some("SAML SP ACS URL is required"@)
    } else if c.identity_providers.spec_len() == 0 {
        Some("At least one Identity Provider must be configured"@)
    } else {
        idp_problem_from(c.identity_providers.entries_seq(), 0)
    }
}

/// The URI of a name identifier format.
pub open spec fn name_id_format_uri(f: NameIdFormat) -> Seq<char> {
    match f {
        NameIdFormat::EmailAddress => "urn:oasis:names:tc:SAML:1.1:nameid-format:emailAddress"@,
        NameIdFormat::Unspecified => "urn:oasis:names:tc:SAML:1.1:nameid-format:unspecified"@,
        NameIdFormat::Transient => "urn:oasis:names:tc:SAML:2.0:nameid-format:transient"@,
        NameIdFormat::Persistent => "urn:oasis:names:tc:SAML:2.0:nameid-format:persistent"@,
        NameIdFormat::Custom(s) => s@,
    }
}

/// `true` or `false`.
pub open spec fn bool_text(b: bool) -> Seq<char> {
    if b { "true"@ } else { "false"@ }
}

/// The AuthnRequest XML document of a request.
pub open spec fn authn_request_xml(r: SamlAuthRequest) -> Seq<char> {
    "<samlp:AuthnRequest xmlns:samlp=\"urn:oasis:names:tc:SAML:2.0:protocol\"\n                xmlns:saml=\"urn:oasis:names:tc:SAML:2.0:assertion\"\n                ID=\""@
        + r.id@
        + "\"\n                Version=\"2.0\"\n                IssueInstant=\""@
        + spec_rfc3339_seconds(r.issue_instant_ms / 1000)
        + "\"\n                Destination=\""@
        + r.destination@
        + "\"\n                ForceAuthn=\""@
        + bool_text(r.force_authn)
        + "\"\n                AssertionConsumerServiceURL=\""@
        + r.acs_url@
        + "\"\n                ProtocolBinding=\"urn:oasis:names:tc:SAML:2.0:bindings:HTTP-POST\">\n                <saml:Issuer>"@
        + r.issuer@
        + "</saml:Issuer>\n                <samlp:NameIDPolicy Format=\""@
        + name_id_format_uri(r.name_id_format)
        + "\" AllowCreate=\"true\"/>\n                <samlp:RequestedAuthnContext Comparison=\"exact\">\n                    <saml:AuthnContextClassRef>urn:oasis:names:tc:SAML:2.0:ac:classes:Password</saml:AuthnContextClassRef>\n                </samlp:RequestedAuthnContext>\n            </samlp:AuthnRequest>"@
}

/// The request the service records when `session_id` starts signing in at
/// identity provider `idp` at `now` (milliseconds) under `request_id`.
pub open spec fn request_for(
    c: SamlConfig,
    idp: IdentityProviderConfig,
    request_id: Seq<char>,
    session_id: Seq<char>,
    now: u64,
    r: SamlAuthRequest,
) -> bool {
    &&& r.id@ == request_id
    &&& r.issuer@ == c.sp_entity_id@
    &&& r.destination@ == idp.sso_url@
    &&& r.issue_instant_ms == now
    &&& r.acs_url@ == c.sp_acs_url@
    &&& r.name_id_format == idp.name_id_format
    &&& r.force_authn == idp.force_authn
    &&& r.relay_state matches Some(s) && s@ == session_id
}

/// The first value of attribute `name`, where the attribute has values.
pub open spec fn first_value(attrs: Map<Seq<char>, Vec<String>>, name: Seq<char>) -> Option<String> {
    if attrs.contains_key(name) && attrs[name]@.len() > 0 {
        Some(attrs[name]@[0])
    } else {
        None
    }
}

/// The first value of the attribute that a mapping names, where there is an
/// attribute statement, a mapping and a value.
pub open spec fn mapped_value(st: Option<SamlAttributeStatement>, attr: Option<String>) -> Option<String> {
    match st {
        Some(s) => match attr {
            Some(a) => first_value(s.attributes@, a@),
            None => None,
        },
        None => None,
    }
}

/// The custom attributes taken through the first `n` custom mappings: each
/// mapping whose SAML attribute is present sets its Matrix attribute to the
/// attribute's values; a later mapping overwrites an earlier one.
pub open spec fn custom_values(
    mappings: Seq<(String, String)>,
    attrs: Map<Seq<char>, Vec<String>>,
    n: int,
) -> Map<Seq<char>, Seq<String>>
    decreases n,
{
    if n <= 0 || n > mappings.len() {
        Map::empty()
    } else {
        let m = custom_values(mappings, attrs, n - 1);
        let (saml_attr, matrix_attr) = mappings[n - 1];
        if attrs.contains_key(saml_attr@) {
            m.insert(matrix_attr@, attrs[saml_attr@]@)
        } else {
            m
        }
    }
}

/// The values of each key of a map of string vectors.
pub open spec fn value_views(m: Map<Seq<char>, Vec<String>>) -> Map<Seq<char>, Seq<String>> {
    m.map_values(|v: Vec<String>| v@)
}

/// The user information an assertion yields under the mappings `m`.
pub open spec fn user_info_for(m: AttributeMappings, a: SamlAssertion, info: SamlUserInfo) -> bool {
    let st = a.attribute_statement;
    let uid = mapped_value(st, Some(m.user_id));
    &&& info.name_id == a.subject.name_id
    &&& info.user_id == (if uid is Some { uid } else { Some(a.subject.name_id) })
    &&& info.email == mapped_value(st, m.email)
    &&& info.display_name == mapped_value(st, m.display_name)
    &&& info.given_name == mapped_value(st, m.given_name)
    &&& info.family_name == mapped_value(st, m.family_name)
    &&& info.department == mapped_value(st, m.department)
    &&& info.title == mapped_value(st, m.title)
    &&& info.phone == mapped_value(st, m.phone)
    &&& info.groups@ == match (st, m.groups) {
        (Some(s), Some(g)) => if s.attributes@.contains_key(g@) { s.attributes@[g@]@ } else { Seq::empty() },
        _ => Seq::empty(),
    }
    &&& info.custom_attributes.wf()
    &&& value_views(info.custom_attributes@) == match st {
        Some(s) => custom_values(m.custom.entries_seq(), s.attributes@, m.custom.spec_len() as int),
        None => Map::empty(),
    }
}

/// The error an assertion fails with at `now` (milliseconds), if any.
pub open spec fn assertion_problem(c: SamlConfig, a: SamlAssertion, now: u64) -> Option<Seq<char>> {
    if now < a.not_before_ms {
        Some("SAML assertion not yet valid"@)
    } else if now > a.not_on_or_after_ms {
        Some("SAML assertion has expired"@)
    } else if a.audience@ != c.sp_entity_id@ {
        Some("SAML assertion audience mismatch"@)
    } else if c.require_signed_assertions && !a.signature_valid {
        Some("SAML assertion signature validation failed"@)
    } else {
        None
    }
}

/// The error a response fails validation with at `now`, if any.
pub open spec fn response_problem(c: SamlConfig, r: SamlAuthResponse, now: u64) -> Option<(ErrorKind, Seq<char>)> {
    match r.status_code {
        SamlStatusCode::Success => match r.assertion {
            Some(a) => match assertion_problem(c, a, now) {
                Some(m) => Some((ErrorKind::InvalidParam, m)),
                None => None,
            },
            None => None,
        },
        SamlStatusCode::AuthnFailed => Some((ErrorKind::Forbidden, "SAML authentication failed"@)),
        _ => Some((ErrorKind::InvalidParam, "SAML response has error status"@)),
    }
}

/// How long a pending request is kept, in milliseconds (ten minutes).
pub open spec fn request_lifetime_ms() -> int {
    600000
}

/// A pending request issued at `issued` has expired at `now`.
pub open spec fn request_expired(issued: u64, now: u64) -> bool {
    now > issued && now - issued > request_lifetime_ms()
}

/// Well-formedness of a SAML configuration: its maps keep distinct keys.
pub open spec fn config_wf(c: SamlConfig) -> bool {
    c.identity_providers.wf() && c.attribute_mappings.custom.wf()
}

/// A copy of a name identifier format.
pub fn copy_name_id_format(f: &NameIdFormat) -> (r: NameIdFormat)
    ensures
        r == *f,
{
    match f {
        NameIdFormat::EmailAddress => NameIdFormat::EmailAddress,
        NameIdFormat::Unspecified => NameIdFormat::Unspecified,
        NameIdFormat::Transient => NameIdFormat::Transient,
        NameIdFormat::Persistent => NameIdFormat::Persistent,
        NameIdFormat::Custom(s) => NameIdFormat::Custom(s.clone()),
    }
}

/// The URI of a name identifier format.
pub fn name_id_format_text(f: &NameIdFormat) -> (r: &str)
    ensures
        r@ == name_id_format_uri(*f),
{
    match f {
        NameIdFormat::EmailAddress => "urn:oasis:names:tc:SAML:1.1:nameid-format:emailAddress",
        NameIdFormat::Unspecified => "urn:oasis:names:tc:SAML:1.1:nameid-format:unspecified",
        NameIdFormat::Transient => "urn:oasis:names:tc:SAML:2.0:nameid-format:transient",
        NameIdFormat::Persistent => "urn:oasis:names:tc:SAML:2.0:nameid-format:persistent",
        NameIdFormat::Custom(s) => s.as_str(),
    }
}

/// The problem with one identity provider's configuration, if any.
fn check_idp(name: &String, idp: &IdentityProviderConfig) -> (r: Option<String>)
    ensures
        match r {
            Some(m) => idp_problem(name@, *idp) == Some(m@),
            None => idp_problem(name@, *idp) is None,
        },
{
    if idp.entity_id.as_str().unicode_len() == 0 {
        let mut m = String::from_str("IdP ");
        m.append(name.as_str());
        m.append(" entity ID is required");
        Some(m)
    } else if idp.sso_url.as_str().unicode_len() == 0 {
        let mut m = String::from_str("IdP ");
        m.append(name.as_str());
        m.append(" SSO URL is required");
        Some(m)
    } else if idp.certificate.as_str().unicode_len() == 0 {
        let mut m = String::from_str("IdP ");
        m.append(name.as_str());
        m.append(" certificate is required");
        Some(m)
    } else {
        None
    }
}

/// The first value of `name` among the attributes, copied.
fn lookup_first(attrs: &StrMap<Vec<String>>, name: &str) -> (r: Option<String>)
    requires
        attrs.wf(),
    ensures
        r == first_value(attrs@, name@),
{
    match attrs.get(name) {
        Some(values) => {
            if values.len() > 0 {
                Some(values[0].clone())
            } else {
                None
            }
        },
        None => None,
    }
}

/// The first value of the attribute a mapping names, copied.
fn lookup_mapped(st: &Option<SamlAttributeStatement>, attr: &Option<String>) -> (r: Option<String>)
    requires
        st matches Some(s) ==> s.attributes.wf(),
    ensures
        r == mapped_value(*st, *attr),
{
    match st {
        Some(s) => match attr {
            Some(a) => lookup_first(&s.attributes, a.as_str()),
            None => None,
        },
        None => None,
    }
}

/// The SAML service: its configuration and the requests awaiting a response.
pub struct SamlSsoService {
    config: SamlConfig,
    active_requests: StrMap<SamlAuthRequest>,
}

impl SamlSsoService {
    /// The configuration.
    pub closed spec fn config_view(&self) -> SamlConfig {
        self.config
    }

    /// The pending requests by id.
    pub closed spec fn requests(&self) -> Map<Seq<char>, SamlAuthRequest> {
        self.active_requests@
    }

    /// Number of pending requests.
    pub closed spec fn request_count(&self) -> nat {
        self.active_requests.spec_len()
    }

    /// Well-formedness: the maps keep distinct keys.
    pub closed spec fn wf(&self) -> bool {
        config_wf(self.config) && self.active_requests.wf()
    }

    /// `after` is this service after signing in `session_id` was started at
    /// identity provider `idp_name` at `now` under request id `request_id`,
    /// answering `r`: an unknown provider is refused and nothing is
    /// recorded; otherwise the request is recorded and its AuthnRequest
    /// returned for the provider's binding (Base64 for POST, DEFLATE then
    /// Base64 for redirect), the artifact binding being refused.
    pub open spec fn initiated(
        self,
        after: Self,
        session_id: Seq<char>,
        idp_name: Seq<char>,
        request_id: Seq<char>,
        now: u64,
        r: Result<String, ServiceError>,
    ) -> bool {
        &&& after.config_view() == self.config_view()
        &&& !self.config_view().identity_providers@.contains_key(idp_name) ==> {
            &&& r matches Err(e) && is_error(e, ErrorKind::InvalidParam, "Unknown Identity Provider: "@ + idp_name)
            &&& after.requests() == self.requests()
        }
        &&& self.config_view().identity_providers@.contains_key(idp_name) ==> {
            let idp = self.config_view().identity_providers@[idp_name];
            let req = after.requests()[request_id];
            let xml = encode_utf8(authn_request_xml(req));
            &&& after.requests() == self.requests().insert(request_id, req)
            &&& request_for(self.config_view(), idp, request_id, session_id, now, req)
            &&& match idp.binding {
                SamlBinding::HttpPost => r matches Ok(t) && t@ == spec_base64(xml),
                SamlBinding::HttpRedirect => r matches Ok(t) && t@ == spec_base64(spec_deflate(xml)),
                SamlBinding::HttpArtifact => r matches Err(e) && is_error(
                    e,
                    ErrorKind::Unrecognized,
                    "HTTP-Artifact binding not yet supported"@,
                ),
            }
        }
    }

    /// Checks a configuration: a disabled one always passes; an enabled one
    /// needs an SP entity ID, an ACS URL, at least one identity provider,
    /// and an entity ID, SSO URL and certificate for each provider.
    pub fn validate_config(config: &SamlConfig) -> (r: Result<(), ServiceError>)
        requires
            config_wf(*config),
        ensures
            match saml_config_problem(*config) {
                None => r is Ok,
                Some(m) => r matches Err(e) && is_error(e, ErrorKind::InvalidParam, m),
            },
    {
        if !config.enabled {
            return Ok(());
        }
        if config.sp_entity_id.as_str().unicode_len() == 0 {
            return Err(make_error(ErrorKind::InvalidParam, "SAML SP entity ID is required"));
        }
        if config.sp_acs_url.as_str().unicode_len() == 0 {
            return Err(make_error(ErrorKind::InvalidParam, "SAML SP ACS URL is required"));
        }
        let n = config.identity_providers.len();
        if n == 0 {
            return Err(make_error(ErrorKind::InvalidParam, "At least one Identity Provider must be configured"));
        }
        let ghost s = config.identity_providers.entries_seq();
        let mut i: usize = 0;
        while i < n
            invariant
                n == s.len(),
                s == config.identity_providers.entries_seq(),
                i <= n,
                idp_problem_from(s, 0) == idp_problem_from(s, i as int),
                saml_config_problem(*config) == idp_problem_from(s, 0),
            decreases n - i,
        {
            let name = config.identity_providers.key_at_index(i);
            let idp = config.identity_providers.value_at_index(i);
            match check_idp(name, idp) {
                Some(m) => {
                    assert(idp_problem_from(s, i as int) == Some(m@));
                    return Err(ServiceError { kind: ErrorKind::InvalidParam, message: m });
                },
                None => {
                    assert(idp_problem_from(s, i as int) == idp_problem_from(s, i + 1));
                },
            }
            i = i + 1;
        }
        assert(idp_problem_from(s, n as int) is None);
        Ok(())
    }

    /// A service over a configuration that passes `validate_config`.
    pub fn new(config: SamlConfig) -> (r: Result<Self, ServiceError>)
        requires
            config_wf(config),
        ensures
            match saml_config_problem(config) {
                None => r matches Ok(s) && s.wf() && s.config_view() == config && s.requests() == Map::<Seq<char>, SamlAuthRequest>::empty()
                    && s.request_count() == 0,
                Some(m) => r matches Err(e) && is_error(e, ErrorKind::InvalidParam, m),
            },
    {
        match Self::validate_config(&config) {
            Err(e) => Err(e),
            Ok(()) => Ok(SamlSsoService { config, active_requests: StrMap::new() }),
        }
    }

    /// The AuthnRequest XML document of a request.
    pub fn generate_authn_request(request: &SamlAuthRequest) -> (xml: String)
        requires
            request.issue_instant_ms / 1000 < 253_402_300_800,
        ensures
            xml@ == authn_request_xml(*request),
    {
        let issue_instant = rfc3339_seconds(request.issue_instant_ms / 1000);
        let mut x = String::from_str(
            "<samlp:AuthnRequest xmlns:samlp=\"urn:oasis:names:tc:SAML:2.0:protocol\"\n                xmlns:saml=\"urn:oasis:names:tc:SAML:2.0:assertion\"\n                ID=\"",
        );
        x.append(request.id.as_str());
        x.append("\"\n                Version=\"2.0\"\n                IssueInstant=\"");
        x.append(issue_instant.as_str());
        x.append("\"\n                Destination=\"");
        x.append(request.destination.as_str());
        x.append("\"\n                ForceAuthn=\"");
        if request.force_authn {
            x.append("true");
        } else {
            x.append("false");
        }
        x.append("\"\n                AssertionConsumerServiceURL=\"");
        x.append(request.acs_url.as_str());
        x.append(
            "\"\n                ProtocolBinding=\"urn:oasis:names:tc:SAML:2.0:bindings:HTTP-POST\">\n                <saml:Issuer>",
        );
        x.append(request.issuer.as_str());
        x.append("</saml:Issuer>\n                <samlp:NameIDPolicy Format=\"");
        x.append(name_id_format_text(&request.name_id_format));
        x.append(
            "\" AllowCreate=\"true\"/>\n                <samlp:RequestedAuthnContext Comparison=\"exact\">\n                    <saml:AuthnContextClassRef>urn:oasis:names:tc:SAML:2.0:ac:classes:Password</saml:AuthnContextClassRef>\n                </samlp:RequestedAuthnContext>\n            </samlp:AuthnRequest>",
        );
        x
    }

    /// The request document `xml` for the redirect binding: its UTF-8 bytes
    /// DEFLATE-compressed, then Base64-encoded.
    pub fn encode_for_redirect(xml: &str) -> (r: Result<String, ServiceError>)
        ensures
            r matches Ok(t) && t@ == spec_base64(spec_deflate(encode_utf8(xml@))),
    {
        let bytes = xml.as_bytes_vec();
        match deflate(bytes.as_slice()) {
            Some(compressed) => Ok(base64_encode(compressed.as_slice())),
            None => Err(make_error(ErrorKind::Unknown, "Failed to compress SAML request")),
        }
    }

    /// Starts signing in `session_id` at identity provider `idp_name` at
    /// `now` (milliseconds) under `request_id`: records the request and
    /// returns its AuthnRequest, Base64-encoded for the POST binding and
    /// DEFLATE-compressed then Base64-encoded for the redirect binding. The
    /// artifact binding is refused, after the request was recorded.
    pub fn initiate_authentication_with_id(
        &mut self,
        session_id: &str,
        idp_name: &str,
        request_id: String,
        now: u64,
    ) -> (r: Result<String, ServiceError>)
        requires
            old(self).wf(),
            now / 1000 < 253_402_300_800,
        ensures
            final(self).wf(),
            old(self).initiated(*final(self), session_id@, idp_name@, request_id@, now, r),
    {
        let idp = match self.config.identity_providers.get(idp_name) {
            Some(idp) => idp,
            None => {
                return Err(make_error_with(ErrorKind::InvalidParam, "Unknown Identity Provider: ", idp_name));
            },
        };
        let request = SamlAuthRequest {
            id: request_id.clone(),
            issuer: self.config.sp_entity_id.clone(),
            destination: idp.sso_url.clone(),
            issue_instant_ms: now,
            acs_url: self.config.sp_acs_url.clone(),
            name_id_format: copy_name_id_format(&idp.name_id_format),
            force_authn: idp.force_authn,
            relay_state: Some(String::from_str(session_id)),
        };
        let binding = idp.binding;
        let xml = Self::generate_authn_request(&request);
        self.active_requests.insert(request_id.as_str(), request);
        match binding {
            SamlBinding::HttpRedirect => Self::encode_for_redirect(xml.as_str()),
            SamlBinding::HttpPost => {
                let bytes = xml.as_str().as_bytes_vec();
                Ok(base64_encode(bytes.as_slice()))
            },
            SamlBinding::HttpArtifact => Err(make_error(ErrorKind::Unrecognized, "HTTP-Artifact binding not yet supported")),
        }
    }

    /// Starts signing in `session_id` at identity provider `idp_name` at
    /// `now` under a fresh request id, `saml_req_` followed by the time in
    /// seconds, `_` and a random UUID; see `initiate_authentication_with_id`.
    pub fn initiate_authentication(&mut self, session_id: &str, idp_name: &str, now: u64) -> (r: Result<String, ServiceError>)
        requires
            old(self).wf(),
            now / 1000 < 253_402_300_800,
        ensures
            final(self).wf(),
            final(self).requests().len() <= old(self).requests().len() + 1,
            exists|request_id: Seq<char>|
                #[trigger] old(self).initiated(*final(self), session_id@, idp_name@, request_id, now, r) && has_prefix(
                    request_id,
                    "saml_req_"@,
                ),
    {
        let mut request_id = String::from_str("saml_req_");
        let secs = u64_to_decimal(now / 1000);
        request_id.append(secs.as_str());
        request_id.append("_");
        let uuid = new_uuid_v4();
        request_id.append(uuid.as_str());
        let ghost id = request_id@;
        let ghost old_requests = self.active_requests@;
        proof {
            self.active_requests.lemma_len();
            reveal_strlit("saml_req_");
            assert(id.subrange(0, 9) =~= "saml_req_"@);
        }
        let r = self.initiate_authentication_with_id(session_id, idp_name, request_id, now);
        proof {
            if old(self).config_view().identity_providers@.contains_key(idp_name@) {
                let req = self.requests()[id];
                assert(self.requests() == old_requests.insert(id, req));
                assert(old_requests.dom().finite());
                assert(self.requests().len() <= old_requests.len() + 1) by {
                    if old_requests.contains_key(id) {
                        assert(old_requests.insert(id, req).dom() =~= old_requests.dom());
                    }
                }
            }
            assert(old(self).initiated(*self, session_id@, idp_name@, id, now, r));
        }
        r
    }

    /// The response a SAML response document stands for. The document is not
    /// read: the response is a fixed successful one, timed around `now`.
    pub fn parse_saml_response(xml: &str, now: u64) -> (r: SamlAuthResponse)
        requires
            now >= 60000,
            now <= u64::MAX - 3600000,
        ensures
            r.id@ == "response_123"@,
            r.in_response_to@.len() > 0,
            r.in_response_to@ == "request_456"@,
            r.status_code is Success,
            r.assertion matches Some(a) && a.not_before_ms == now - 60000 && a.not_on_or_after_ms == now + 300000
                && a.audience@ == "https://sp.example.com"@ && a.signature_valid
                && a.subject.name_id@ == "user@example.com"@
                && (a.attribute_statement matches Some(st) && st.attributes.wf()),
    {
        proof {
            reveal_strlit("request_456");
        }
        let mut attrs: StrMap<Vec<String>> = StrMap::new();
        let mut email: Vec<String> = Vec::new();
        email.push(String::from_str("user@example.com"));
        attrs.insert("email", email);
        let mut display: Vec<String> = Vec::new();
        display.push(String::from_str("Test User"));
        attrs.insert("displayName", display);
        let mut dept: Vec<String> = Vec::new();
        dept.push(String::from_str("Engineering"));
        attrs.insert("department", dept);
        SamlAuthResponse {
            id: String::from_str("response_123"),
            in_response_to: String::from_str("request_456"),
            issuer: String::from_str("https://idp.example.com"),
            issue_instant_ms: now,
            destination: String::from_str("https://sp.example.com/acs"),
            status_code: SamlStatusCode::Success,
            assertion: Some(SamlAssertion {
                id: String::from_str("assertion_789"),
                issuer: String::from_str("https://idp.example.com"),
                subject: SamlSubject {
                    name_id: String::from_str("user@example.com"),
                    name_id_format: NameIdFormat::EmailAddress,
                    confirmation_method: String::from_str("urn:oasis:names:tc:SAML:2.0:cm:bearer"),
                    not_on_or_after_ms: now + 300000,
                    recipient: String::from_str("https://sp.example.com/acs"),
                    in_response_to: String::from_str("request_456"),
                },
                issue_instant_ms: now,
                not_before_ms: now - 60000,
                not_on_or_after_ms: now + 300000,
                audience: String::from_str("https://sp.example.com"),
                authn_statement: Some(SamlAuthnStatement {
                    authn_instant_ms: now,
                    authn_context_class_ref: String::from_str("urn:oasis:names:tc:SAML:2.0:ac:classes:Password"),
                    session_index: Some(String::from_str("session_123")),
                    session_not_on_or_after_ms: Some(now + 3600000),
                }),
                attribute_statement: Some(SamlAttributeStatement { attributes: attrs }),
                signature_valid: true,
            }),
        }
    }

    /// Checks an assertion at `now`: it must be within its validity window,
    /// addressed to this service provider, and signed where signatures are
    /// required.
    pub fn validate_assertion(&self, assertion: &SamlAssertion, now: u64) -> (r: Result<(), ServiceError>)
        ensures
            match assertion_problem(self.config_view(), *assertion, now) {
                None => r is Ok,
                Some(m) => r matches Err(e) && is_error(e, ErrorKind::InvalidParam, m),
            },
    {
        if now < assertion.not_before_ms {
            return Err(make_error(ErrorKind::InvalidParam, "SAML assertion not yet valid"));
        }
        if now > assertion.not_on_or_after_ms {
            return Err(make_error(ErrorKind::InvalidParam, "SAML assertion has expired"));
        }
        if assertion.audience != self.config.sp_entity_id {
            return Err(make_error(ErrorKind::InvalidParam, "SAML assertion audience mismatch"));
        }
        if self.config.require_signed_assertions && !assertion.signature_valid {
            return Err(make_error(ErrorKind::InvalidParam, "SAML assertion signature validation failed"));
        }
        Ok(())
    }

    /// Checks a response at `now`: its status must be success, and its
    /// assertion, if any, valid.
    pub fn validate_saml_response(&self, response: &SamlAuthResponse, now: u64) -> (r: Result<(), ServiceError>)
        ensures
            match response_problem(self.config_view(), *response, now) {
                None => r is Ok,
                Some((k, m)) => r matches Err(e) && is_error(e, k, m),
            },
    {
        match &response.status_code {
            SamlStatusCode::Success => {},
            SamlStatusCode::AuthnFailed => {
                return Err(make_error(ErrorKind::Forbidden, "SAML authentication failed"));
            },
            _ => {
                return Err(make_error(ErrorKind::InvalidParam, "SAML response has error status"));
            },
        }
        match &response.assertion {
            Some(a) => self.validate_assertion(a, now),
            None => Ok(()),
        }
    }

    /// Processes a Base64-encoded SAML response at `now`: decodes it as
    /// UTF-8 text, reads it with `parse_saml_response`, validates it, and
    /// forgets the request it answers.
    pub fn process_response(&mut self, saml_response: &str, now: u64) -> (r: Result<SamlAuthResponse, ServiceError>)
        requires
            old(self).wf(),
            now >= 60000,
            now <= u64::MAX - 3600000,
        ensures
            final(self).wf(),
            final(self).config_view() == old(self).config_view(),
            spec_base64_decode(saml_response@) is None ==> {
                &&& r matches Err(e) && is_error(e, ErrorKind::InvalidParam, "Invalid SAML response encoding"@)
                &&& final(self).requests() == old(self).requests()
            },
            (spec_base64_decode(saml_response@) matches Some(b) && !valid_utf8(b)) ==> {
                &&& r matches Err(e) && is_error(e, ErrorKind::InvalidParam, "Invalid SAML response UTF-8"@)
                &&& final(self).requests() == old(self).requests()
            },
            (spec_base64_decode(saml_response@) matches Some(b) && valid_utf8(b)) ==> {
                if old(self).config_view().sp_entity_id@ == "https://sp.example.com"@ {
                    &&& r matches Ok(resp) && resp.id@ == "response_123"@ && resp.in_response_to@ == "request_456"@
                        && resp.status_code is Success
                    &&& final(self).requests() == old(self).requests().remove("request_456"@)
                } else {
                    &&& r matches Err(e) && is_error(e, ErrorKind::InvalidParam, "SAML assertion audience mismatch"@)
                    &&& final(self).requests() == old(self).requests()
                }
            },
    {
        let bytes = match base64_decode(saml_response) {
            Some(b) => b,
            None => {
                return Err(make_error(ErrorKind::InvalidParam, "Invalid SAML response encoding"));
            },
        };
        let xml = match utf8_to_string(bytes) {
            Some(s) => s,
            None => {
                return Err(make_error(ErrorKind::InvalidParam, "Invalid SAML response UTF-8"));
            },
        };
        let response = Self::parse_saml_response(xml.as_str(), now);
        match self.validate_saml_response(&response, now) {
            Err(e) => {
                return Err(e);
            },
            Ok(()) => {},
        }
        if response.in_response_to.as_str().unicode_len() > 0 {
            self.active_requests.remove(response.in_response_to.as_str());
        }
        Ok(response)
    }

    /// The user information an assertion yields under the configured
    /// attribute mappings; the name ID stands in for a missing user ID.
    pub fn extract_user_info(&self, assertion: &SamlAssertion) -> (r: Result<SamlUserInfo, ServiceError>)
        requires
            self.wf(),
            assertion.attribute_statement matches Some(s) ==> s.attributes.wf(),
        ensures
            r matches Ok(info) && user_info_for(self.config_view().attribute_mappings, *assertion, info),
    {
        let m = &self.config.attribute_mappings;
        let st = &assertion.attribute_statement;
        let user_id = match lookup_mapped(st, &Some(m.user_id.clone())) {
            Some(u) => Some(u),
            None => Some(assertion.subject.name_id.clone()),
        };
        let groups = match (st, &m.groups) {
            (Some(s), Some(g)) => match s.attributes.get(g.as_str()) {
                Some(values) => copy_strings(values),
                None => Vec::new(),
            },
            _ => Vec::new(),
        };
        let mut custom: StrMap<Vec<String>> = StrMap::new();
        match st {
            Some(s) => {
                let n = m.custom.len();
                let mut i: usize = 0;
                while i < n
                    invariant
                        n == m.custom.spec_len(),
                        m.custom.wf(),
                        s.attributes.wf(),
                        i <= n,
                        custom.wf(),
                        value_views(custom@) == custom_values(m.custom.entries_seq(), s.attributes@, i as int),
                    decreases n - i,
                {
                    let saml_attr = m.custom.key_at_index(i);
                    let matrix_attr = m.custom.value_at_index(i);
                    match s.attributes.get(saml_attr.as_str()) {
                        Some(values) => {
                            let ghost before = custom@;
                            custom.insert(matrix_attr.as_str(), copy_strings(values));
                            assert(value_views(custom@) =~= value_views(before).insert(matrix_attr@, values@));
                        },
                        None => {},
                    }
                    i = i + 1;
                }
            },
            None => {
                assert(value_views(custom@) =~= Map::<Seq<char>, Seq<String>>::empty());
            },
        }
        Ok(SamlUserInfo {
            name_id: assertion.subject.name_id.clone(),
            user_id,
            email: lookup_mapped(st, &m.email),
            display_name: lookup_mapped(st, &m.display_name),
            given_name: lookup_mapped(st, &m.given_name),
            family_name: lookup_mapped(st, &m.family_name),
            department: lookup_mapped(st, &m.department),
            title: lookup_mapped(st, &m.title),
            phone: lookup_mapped(st, &m.phone),
            groups,
            custom_attributes: custom,
        })
    }

    /// Forgets the requests pending for more than ten minutes at `now`;
    /// returns how many were forgotten.
    pub fn cleanup_expired_requests(&mut self, now: u64) -> (removed: usize)
        requires
            old(self).wf(),
        ensures
            final(self).wf(),
            final(self).config_view() == old(self).config_view(),
            forall|k: Seq<char>| #[trigger] final(self).requests().contains_key(k) == (old(self).requests().contains_key(k)
                && !request_expired(old(self).requests()[k].issue_instant_ms, now)),
            forall|k: Seq<char>| #[trigger] final(self).requests().contains_key(k) ==> final(self).requests()[k] == old(self).requests()[k],
            removed + final(self).request_count() == old(self).request_count(),
    {
        let n = self.active_requests.len();
        let mut keep: Vec<bool> = Vec::new();
        let ghost pred = |r: SamlAuthRequest| !request_expired(r.issue_instant_ms, now);
        let mut i: usize = 0;
        while i < n
            invariant
                n == self.active_requests.spec_len(),
                i <= n,
                keep@.len() == i,
                pred == (|r: SamlAuthRequest| !request_expired(r.issue_instant_ms, now)),
                forall|j: int| 0 <= j < i ==> keep@[j] == pred(#[trigger] self.active_requests.entries_seq()[j].1),
            decreases n - i,
        {
            let issued = self.active_requests.value_at_index(i).issue_instant_ms;
            let expired = now > issued && now - issued > 600000;
            keep.push(!expired);
            i = i + 1;
        }
        self.active_requests.retain_marked(&keep, Ghost(pred))
    }

    /// Counters of the service.
    pub fn get_statistics(&self) -> (s: SamlStatistics)
        requires
            self.wf(),
        ensures
            s.active_requests == self.request_count(),
            s.configured_idps == self.config_view().identity_providers.spec_len(),
            s.signing_enabled == self.config_view().sign_requests,
            s.signature_validation_enabled == self.config_view().require_signed_assertions,
    {
        SamlStatistics {
            active_requests: self.active_requests.len(),
            configured_idps: self.config.identity_providers.len(),
            signing_enabled: self.config.sign_requests,
            signature_validation_enabled: self.config.require_signed_assertions,
        }
    }
}

/// The default attribute mappings: `uid`, `displayName`, `mail`,
/// `givenName`, `sn`, `department`, `title`, `telephoneNumber`, `memberOf`.
pub open spec fn default_mappings(m: AttributeMappings) -> bool {
    &&& m.user_id@ == "uid"@
    &&& m.display_name matches Some(s) && s@ == "displayName"@
    &&& m.email matches Some(s) && s@ == "mail"@
    &&& m.given_name matches Some(s) && s@ == "givenName"@
    &&& m.family_name matches Some(s) && s@ == "sn"@
    &&& m.department matches Some(s) && s@ == "department"@
    &&& m.title matches Some(s) && s@ == "title"@
    &&& m.phone matches Some(s) && s@ == "telephoneNumber"@
    &&& m.groups matches Some(s) && s@ == "memberOf"@
    &&& m.custom.wf() && m.custom.spec_len() == 0
}

impl Default for AttributeMappings {
    fn default() -> (m: Self)
        ensures
            default_mappings(m),
    {
        AttributeMappings {
            user_id: String::from_str("uid"),
            display_name: Some(String::from_str("displayName")),
            email: Some(String::from_str("mail")),
            given_name: Some(String::from_str("givenName")),
            family_name: Some(String::from_str("sn")),
            department: Some(String::from_str("department")),
            title: Some(String::from_str("title")),
            phone: Some(String::from_str("telephoneNumber")),
            groups: Some(String::from_str("memberOf")),
            custom: StrMap::new(),
        }
    }
}

impl Default for UserProvisioningConfig {
    fn default() -> (c: Self)
        ensures
            c.auto_create_users,
            c.update_user_attributes,
            c.default_user_type@ == "user"@,
            c.default_rooms@.len() == 0,
            !c.require_email_verification,
    {
        UserProvisioningConfig {
            auto_create_users: true,
            update_user_attributes: true,
            default_user_type: String::from_str("user"),
            default_rooms: Vec::new(),
            require_email_verification: false,
        }
    }
}

impl Default for SamlConfig {
    fn default() -> (c: Self)
        ensures
            !c.enabled,
            c.sp_entity_id@ == "https://matrix.example.com"@,
            c.sp_acs_url@ == "https://matrix.example.com/_matrix/saml2/acs"@,
            c.sp_sls_url is None,
            c.sp_certificate is None,
            c.sp_private_key is None,
            c.identity_providers.wf(),
            c.identity_providers.spec_len() == 0,
            c.default_idp is None,
            !c.sign_requests,
            c.require_signed_assertions,
            c.assertion_validity_secs == 300,
            default_mappings(c.attribute_mappings),
            config_wf(c),
    {
        SamlConfig {
            enabled: false,
            sp_entity_id: String::from_str("https://matrix.example.com"),
            sp_acs_url: String::from_str("https://matrix.example.com/_matrix/saml2/acs"),
            sp_sls_url: None,
            sp_certificate: None,
            sp_private_key: None,
            identity_providers: StrMap::new(),
            default_idp: None,
            sign_requests: false,
            require_signed_assertions: true,
            assertion_validity_secs: 300,
            attribute_mappings: AttributeMappings::default(),
            user_provisioning: UserProvisioningConfig::default(),
        }
    }
}

/// The name-ID format an AuthnRequest asks for (its `NameIDPolicy`
/// `Format`) is the standard URN of the configured format: SAML 1.1 for the
/// e-mail address and unspecified formats, SAML 2.0 for the transient and
/// persistent ones, and a custom format's own text.
pub proof fn lemma_name_id_format_urns(f: NameIdFormat)
    ensures
        f is EmailAddress ==> name_id_format_uri(f) == "urn:oasis:names:tc:SAML:1.1:nameid-format:emailAddress"@,
        f is Unspecified ==> name_id_format_uri(f) == "urn:oasis:names:tc:SAML:1.1:nameid-format:unspecified"@,
        f is Transient ==> name_id_format_uri(f) == "urn:oasis:names:tc:SAML:2.0:nameid-format:transient"@,
        f is Persistent ==> name_id_format_uri(f) == "urn:oasis:names:tc:SAML:2.0:nameid-format:persistent"@,
        f matches NameIdFormat::Custom(t) ==> name_id_format_uri(f) == t@,
{
}

/// The AuthnRequest of a sign-in at identity provider `idp` asks for the
/// name-ID format `idp` is configured with: its document holds a
/// `NameIDPolicy` element whose `Format` is that format's URI.
pub proof fn lemma_request_asks_for_configured_format(
    c: SamlConfig,
    idp: IdentityProviderConfig,
    request_id: Seq<char>,
    session_id: Seq<char>,
    now: u64,
    r: SamlAuthRequest,
)
    requires
        request_for(c, idp, request_id, session_id, now, r),
    ensures
        r.name_id_format == idp.name_id_format,
        exists|pre: Seq<char>, post: Seq<char>|
            authn_request_xml(r) == pre + "<samlp:NameIDPolicy Format=\""@ + name_id_format_uri(idp.name_id_format)
                + "\" AllowCreate=\"true\"/>"@ + post,
{
    reveal_strlit("</saml:Issuer>\n                <samlp:NameIDPolicy Format=\"");
    reveal_strlit("</saml:Issuer>\n                ");
    reveal_strlit("<samlp:NameIDPolicy Format=\"");
    reveal_strlit("\" AllowCreate=\"true\"/>\n                <samlp:RequestedAuthnContext Comparison=\"exact\">\n                    <saml:AuthnContextClassRef>urn:oasis:names:tc:SAML:2.0:ac:classes:Password</saml:AuthnContextClassRef>\n                </samlp:RequestedAuthnContext>\n            </samlp:AuthnRequest>");
    reveal_strlit("\" AllowCreate=\"true\"/>");
    reveal_strlit("\n                <samlp:RequestedAuthnContext Comparison=\"exact\">\n                    <saml:AuthnContextClassRef>urn:oasis:names:tc:SAML:2.0:ac:classes:Password</saml:AuthnContextClassRef>\n                </samlp:RequestedAuthnContext>\n            </samlp:AuthnRequest>");
    assert("</saml:Issuer>\n                <samlp:NameIDPolicy Format=\""@ =~= "</saml:Issuer>\n                "@ + "<samlp:NameIDPolicy Format=\""@);
    assert("\" AllowCreate=\"true\"/>\n                <samlp:RequestedAuthnContext Comparison=\"exact\">\n                    <saml:AuthnContextClassRef>urn:oasis:names:tc:SAML:2.0:ac:classes:Password</saml:AuthnContextClassRef>\n                </samlp:RequestedAuthnContext>\n            </samlp:AuthnRequest>"@ =~= "\" AllowCreate=\"true\"/>"@ + "\n                <samlp:RequestedAuthnContext Comparison=\"exact\">\n                    <saml:AuthnContextClassRef>urn:oasis:names:tc:SAML:2.0:ac:classes:Password</saml:AuthnContextClassRef>\n                </samlp:RequestedAuthnContext>\n            </samlp:AuthnRequest>"@);
    let pre = "<samlp:AuthnRequest xmlns:samlp=\"urn:oasis:names:tc:SAML:2.0:protocol\"\n                xmlns:saml=\"urn:oasis:names:tc:SAML:2.0:assertion\"\n                ID=\""@
        + r.id@
        + "\"\n                Version=\"2.0\"\n                IssueInstant=\""@
        + spec_rfc3339_seconds(r.issue_instant_ms / 1000)
        + "\"\n                Destination=\""@
        + r.destination@
        + "\"\n                ForceAuthn=\""@
        + bool_text(r.force_authn)
        + "\"\n                AssertionConsumerServiceURL=\""@
        + r.acs_url@
        + "\"\n                ProtocolBinding=\"urn:oasis:names:tc:SAML:2.0:bindings:HTTP-POST\">\n                <saml:Issuer>"@
        + r.issuer@ + "</saml:Issuer>\n                "@;
    let post = "\n                <samlp:RequestedAuthnContext Comparison=\"exact\">\n                    <saml:AuthnContextClassRef>urn:oasis:names:tc:SAML:2.0:ac:classes:Password</saml:AuthnContextClassRef>\n                </samlp:RequestedAuthnContext>\n            </samlp:AuthnRequest>"@;
    let u = name_id_format_uri(r.name_id_format);
    assert(authn_request_xml(r) =~= pre + "<samlp:NameIDPolicy Format=\""@ + u + "\" AllowCreate=\"true\"/>"@ + post);
}

} // verus!
