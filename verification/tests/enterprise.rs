use base64::Engine;
use std::io::Read;
use matrixon_service::enterprise::ComplianceMode;
use matrixon_service::enterprise::audit::{
    export_csv, export_format_name, export_xml, AuditEvent, AuditLogEntry, AuditLogger, AuditQuery, AuditSeverity, ComplianceReportType,
    ExportFormat,
};
use matrixon_service::enterprise::identity::{IdentityServerConfig, IdentityServerService, ThirdPartyIdentifier};
use matrixon_service::enterprise::oidc::{
    AuthorizationCodeData, GrantType, OidcClientConfig, OidcConfig, OidcProviderService, ResponseType, TokenEndpointAuthMethod,
};
use matrixon_service::enterprise::saml::{
    IdentityProviderConfig, NameIdFormat, SamlAssertion, SamlAttributeStatement, SamlAuthRequest, SamlBinding,
    SamlConfig, SamlSsoService, SamlSubject,
};
use matrixon_service::enterprise::service::{EnterpriseConfig, EnterpriseIntegrationService};
use matrixon_service::error::ErrorKind;
use matrixon_service::strmap::StrMap;

fn user_created(user: &str, t: u64) -> AuditEvent {
    AuditEvent::UserCreated { user_id: user.to_string(), created_by: Some("@admin:example.com".to_string()), timestamp: t }
}

fn empty_query() -> AuditQuery {
    AuditQuery {
        start_time_ms: None,
        end_time_ms: None,
        event_types: None,
        user_id: None,
        source: None,
        severity: None,
        limit: None,
        offset: None,
    }
}

#[test]
fn audit_event_logging_and_query() {
    let mut logger = AuditLogger::new(true, ComplianceMode::Standard);
    logger.log_event(user_created("@testuser:example.com", 1), "{}".to_string(), 1000).unwrap();
    logger.log_event(user_created("@other:example.com", 2), "{}".to_string(), 2000).unwrap();
    let mut q = empty_query();
    q.user_id = Some("@testuser:example.com".to_string());
    let entries = logger.query_logs(&q);
    assert_eq!(entries.len(), 1);
    assert_eq!(entries[0].sequence, 1);
    let mut q = empty_query();
    q.start_time_ms = Some(1500);
    assert_eq!(logger.query_logs(&q).len(), 1);
    assert_eq!(logger.sequence_counter(), 2);
    let mut disabled = AuditLogger::new(false, ComplianceMode::Standard);
    disabled.log_event(user_created("@x:y", 1), "{}".to_string(), 1).unwrap();
    assert_eq!(disabled.len(), 0);
}

#[test]
fn audit_integrity_chain() {
    let mut logger = AuditLogger::new(true, ComplianceMode::Standard);
    for i in 0..5u64 {
        logger.log_event(user_created(&format!("@user{}:example.com", i), i), "{}".to_string(), i * 10).unwrap();
    }
    assert!(logger.verify_integrity());
    let entries = logger.query_logs(&empty_query());
    assert_eq!(entries[1].previous_hash.as_deref(), Some(entries[0].integrity_hash.as_str()));
    assert_eq!(entries[0].integrity_hash, AuditLogger::calculate_integrity_hash(entries[0]));
}

#[test]
fn audit_compliance_report() {
    let mut logger = AuditLogger::new(true, ComplianceMode::Gdpr);
    logger.log_event(user_created("@user1:example.com", 1), "{}".to_string(), 1000).unwrap();
    let violation = AuditEvent::SecurityViolation {
        violation_type: "unauthorized_access".to_string(),
        user_id: Some("@user1:example.com".to_string()),
        client_ip: Some("192.168.1.100".to_string()),
        details: "Test violation".to_string(),
        timestamp: 2,
    };
    assert_eq!(violation.determine_severity(), AuditSeverity::Critical);
    logger.log_event(violation, "{}".to_string(), 2000).unwrap();
    let report = logger.generate_compliance_report(ComplianceReportType::Security, 0, 3000, 3500);
    assert_eq!(report.summary.total_events, 2);
    assert_eq!(report.summary.critical_events, 1);
    assert_eq!(report.summary.info_events, 1);
    assert_eq!(report.summary.issues_found, 1);
    assert_eq!(report.generated_at_ms, 3500);
    assert!(report.findings.is_empty());
    for i in 0..11u64 {
        let failure = AuditEvent::AuthenticationFailure {
            session_id: format!("s{}", i),
            reason: "bad password".to_string(),
            client_ip: None,
            timestamp: i,
        };
        logger.log_event(failure, "{}".to_string(), 2500).unwrap();
    }
    let report = logger.generate_compliance_report(ComplianceReportType::Security, 0, 3000, 3500);
    assert_eq!(report.summary.warning_events, 11);
    assert_eq!(report.findings.len(), 1);
    assert!(!report.recommendations.is_empty());
}

fn idp() -> IdentityProviderConfig {
    IdentityProviderConfig {
        entity_id: "https://idp.example.com".to_string(),
        sso_url: "https://idp.example.com/sso".to_string(),
        slo_url: None,
        certificate: "test_cert".to_string(),
        metadata_url: None,
        name_id_format: NameIdFormat::EmailAddress,
        binding: SamlBinding::HttpPost,
        force_authn: false,
        attributes: vec![],
    }
}

#[test]
fn saml_config_validation_and_creation() {
    let mut invalid = SamlConfig::default();
    invalid.enabled = true;
    assert!(SamlSsoService::validate_config(&invalid).is_err());
    let mut valid = SamlConfig::default();
    valid.enabled = true;
    valid.identity_providers.insert("test_idp", idp());
    assert!(SamlSsoService::validate_config(&valid).is_ok());
    let service = SamlSsoService::new(SamlConfig::default()).unwrap();
    let stats = service.get_statistics();
    assert_eq!(stats.active_requests, 0);
    assert_eq!(stats.configured_idps, 0);
}

#[test]
fn saml_authn_request_generation() {
    let request = SamlAuthRequest {
        id: "test_request_123".to_string(),
        issuer: "https://sp.example.com".to_string(),
        destination: "https://idp.example.com/sso".to_string(),
        issue_instant_ms: 0,
        acs_url: "https://sp.example.com/acs".to_string(),
        name_id_format: NameIdFormat::EmailAddress,
        force_authn: false,
        relay_state: Some("test_session".to_string()),
    };
    let xml = SamlSsoService::generate_authn_request(&request);
    assert!(xml.contains("samlp:AuthnRequest"));
    assert!(xml.contains("test_request_123"));
    assert!(xml.contains("https://idp.example.com/sso"));
}

fn assertion(audience: &str, not_on_or_after_ms: u64, attributes: StrMap<Vec<String>>) -> SamlAssertion {
    SamlAssertion {
        id: "assertion_123".to_string(),
        issuer: "https://idp.example.com".to_string(),
        subject: SamlSubject {
            name_id: "testuser@example.com".to_string(),
            name_id_format: NameIdFormat::EmailAddress,
            confirmation_method: "urn:oasis:names:tc:SAML:2.0:cm:bearer".to_string(),
            not_on_or_after_ms,
            recipient: "https://sp.example.com/acs".to_string(),
            in_response_to: "request_456".to_string(),
        },
        issue_instant_ms: 1_000_000,
        not_before_ms: 940_000,
        not_on_or_after_ms,
        audience: audience.to_string(),
        authn_statement: None,
        attribute_statement: Some(SamlAttributeStatement { attributes }),
        signature_valid: true,
    }
}

#[test]
fn saml_user_info_extraction() {
    let service = SamlSsoService::new(SamlConfig::default()).unwrap();
    let mut attrs = StrMap::new();
    attrs.insert("mail", vec!["testuser@example.com".to_string()]);
    attrs.insert("displayName", vec!["Test User".to_string()]);
    attrs.insert("department", vec!["Engineering".to_string()]);
    let info = service.extract_user_info(&assertion("https://sp.example.com", 1_300_000, attrs)).unwrap();
    assert_eq!(info.name_id, "testuser@example.com");
    assert_eq!(info.email.as_deref(), Some("testuser@example.com"));
    assert_eq!(info.display_name.as_deref(), Some("Test User"));
    assert_eq!(info.department.as_deref(), Some("Engineering"));
}

#[test]
fn saml_assertion_validation() {
    let mut config = SamlConfig::default();
    config.sp_entity_id = "https://sp.example.com".to_string();
    config.require_signed_assertions = true;
    let service = SamlSsoService::new(config).unwrap();
    let now = 1_000_000;
    assert!(service.validate_assertion(&assertion("https://sp.example.com", now + 300_000, StrMap::new()), now).is_ok());
    assert!(service.validate_assertion(&assertion("https://sp.example.com", now - 60_000, StrMap::new()), now).is_err());
    assert!(service.validate_assertion(&assertion("https://wrong.example.com", now + 300_000, StrMap::new()), now).is_err());
}

#[test]
fn identity_email_verification_and_binding() {
    let config = IdentityServerConfig::default();
    let pepper = config.lookup_pepper.clone();
    let mut service = IdentityServerService::new(config).unwrap();
    let sid = service
        .request_email_verification_with(
            "bind@example.com",
            Some("@binduser:example.com"),
            Some("127.0.0.1".to_string()),
            1000,
            "s1".to_string(),
            "123456".to_string(),
        )
        .unwrap();
    assert_eq!(sid, "s1");
    let e = service.verify_email("s1", "000000", 1001).unwrap_err();
    assert_eq!(e.kind, ErrorKind::InvalidParam);
    assert_eq!(e.message, "Invalid verification token");
    let binding = service.verify_email("s1", "123456", 1002).unwrap();
    assert_eq!(binding.user_id, "@binduser:example.com");
    match &binding.threepid {
        ThirdPartyIdentifier::Email(email) => assert_eq!(email, "bind@example.com"),
        _ => panic!("Binding should be for email"),
    }
    let threepid = ThirdPartyIdentifier::Email("bind@example.com".to_string());
    service.bind_threepid(threepid, "@binduser:example.com", "s1", 1003).unwrap();
    let mine = service.get_user_threepids("@binduser:example.com");
    assert_eq!(mine.len(), 1);
    let hashed = IdentityServerService::hash_address("bind@example.com", &pepper);
    let found = service.lookup_threepids(&vec![hashed.clone()]).unwrap();
    assert_eq!(found.mappings.len(), 1);
    assert_eq!(found.mappings.get(&hashed).map(|s| s.as_str()), Some("@binduser:example.com"));
    let other = IdentityServerService::hash_address("nobody@example.com", &pepper);
    assert_eq!(service.lookup_threepids(&vec![other]).unwrap().mappings.len(), 0);
    service.unbind_threepid(&ThirdPartyIdentifier::Email("bind@example.com".to_string()), "@binduser:example.com").unwrap();
    assert!(service.get_user_threepids("@binduser:example.com").is_empty());
}

#[test]
fn identity_error_cases_and_hashing() {
    let config = IdentityServerConfig::default();
    let pepper = config.lookup_pepper.clone();
    let mut service = IdentityServerService::new(config).unwrap();
    assert!(service.request_email_verification("invalid-email", None, None, 0).is_err());
    assert!(service.verify_email("invalid_session", "123456", 0).is_err());
    let h1 = IdentityServerService::hash_address("privacy@example.com", &pepper);
    let h2 = IdentityServerService::hash_address("privacy@example.com", &pepper);
    let h3 = IdentityServerService::hash_address("privacy@example.com", "different_pepper");
    assert_eq!(h1, h2);
    assert_ne!(h1, h3);
    assert!(!h1.contains("privacy@example.com"));
}

fn client() -> OidcClientConfig {
    OidcClientConfig {
        client_id: "test_client".to_string(),
        client_secret: "test_secret".to_string(),
        redirect_uris: vec!["https://matrix.example.com/callback".to_string()],
        allowed_scopes: vec!["openid".to_string(), "profile".to_string()],
        client_name: "Test Client".to_string(),
        authorization_endpoint: "https://provider.example.com/auth".to_string(),
        token_endpoint: "https://provider.example.com/token".to_string(),
        userinfo_endpoint: "https://provider.example.com/userinfo".to_string(),
        jwks_endpoint: None,
        discovery_endpoint: None,
        token_endpoint_auth_method: TokenEndpointAuthMethod::ClientSecretBasic,
        response_types: vec![ResponseType::Code],
        grant_types: vec![GrantType::AuthorizationCode],
        pkce_required: false,
    }
}

#[test]
fn oidc_provider_flow_and_single_use_codes() {
    let mut config = OidcConfig::default();
    config.clients.insert("test_client", client());
    let mut service = OidcProviderService::new(config).unwrap();
    let url = service.initiate_authentication("test_session_123", "test_client", 1000).unwrap();
    assert!(url.contains("response_type=code"));
    assert!(url.contains("client_id=test_client"));
    assert!(url.contains("state=test_session_123"));
    assert!(service.initiate_authentication("session", "invalid_client", 1000).is_err());
    let r = service.process_authorization_response("test_auth_code", Some("test_session_123"), None, 1001).unwrap();
    assert_eq!(r.code.as_deref(), Some("test_auth_code"));
    assert_eq!(r.state.as_deref(), Some("test_session_123"));
    assert!(service
        .exchange_code_for_tokens("test_auth_code", "test_client", "wrong_secret", "https://matrix.example.com/callback", 1002)
        .is_err());
    let tokens = service
        .exchange_code_for_tokens("test_auth_code", "test_client", "test_secret", "https://matrix.example.com/callback", 1003)
        .unwrap();
    assert!(!tokens.access_token.is_empty());
    assert_eq!(tokens.token_type, "Bearer");
    assert!(tokens.id_token.is_some());
    assert!(tokens.refresh_token.is_some());
    assert!(service
        .exchange_code_for_tokens("test_auth_code", "test_client", "test_secret", "https://matrix.example.com/callback", 1004)
        .is_err());
    assert!(service
        .exchange_code_for_tokens("invalid_code", "test_client", "test_secret", "https://matrix.example.com/callback", 1004)
        .is_err());
}

#[test]
fn enterprise_service_creation() {
    let mut service = EnterpriseIntegrationService::new(EnterpriseConfig::default(), 0).unwrap();
    let stats = service.get_statistics();
    assert_eq!(stats.active_sessions, 0);
    assert_eq!(stats.registered_users, 0);
    assert!(!stats.saml_enabled);
    assert!(!stats.oidc_enabled);
    assert!(service.validate_session("non_existent", 10).is_none());
    assert!(service.get_user_profile("@test:example.com").is_none());
}

#[test]
fn audit_export_csv_and_xml() {
    let mut logger = AuditLogger::new(true, ComplianceMode::Standard);
    let violation = AuditEvent::SecurityViolation {
        violation_type: "scan".to_string(),
        user_id: None,
        client_ip: None,
        details: "a, b".to_string(),
        timestamp: 2,
    };
    logger.log_event(user_created("@u:example.com", 1), "{}".to_string(), 1500).unwrap();
    logger.log_event(violation, "{}".to_string(), 61_000).unwrap();
    let entries = logger.query_logs(&empty_query());
    let csv = export_csv(&entries);
    let lines: Vec<&str> = csv.lines().collect();
    assert_eq!(lines.len(), 3);
    assert_eq!(lines[0], "ID,Sequence,Event Type,Severity,Source,Timestamp,Description");
    let expected = format!(
        "{},2,Discriminant(21),Critical,{},1970-01-01T00:01:01Z,{}",
        entries[1].id,
        entries[1].source,
        "SecurityViolation"
    );
    assert_eq!(lines[2], expected);
    assert!(lines[1].contains(",1,Discriminant(8),Info,"));
    assert!(lines[1].contains(",1970-01-01T00:00:01Z,"));
    let xml = export_xml(&entries);
    assert!(xml.starts_with("<?xml version=\"1.0\" encoding=\"UTF-8\"?>\n<audit_logs>\n"));
    assert!(xml.ends_with("</audit_logs>"));
    assert_eq!(xml.matches("<entry ").count(), 2);
    assert!(xml.contains("    <event>SecurityViolation</event>\n"));
    assert!(xml.contains("    <event>UserCreated</event>\n"));
    assert!(lines[1].ends_with(",UserCreated"));
    assert_eq!(export_format_name(ExportFormat::Csv), "Csv");
    let before = logger.sequence_counter();
    logger.log_export(ExportFormat::Csv, 2, "{}".to_string(), 70_000).unwrap();
    assert_eq!(logger.sequence_counter(), before + 1);
    assert_eq!(logger.len(), 3);
}

#[test]
fn saml_redirect_encoding_round_trips() {
    let xml = "<samlp:AuthnRequest ID=\"r1\"/>";
    let encoded = SamlSsoService::encode_for_redirect(xml).unwrap();
    let compressed = base64::engine::general_purpose::STANDARD.decode(encoded.as_bytes()).unwrap();
    assert_ne!(compressed.as_slice(), xml.as_bytes());
    let mut decoder = flate2::read::DeflateDecoder::new(compressed.as_slice());
    let mut out = String::new();
    decoder.read_to_string(&mut out).unwrap();
    assert_eq!(out, xml);
}

#[test]
fn enterprise_session_lifetime() {
    let config = EnterpriseConfig::default();
    let timeout = config.session_timeout_ms;
    let mut service = EnterpriseIntegrationService::new(config, 0).unwrap();
    let token = service.complete_authentication("s1", "@u:example.com", None, 1000, "tok".to_string());
    assert_eq!(token, "tok");
    let s = service.validate_session("s1", 1000 + timeout).unwrap();
    assert_eq!(s.user_id, "@u:example.com");
    assert_eq!(s.expires_at_ms, 1000 + timeout);
    assert_eq!(s.last_activity_ms, 1000 + timeout);
    assert!(service.validate_session("s1", 1001 + timeout).is_none());
    assert!(service.validate_session("s1", 1000).is_none());
}

#[test]
fn audit_default_alert_thresholds() {
    let t = AuditLogger::default_alert_thresholds();
    assert_eq!(t.len(), 3);
    assert_eq!(t.get("failed_auth_per_hour"), Some(&10));
    assert_eq!(t.get("security_violations_per_day"), Some(&5));
    assert_eq!(t.get("admin_actions_per_hour"), Some(&20));
}

#[test]
fn audit_entry_ids_are_v4_uuids() {
    let mut logger = AuditLogger::new(true, ComplianceMode::Standard);
    logger.log_event(user_created("@u:example.com", 1), "{}".to_string(), 1000).unwrap();
    let entries = logger.query_logs(&empty_query());
    let id: Vec<char> = entries[0].id.chars().collect();
    assert_eq!(id.len(), 36);
    for (i, c) in id.iter().enumerate() {
        if i == 8 || i == 13 || i == 18 || i == 23 {
            assert_eq!(*c, '-');
        } else {
            assert!(c.is_ascii_hexdigit() && !c.is_ascii_uppercase());
        }
    }
    assert_eq!(id[14], '4');
    assert_eq!(entries[0].source, "matrixon-matrix-server");
    assert_eq!(entries[0].previous_hash, None);
}

#[test]
fn id_token_claims_are_escaped_json() {
    let service = OidcProviderService::new(OidcConfig::default()).unwrap();
    let data = AuthorizationCodeData {
        client_id: "c\"1".to_string(),
        redirect_uri: "https://matrix.example.com/callback".to_string(),
        scope: "openid".to_string(),
        user_id: "@a\\b\n\u{1}:example.com".to_string(),
        nonce: None,
        code_challenge: None,
        code_challenge_method: None,
        issued_at_ms: 0,
        expires_at_ms: 600_000,
    };
    let token = service.generate_id_token(&data, 5_000, "j1");
    let parts: Vec<&str> = token.split('.').collect();
    assert_eq!(parts.len(), 3);
    assert_eq!(parts[0], "eyJ0eXAiOiJKV1QiLCJhbGciOiJIUzI1NiJ9");
    assert_eq!(parts[2], "signature");
    let claims = base64::engine::general_purpose::STANDARD.decode(parts[1]).unwrap();
    let claims = String::from_utf8(claims).unwrap();
    assert_eq!(
        claims,
        "{\"iss\":\"https://matrix.example.com\",\"sub\":\"@a\\\\b\\n\\u0001:example.com\",\"aud\":\"c\\\"1\",\"exp\":3605,\"nbf\":5,\"iat\":5,\"jti\":\"j1\",\"nonce\":null}"
    );
}

fn chained_entries(n: u64) -> Vec<AuditLogEntry> {
    let mut out: Vec<AuditLogEntry> = Vec::new();
    for i in 0..n {
        let previous_hash = out.last().map(|e: &AuditLogEntry| e.integrity_hash.clone());
        let mut e = AuditLogEntry {
            id: format!("id{}", i),
            sequence: i + 1,
            event: user_created(&format!("@user{}:example.com", i), i),
            event_json: "{}".to_string(),
            severity: AuditSeverity::Info,
            source: "matrixon".to_string(),
            timestamp_ms: i * 1000,
            integrity_hash: String::new(),
            previous_hash,
        };
        e.integrity_hash = AuditLogger::calculate_integrity_hash(&e);
        out.push(e);
    }
    out
}

#[test]
fn tampered_audit_chains_fail_verification() {
    assert!(AuditLogger::verify_chain(&chained_entries(4)));
    let mut v = chained_entries(4);
    v[2].integrity_hash = "AAAA".to_string();
    assert!(!AuditLogger::verify_chain(&v));
    let mut v = chained_entries(4);
    v[1].previous_hash = None;
    assert!(!AuditLogger::verify_chain(&v));
    let mut v = chained_entries(4);
    v[3].source = "elsewhere".to_string();
    assert!(!AuditLogger::verify_chain(&v));
    let mut v = chained_entries(4);
    v[1].timestamp_ms = 5_000;
    assert!(!AuditLogger::verify_chain(&v));
    let mut v = chained_entries(4);
    v.remove(1);
    assert!(!AuditLogger::verify_chain(&v));
    let mut v = chained_entries(4);
    v.remove(3);
    assert!(AuditLogger::verify_chain(&v));
    let mut v = chained_entries(4);
    v.swap(1, 2);
    assert!(!AuditLogger::verify_chain(&v));
}
