use matrixon_service::auth::oidc::{
    generate_code_challenge, replace_str, JwtAlgorithm, OidcAuthService, OidcCallbackParams,
    OidcConfig, OidcTokenResponse, SessionStatus,
};
use matrixon_service::error::ErrorKind;

fn enabled_service() -> OidcAuthService {
    let mut config = OidcConfig::default();
    config.enabled = true;
    config.client_id = "matrix".to_string();
    config.client_secret = "s3cret".to_string();
    OidcAuthService::try_new(config).unwrap()
}

#[test]
fn oidc_service_creation_defaults() {
    let service = OidcAuthService::try_new(OidcConfig::default()).unwrap();
    assert!(!service.config.enabled);
    assert_eq!(service.provider_config.authorization_endpoint, "https://example.com/.well-known/openid_configuration");
    assert_eq!(service.provider_config.response_types_supported, vec!["code".to_string()]);
    assert_eq!(service.get_metrics().total_auth_attempts, 0);
    let e = service.get_config().unwrap_err();
    assert_eq!(e.message, "OIDC authentication is not enabled");
    let mut bad = OidcConfig::default();
    bad.discovery_url = "not a url".to_string();
    assert!(OidcAuthService::try_new(bad).is_none());
}

#[test]
fn test_jwt_key_generation() {
    let keys = OidcAuthService::generate_jwt_keys(&JwtAlgorithm::HS256).unwrap();
    assert_eq!(keys.algorithm, JwtAlgorithm::HS256);
    let keys = OidcAuthService::generate_jwt_keys(&JwtAlgorithm::RS256).unwrap();
    assert_eq!(keys.algorithm, JwtAlgorithm::HS256);
    assert_eq!(keys.secret.len(), 32);
    assert_eq!(OidcAuthService::generate_jwt_keys(&JwtAlgorithm::HS512).unwrap().algorithm, JwtAlgorithm::HS512);
}

#[test]
fn pkce_challenge_known_value() {
    let challenge = generate_code_challenge("dBjftJeZ4CVP-mJ92K27uhbUJU1p1r_wW1gFWFOEjXk");
    assert_eq!(challenge, "ngF5GsXcbwljx6u133FFr3Xht9xooA_DuaX_3QwODtc");
}

#[test]
fn replace_is_left_to_right() {
    assert_eq!(replace_str("aaa", "aa", "b"), "ba");
    assert_eq!(replace_str("@{sub}:{sub}", "{sub}", "x"), "@x:x");
    assert_eq!(replace_str("none", "{sub}", "x"), "none");
}

#[test]
fn authorize_disabled_is_refused() {
    let mut service = OidcAuthService::try_new(OidcConfig::default()).unwrap();
    let e = service.authorize(None, 0).unwrap_err();
    assert_eq!(e.kind, ErrorKind::Unknown);
    assert_eq!(e.message, "OIDC authentication is not enabled");
}

#[test]
fn authorize_builds_the_provider_url() {
    let mut service = enabled_service();
    let url = service
        .authorize_with(None, "sess1".to_string(), "state1".to_string(), Some("dBjftJeZ4CVP-mJ92K27uhbUJU1p1r_wW1gFWFOEjXk".to_string()), 100)
        .unwrap();
    assert_eq!(
        url,
        "https://example.com/.well-known/openid_configuration?response_type=code&client_id=matrix\
&redirect_uri=https%3A%2F%2Fmatrix.example.com%2F_matrix%2Fclient%2Fv1%2Fauth%2Foidc%2Fcallback\
&scope=openid+profile+email&state=state1&code_challenge=ngF5GsXcbwljx6u133FFr3Xht9xooA_DuaX_3QwODtc\
&code_challenge_method=S256"
    );
    assert_eq!(service.get_metrics().total_auth_attempts, 1);
    assert!(service.has_session("sess1"));
    let url = service.authorize(Some("https://other/cb".to_string()), 200).unwrap();
    assert!(url.contains("code_challenge_method=S256"));
    assert_eq!(service.get_metrics().total_auth_attempts, 2);
}

#[test]
fn callback_decisions() {
    let mut service = enabled_service();
    service.authorize_with(None, "sess1".to_string(), "state1".to_string(), Some("verifier".to_string()), 100).unwrap();
    let params = |state: &str, code: Option<&str>, error: Option<&str>| OidcCallbackParams {
        code: code.map(|c| c.to_string()),
        state: state.to_string(),
        error: error.map(|e| e.to_string()),
        error_description: None,
    };
    let e = service.begin_callback(&params("nope", Some("c"), None)).unwrap_err();
    assert_eq!(e.message, "Invalid or expired OIDC state");
    let e = service.begin_callback(&params("state1", None, Some("access_denied"))).unwrap_err();
    assert_eq!(e.kind, ErrorKind::Forbidden);
    assert_eq!(e.message, "OIDC error: access_denied - ");
    assert_eq!(service.get_metrics().failed_auths, 1);
    let e = service.begin_callback(&params("state1", None, None)).unwrap_err();
    assert_eq!(e.kind, ErrorKind::InvalidParam);
    assert_eq!(e.message, "Missing authorization code");
    let (sid, code) = service.begin_callback(&params("state1", Some("abc"), None)).unwrap();
    assert_eq!(sid, "sess1");
    assert_eq!(code, "abc");
    let form = service.token_request_params(&sid, &code);
    let keys: Vec<&str> = form.iter().map(|(k, _)| k.as_str()).collect();
    assert_eq!(keys, vec!["grant_type", "code", "redirect_uri", "client_id", "client_secret", "code_verifier"]);
    assert_eq!(form[5].1, "verifier");
    let user = service.map_oidc_user_to_matrix("12345", Some("test@example.com"), "example.com").unwrap();
    assert_eq!(user, "@12345:example.com");
    let device = OidcAuthService::new_device_id();
    assert!(device.starts_with("OIDC_") && device.len() == 13);
    let tokens = OidcTokenResponse {
        access_token: "provider-token".to_string(),
        token_type: "Bearer".to_string(),
        expires_in: Some(3600),
        refresh_token: None,
        scope: None,
        id_token: None,
    };
    let response = service.complete_callback(&sid, &user, &device, &tokens, "matrix-token", 25, 150);
    assert_eq!(response.access_token, "matrix-token");
    assert_eq!(response.user_id, "@12345:example.com");
    assert_eq!(response.expires_in_ms, Some(3600000));
    let m = service.get_metrics();
    assert_eq!((m.successful_auths, m.active_sessions, m.avg_auth_time), (1, 1, 25));
    let session = service.sessions.get("sess1").unwrap();
    assert_eq!(session.status, SessionStatus::Authenticated);
    let (target, u, d) = service.logout_target("matrix-token").unwrap();
    assert_eq!(target, "sess1");
    assert_eq!(u.as_deref(), Some("@12345:example.com"));
    assert_eq!(d, Some(device));
    assert!(service.logout_target("other").is_none());
    let answer = service.finish_logout(Some(&target));
    assert!(answer.logout_url.is_none());
    assert!(!service.has_session("sess1"));
    assert_eq!(service.get_metrics().active_sessions, 0);
}

#[test]
fn user_mapping_templates() {
    let mut config = OidcConfig::default();
    config.user_mapping.user_id_template = "{email}".to_string();
    let service = OidcAuthService::try_new(config).unwrap();
    assert_eq!(service.map_oidc_user_to_matrix("1", Some("alice"), "example.com").unwrap(), "@alice:example.com");
    let e = service.map_oidc_user_to_matrix("1", None, "bad host").unwrap_err();
    assert_eq!(e.kind, ErrorKind::InvalidParam);
    assert!(e.message.starts_with("Invalid Matrix user ID generated: "));
}

#[test]
fn sessions_expire_and_discovery_applies() {
    let mut service = enabled_service();
    service.authorize_with(None, "old".to_string(), "s1".to_string(), None, 0).unwrap();
    service.authorize_with(None, "new".to_string(), "s2".to_string(), None, 7_000_000).unwrap();
    assert_eq!(service.cleanup_expired_sessions(7_200_000), 1);
    assert!(!service.has_session("old"));
    assert!(service.has_session("new"));
    assert_eq!(service.get_metrics().active_sessions, u64::MAX);
    service.apply_discovery(Some("https://idp.example.org"), Some("not a url"), None, None, None);
    assert_eq!(service.provider_config.issuer, "https://idp.example.org/");
    assert_eq!(service.provider_config.authorization_endpoint, "https://example.com/.well-known/openid_configuration");
    let c = service.get_config().unwrap();
    assert_eq!(c.issuer, "https://idp.example.org/");
    assert_eq!(c.client_id, "matrix");
}
