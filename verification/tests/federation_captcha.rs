use matrixon_service::captcha::{ip_whitelisted, CaptchaLimits, CaptchaRequest, Service, VerifyStep};
use matrixon_service::error::ErrorKind;
use matrixon_service::federation::{
    validate_server_names, BridgeConfig, BridgeType, DiscoveredServer, FederationConfig, FederationManager,
    ServerStatus, TrustLevel,
};

fn discovered(version: &str) -> DiscoveredServer {
    DiscoveredServer { version: Some(version.to_string()), federation_version: "1.11".to_string() }
}

#[test]
fn federation_manager_creation() {
    let manager = FederationManager::new(FederationConfig::default());
    assert_eq!(manager.get_stats().total_servers, 0);
    assert!(manager.list_server_names().is_empty());
    assert_eq!(manager.config.rate_limits.burst_size, 20);
}

#[test]
fn federation_server_addition() {
    let mut config = FederationConfig::default();
    config.blocked_servers.push("evil.com".to_string());
    config.trusted_servers.push("friend.org".to_string());
    let mut manager = FederationManager::new(config);
    assert!(manager.add_server("example.com", discovered("1.0"), 10).is_ok());
    assert_eq!(manager.list_server_names(), vec!["example.com".to_string()]);
    let e = manager.add_server("evil.com", discovered("1.0"), 10).unwrap_err();
    assert_eq!(e.kind, ErrorKind::BadConfig);
    assert_eq!(e.message, "Server evil.com is blocked");
    manager.add_server("friend.org", discovered("2.0"), 11).unwrap();
    assert_eq!(manager.servers.get("friend.org").unwrap().trust_level, TrustLevel::Trusted);
    assert_eq!(manager.servers.get("example.com").unwrap().trust_level, TrustLevel::Normal);
    let s = manager.get_stats();
    assert_eq!((s.total_servers, s.online_servers), (2, 2));
}

#[test]
fn federation_discovery_round() {
    let mut manager = FederationManager::new(FederationConfig::default());
    manager.add_server("a.com", discovered("1.0"), 1).unwrap();
    manager.add_server("b.com", discovered("1.0"), 1).unwrap();
    let results = vec![
        ("a.com".to_string(), Some(discovered("1.1"))),
        ("b.com".to_string(), None),
        ("unknown.com".to_string(), None),
    ];
    manager.apply_discovery_round(&results, 500);
    let a = manager.servers.get("a.com").unwrap();
    assert_eq!(a.status, ServerStatus::Online);
    assert_eq!(a.version.as_deref(), Some("1.1"));
    assert_eq!(a.last_seen_ms, 500);
    assert_eq!(manager.servers.get("b.com").unwrap().status, ServerStatus::Offline);
    let s = manager.get_stats();
    assert_eq!((s.online_servers, s.total_servers), (1, 2));
}

#[test]
fn federation_bridges_and_names() {
    let mut manager = FederationManager::new(FederationConfig::default());
    let config = BridgeConfig {
        name: "discord".to_string(),
        endpoint: "https://discord.example".to_string(),
        credentials: vec![],
        settings_json: "{}".to_string(),
        features: vec!["messages".to_string()],
    };
    manager.create_bridge("b1", BridgeType::Discord, config, 5);
    assert!(manager.bridges.contains_key("b1"));
    manager.remove_bridge("b1");
    assert!(!manager.bridges.contains_key("b1"));
    let names = vec!["example.com".to_string(), "matrix.org:8448".to_string()];
    assert_eq!(validate_server_names(names.clone()).unwrap(), names);
    let e = validate_server_names(vec!["ok.com".to_string(), "bad name".to_string(), "also bad!".to_string()]).unwrap_err();
    assert_eq!(e.kind, ErrorKind::InvalidParam);
    assert!(e.message.starts_with("Invalid server name: "));
}

fn limits(per_minute: u32) -> CaptchaLimits {
    CaptchaLimits {
        enabled: true,
        max_attempts_per_minute: per_minute,
        max_attempts_per_hour: 100,
        enable_caching: true,
        cache_ttl_ms: 300000,
    }
}

fn request(ip: Option<&str>) -> CaptchaRequest {
    CaptchaRequest {
        response: "test_response".to_string(),
        remote_ip: ip.map(|s| s.to_string()),
        challenge_data: None,
    }
}

#[test]
fn captcha_rate_limiting() {
    let mut service = Service::new(limits(1));
    assert!(service.check_rate_limit("192.168.1.1", 0, 0).is_ok());
    let e = service.check_rate_limit("192.168.1.1", 10, 0).unwrap_err();
    assert_eq!(e.kind, ErrorKind::LimitExceeded);
    assert_eq!(e.message, "Too many CAPTCHA attempts per minute");
    assert!(service.check_rate_limit("192.168.1.1", 70_000, 0).is_ok());
    service.update_rate_limit_state("192.168.1.1", false);
    assert_eq!(service.consecutive_failures("192.168.1.1"), 1);
    let mut relaxed = Service::new(limits(10));
    relaxed.check_rate_limit("10.0.0.1", 0, 0).unwrap();
    relaxed.update_rate_limit_state("10.0.0.1", false);
    let e = relaxed.check_rate_limit("10.0.0.1", 1000, 5000).unwrap_err();
    assert_eq!(e.message, "Please wait before attempting CAPTCHA verification again");
    assert!(relaxed.check_rate_limit("10.0.0.1", 6000, 5000).is_ok());
}

#[test]
fn captcha_cache_and_stats() {
    let mut service = Service::new(limits(5));
    service.cache_verification_result("test_token", true, 0);
    assert_eq!(service.check_verification_cache("test_token", 10), Some(true));
    assert_eq!(service.check_verification_cache("non_existent", 10), None);
    assert_eq!(service.check_verification_cache("test_token", 400_000), None);
    service.cache_verification_result("test2", false, 1000);
    let stats = service.get_stats();
    assert_eq!((stats.rate_limited_ips, stats.cached_verifications), (0, 2));
    service.cleanup_cache(300_500);
    assert_eq!(service.get_stats().cached_verifications, 1);
}

#[test]
fn captcha_verification_steps() {
    let mut off = limits(5);
    off.enabled = false;
    let mut disabled = Service::new(off);
    assert!(matches!(disabled.begin_verify(&request(Some("127.0.0.1")), false, 0, 0), VerifyStep::Done(Ok(true))));
    let mut service = Service::new(limits(5));
    assert!(matches!(service.begin_verify(&request(Some("127.0.0.1")), true, 0, 0), VerifyStep::Done(Ok(true))));
    assert!(matches!(service.begin_verify(&request(Some("1.2.3.4")), false, 0, 0), VerifyStep::AskProvider));
    assert_eq!(service.finish_verify(&request(Some("1.2.3.4")), Ok(false), 0).unwrap(), false);
    assert!(matches!(service.begin_verify(&request(None), false, 5, 0), VerifyStep::AskProvider));
    assert_eq!(service.finish_verify(&request(None), Ok(true), 6).unwrap(), true);
    assert!(matches!(service.begin_verify(&request(None), false, 7, 0), VerifyStep::Done(Ok(true))));
}

#[test]
fn recaptcha_v3_processing() {
    let min_score: f32 = 0.7;
    let high: f32 = 0.8;
    let low: f32 = 0.3;
    assert_eq!(Service::process_verification_response(true, true, Some(high >= min_score)).unwrap(), true);
    assert_eq!(Service::process_verification_response(true, true, Some(low >= min_score)).unwrap(), false);
    assert_eq!(Service::process_verification_response(true, true, None).unwrap(), false);
    assert_eq!(Service::process_verification_response(false, false, None).unwrap(), false);
    assert_eq!(Service::process_verification_response(true, false, None).unwrap(), true);
}

#[test]
fn captcha_caches_only_passed_tokens() {
    let mut service = Service::new(limits(5));
    let mut rejected = request(Some("1.2.3.4"));
    rejected.response = "rejected".to_string();
    assert!(matches!(service.begin_verify(&rejected, false, 0, 0), VerifyStep::AskProvider));
    assert_eq!(service.finish_verify(&rejected, Ok(false), 0).unwrap(), false);
    assert_eq!(service.check_verification_cache("rejected", 10), None);
    assert!(matches!(service.begin_verify(&rejected, false, 10, 0), VerifyStep::AskProvider));
    let passed = request(Some("5.6.7.8"));
    assert_eq!(service.finish_verify(&passed, Ok(true), 20).unwrap(), true);
    assert_eq!(service.check_verification_cache("test_response", 30), Some(true));
}

#[test]
fn federation_list_servers_with_zero_stats() {
    let mut manager = FederationManager::new(FederationConfig::default());
    manager.add_server("matrix.org", discovered("1.0"), 10).unwrap();
    manager.add_server("example.org", discovered("2.0"), 20).unwrap();
    let servers = manager.list_servers();
    assert_eq!(servers.len(), 2);
    let mut names: Vec<String> = servers.iter().map(|s| s.server_name.clone()).collect();
    names.sort();
    assert_eq!(names, vec!["example.org".to_string(), "matrix.org".to_string()]);
    for s in &servers {
        assert_eq!(s.stats.requests_sent, 0);
        assert_eq!(s.stats.error_count, 0);
        assert!(s.stats.last_error.is_none());
    }
}

#[test]
fn whitelist_lets_listed_addresses_through() {
    let list = vec!["127.0.0.1".to_string(), "10.0.0.2".to_string()];
    assert!(ip_whitelisted(true, &list, Some("127.0.0.1")));
    assert!(ip_whitelisted(true, &list, Some("10.0.0.2")));
    assert!(!ip_whitelisted(true, &list, Some("10.0.0.20")));
    assert!(!ip_whitelisted(false, &list, Some("127.0.0.1")));
    assert!(!ip_whitelisted(true, &list, None));
    assert!(!ip_whitelisted(true, &Vec::new(), Some("127.0.0.1")));
}
