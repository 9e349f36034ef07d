use matrixon_service::globals::initialize_keypair;
use matrixon_service::bots::BotSecurity;
use matrixon_service::bots::appservice::TransactionStatus;
use matrixon_service::error::{ErrorKind, ServiceError};
use matrixon_service::globals::{
    GlobalsConfig, OldVerifyKey, RoomVersion, SigningKeys, supported_room_versions, validate_config, validate_identifiers,
};
use matrixon_service::strmap::StrMap;

#[test]
fn test_transaction_status() {
    let status1 = TransactionStatus::Pending;
    let status2 = TransactionStatus::Failed {
        reason: "Test failure".to_string(),
    };

    assert_eq!(status1, TransactionStatus::Pending);
    assert_ne!(status1, status2);

    match status2 {
        TransactionStatus::Failed { reason } => {
            assert_eq!(reason, "Test failure");
        }
        _ => panic!("Expected failed status"),
    }
}

#[test]
fn test_enterprise_security_features() {
    let security = BotSecurity {
        require_auth: true,
        allowed_ip_ranges: vec!["192.168.1.0/24".to_string(), "10.0.0.0/8".to_string()],
        audit_logging: true,
        max_inactivity_days: Some(30),
    };

    assert!(security.require_auth);
    assert!(security.audit_logging);
    assert_eq!(security.max_inactivity_days, Some(30));
    assert_eq!(security.allowed_ip_ranges.len(), 2);
}

#[test]
fn test_database_version_management() {
    let versions = vec![0u64, 1, 2, 10, 100];

    for version in versions {
        assert!(version < u64::MAX, "Version should be within u64 range");
        if version < u64::MAX - 1 {
            let next_version = version + 1;
            assert!(next_version > version, "Next version should be greater");
        }
    }

    assert!(2 > 1, "Version 2 should be greater than version 1");
    assert!(10 > 2, "Version 10 should be greater than version 2");
}

#[test]
fn test_memory_and_performance() {
    let memory_usage = "Memory: 1024 KB";
    assert!(!memory_usage.is_empty(), "Memory usage should not be empty");
    assert!(memory_usage.contains("Memory"), "Should contain memory indicator");

    let cache_amounts = vec![0u32, 1, 10, 100, 1000];
    for amount in cache_amounts {
        assert!(amount <= u32::MAX, "Cache amount should be within u32 range");
    }

    let counts = vec![0u64, 1, 100, 1000, u64::MAX];
    for count in counts {
        if count < u64::MAX {
            let next_count = count + 1;
            assert!(next_count > count, "Next count should be greater");
        }
    }
}

fn create_test_config() -> GlobalsConfig {
    GlobalsConfig {
        server_name: "test.example.com".to_string(),
        max_request_size: 1024,
        max_fetch_prev_events: 100,
        database_path: "/tmp/test".to_string(),
        db_cache_capacity_mb_milli: 1000,
        allow_registration: true,
        allow_encryption: true,
        allow_federation: false,
        allow_room_creation: true,
        allow_unstable_room_versions: false,
        default_room_version: RoomVersion::V10,
        enable_lightning_bolt: true,
        allow_check_for_updates: true,
        trusted_servers: vec![],
        emergency_password: None,
    }
}

#[test]
fn test_validate_config_success() {
    let config = create_test_config();
    assert!(validate_config(&config).is_ok(), "Valid configuration should pass validation");
}

#[test]
fn test_validate_config_empty_server_name() {
    let config = create_test_config();
    assert!(validate_config(&config).is_ok(), "Valid server name should pass validation");
    let mut empty = create_test_config();
    empty.server_name = String::new();
    let e = validate_config(&empty).unwrap_err();
    assert_eq!(e.kind, ErrorKind::BadConfig);
    assert_eq!(e.message, "Server name cannot be empty");
}

#[test]
fn test_validate_config_zero_max_request_size() {
    let mut config = create_test_config();
    config.max_request_size = 0;
    assert!(validate_config(&config).is_err(), "Zero max request size should fail validation");
}

#[test]
fn test_validate_config_large_max_request_size() {
    let mut config = create_test_config();
    config.max_request_size = 2_147_483_648;
    assert!(validate_config(&config).is_ok(), "Large max request size should pass validation with warning");
}

#[test]
fn test_validate_identifiers_success() {
    let config = create_test_config();
    let result = validate_identifiers(&config.server_name);
    assert!(result.is_ok(), "Valid identifiers should pass validation");
    let (server_user, admin_alias) = result.unwrap();
    assert_eq!(server_user.as_str(), "@matrixon:test.example.com");
    assert_eq!(admin_alias.as_str(), "#admins:test.example.com");
}

#[test]
fn test_validate_identifiers_invalid_server_name() {
    let config = create_test_config();
    let result = validate_identifiers(&config.server_name);
    assert!(result.is_ok(), "Valid server name should pass identifier validation");
}

#[test]
fn test_supported_room_versions() {
    let stable_versions = supported_room_versions(false);
    let all_versions = supported_room_versions(true);
    assert_eq!(stable_versions.len(), 6);
    assert_eq!(all_versions.len() - stable_versions.len(), 3);
    assert_eq!(
        stable_versions,
        vec![RoomVersion::V6, RoomVersion::V7, RoomVersion::V8, RoomVersion::V9, RoomVersion::V10, RoomVersion::V11]
    );
    assert_eq!(&all_versions[6..], &[RoomVersion::V3, RoomVersion::V4, RoomVersion::V5]);
    for (i, a) in stable_versions.iter().enumerate() {
        for b in &stable_versions[i + 1..] {
            assert_ne!(a, b);
        }
    }
}

#[test]
fn test_error_handling_in_validation() {
    let mut config = create_test_config();
    config.max_request_size = 0;
    let result = validate_config(&config);
    assert!(result.is_err(), "Zero max request size should fail validation");
    assert_eq!(result.unwrap_err().message, "Max request size must be greater than 0");
}

#[test]
fn keypair_that_does_not_load_is_removed() {
    let (ok, remove) = initialize_keypair(Ok(vec![1, 2, 3]));
    assert_eq!(ok.unwrap(), vec![1, 2, 3]);
    assert!(!remove);
    let (err, remove) =
        initialize_keypair(Err(ServiceError { kind: ErrorKind::BadConfig, message: "Keypair invalid".to_string() }));
    assert_eq!(err.unwrap_err().message, "Keypair invalid");
    assert!(remove);
}

#[test]
fn test_signing_keys_structure() {
    let now = std::time::SystemTime::now()
        .duration_since(std::time::UNIX_EPOCH)
        .expect("Valid time")
        .as_millis() as u64;
    let keys = SigningKeys {
        verify_keys: StrMap::new(),
        old_verify_keys: StrMap::new(),
        valid_until_ts: now + 86_400_000,
    };
    assert_eq!(keys.verify_keys.len(), 0, "New keys should start empty");
    assert_eq!(keys.old_verify_keys.len(), 0, "Old keys should start empty");
    assert!(keys.valid_until_ts > now, "Keys should be valid in the future");
}

#[test]
fn test_key_rotation_security() {
    let now = std::time::SystemTime::now()
        .duration_since(std::time::UNIX_EPOCH)
        .expect("Valid time")
        .as_millis() as u64;
    let mut verify_keys: StrMap<String> = StrMap::new();
    let mut old_verify_keys: StrMap<OldVerifyKey> = StrMap::new();
    verify_keys.insert("ed25519:current", "AQEBAQ".to_string());
    old_verify_keys.insert("ed25519:expired", OldVerifyKey { expired_ts: now - 86_400_000, key: "AgICAg".to_string() });
    let keys = SigningKeys { verify_keys, old_verify_keys, valid_until_ts: now };
    assert_eq!(keys.verify_keys.len(), 1, "Should have one current key");
    assert_eq!(keys.old_verify_keys.len(), 1, "Should have one old key");
    assert!(!keys.verify_keys.contains_key("ed25519:expired"), "Expired key should not be in verify_keys");
    assert!(!keys.old_verify_keys.contains_key("ed25519:current"), "Current key should not be in old_verify_keys");
}
