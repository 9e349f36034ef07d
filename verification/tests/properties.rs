use matrixon_service::bots::appservice::AppServiceIntegrationService;
use matrixon_service::bridge::BridgeCompatibilityConfig;
use matrixon_service::bridge::transactions::TransactionManager;
use matrixon_service::enterprise::service::{AuthenticationMethod, EnterpriseConfig, EnterpriseIntegrationService};
use matrixon_service::globals::{own_signing_keys, Globals, GlobalsConfig, RoomVersion};
use matrixon_service::media::{
    AsyncMediaConfig, AsyncMediaService, BandwidthConfig, StorageConfig, TaskType,
};

fn globals_config() -> GlobalsConfig {
    GlobalsConfig {
        server_name: "test.example.com".to_string(),
        max_request_size: 1024,
        max_fetch_prev_events: 100,
        database_path: "/tmp/test".to_string(),
        db_cache_capacity_mb_milli: 1000,
        allow_registration: true,
        allow_encryption: true,
        allow_federation: false,
        allow_room_creation: true,
        allow_unstable_room_versions: false,
        default_room_version: RoomVersion::V10,
        enable_lightning_bolt: true,
        allow_check_for_updates: true,
        trusted_servers: vec![],
        emergency_password: None,
    }
}

fn media_config() -> AsyncMediaConfig {
    AsyncMediaConfig {
        enabled: true,
        max_file_size: 10 * 1024 * 1024,
        chunk_size: 1024,
        upload_timeout: 3600,
        transcoding_enabled: true,
        virus_scanning_enabled: true,
        bandwidth_limits: BandwidthConfig {
            max_upload_speed: 10_000_000,
            max_download_speed: 10_000_000,
            server_bandwidth_limit: 100_000_000,
            qos_enabled: true,
        },
        storage_config: StorageConfig {
            base_path: "/tmp/media".to_string(),
            compression_enabled: false,
            compression_level: 6,
            deduplication_enabled: true,
            cleanup_after_days: 30,
        },
    }
}

#[test]
fn own_signing_keys_last_a_week() {
    let keys = own_signing_keys("a1", "cHVibGlj".to_string(), 1_000);
    assert_eq!(keys.verify_keys.len(), 1);
    assert_eq!(keys.verify_keys.get("ed25519:a1"), Some(&"cHVibGlj".to_string()));
    assert_eq!(keys.old_verify_keys.len(), 0);
    assert_eq!(keys.valid_until_ts, 1_000 + 7 * 86_400_000);
}

#[test]
fn signing_keys_prefer_stored_then_own() {
    let globals = Globals::load(globals_config()).unwrap();
    let stored = own_signing_keys("stored", "c3RvcmVk".to_string(), 5);
    let own = own_signing_keys("own", "b3du".to_string(), 6);
    let r = globals.signing_keys_for("other.example.com", Some(stored), own).unwrap();
    assert!(r.verify_keys.contains_key("ed25519:stored"));
    let own = own_signing_keys("own", "b3du".to_string(), 6);
    let r = globals.signing_keys_for("test.example.com", None, own).unwrap();
    assert!(r.verify_keys.contains_key("ed25519:own"));
    assert_eq!(r.valid_until_ts, 6 + 7 * 86_400_000);
    let own = own_signing_keys("own", "b3du".to_string(), 6);
    assert!(globals.signing_keys_for("other.example.com", None, own).is_none());
}

#[test]
fn transaction_counters_add_up() {
    let config = BridgeCompatibilityConfig::default();
    let mut manager = TransactionManager::new(&config);
    let runs: [(&str, usize, bool); 6] =
        [("t1", 2, false), ("t2", 0, false), ("t3", 1, true), ("t1", 2, false), ("t4", 5, false), ("t5", 5000, false)];
    for (txn, count, timed_out) in runs {
        let _ = manager.process_transaction("irc", txn, count, timed_out, 100);
        let s = manager.get_stats("irc").unwrap();
        assert_eq!(
            s.successful_transactions + s.failed_transactions + s.timed_out_transactions,
            s.total_transactions
        );
        assert_eq!(s.concurrent_transactions, 0);
    }
    let s = manager.get_stats("irc").unwrap();
    assert_eq!(s.total_transactions, 5);
    assert_eq!(s.successful_transactions, 2);
    assert_eq!(s.failed_transactions, 2);
    assert_eq!(s.timed_out_transactions, 1);
}

#[test]
fn repeated_appservice_transaction_changes_nothing() {
    let mut service = AppServiceIntegrationService::new();
    let events = vec!["{}".to_string(), "bad".to_string()];
    assert!(service
        .process_appservice_transaction("txn1", "as1", events, vec![], 10, &vec![true, false])
        .is_ok());
    assert_eq!(service.get_transaction_stats(), (1, 0, 1, 0));
    assert!(service
        .process_appservice_transaction("txn1", "as2", vec!["{}".to_string()], vec![], 20, &vec![true])
        .is_ok());
    assert_eq!(service.get_transaction_stats(), (1, 0, 1, 0));
    assert!(service
        .process_appservice_transaction("txn2", "as1", vec!["{}".to_string()], vec![], 30, &vec![true])
        .is_ok());
    assert_eq!(service.get_transaction_stats(), (2, 1, 1, 0));
}

#[test]
fn validated_session_is_the_stored_one() {
    let config = EnterpriseConfig::default();
    let timeout = config.session_timeout_ms;
    let mut service = EnterpriseIntegrationService::new(config, 0).unwrap();
    service.complete_authentication("s1", "@u:example.com", Some("dev1".to_string()), 1000, "tok".to_string());
    let s = service.validate_session("s1", 2000).unwrap();
    assert_eq!(s.session_id, "s1");
    assert_eq!(s.user_id, "@u:example.com");
    assert_eq!(s.created_at_ms, 1000);
    assert_eq!(s.last_activity_ms, 2000);
    assert_eq!(s.expires_at_ms, 1000 + timeout);
    assert_eq!(s.device_id, Some("dev1".to_string()));
    assert_eq!(s.client_ip, None);
    assert_eq!(s.user_agent, None);
    assert!(!s.mfa_verified);
    assert!(s.metadata.is_empty());
    match s.auth_method {
        AuthenticationMethod::SamlSso { provider, assertion_id } => {
            assert_eq!(provider, "enterprise");
            assert_eq!(assertion_id, "s1");
        }
        _ => panic!("expected a SAML sign-in"),
    }
    let again = service.validate_session("s1", 3000).unwrap();
    assert_eq!(again.created_at_ms, 1000);
    assert_eq!(again.last_activity_ms, 3000);
}

#[test]
fn running_and_finishing_a_task_keep_its_file() {
    let mut service = AsyncMediaService::new(media_config(), 0);
    let ids = vec!["t1".to_string(), "t2".to_string(), "t3".to_string()];
    service.start_file_processing_with("sess", 50, &ids);
    assert_eq!(service.pending_task_ids().len(), 3);
    let (kind, path) = service.task_work("t1").unwrap();
    assert_eq!(kind, TaskType::VirusScanning);
    assert_eq!(path, "/tmp/media/sess.tmp");
    service.mark_task_running("t1", 60);
    assert_eq!(service.task_work("t1"), Some((TaskType::VirusScanning, "/tmp/media/sess.tmp".to_string())));
    assert_eq!(service.pending_task_ids().len(), 2);
    service.finish_task("t1", false, 70);
    assert_eq!(service.task_work("t1"), Some((TaskType::VirusScanning, "/tmp/media/sess.tmp".to_string())));
    assert_eq!(service.task_work("t3").unwrap().0, TaskType::MetadataExtraction);
    assert!(service.task_work("missing").is_none());
}

#[test]
fn virtual_users_need_the_namespace_and_a_free_id() {
    let mut service = AppServiceIntegrationService::new();
    let e = service
        .register_virtual_user("@v:example.com", None, None, "as1", "bot", 10, false, true, false)
        .unwrap_err();
    assert_eq!(e.message, "AppService not found");
    let e = service
        .register_virtual_user("@v:example.com", None, None, "as1", "bot", 10, true, false, false)
        .unwrap_err();
    assert_eq!(e.message, "User ID not in appservice namespace");
    // The refusal is cached: the same check is refused again whatever is passed.
    let e = service
        .register_virtual_user("@v:example.com", None, None, "as1", "bot", 11, true, true, false)
        .unwrap_err();
    assert_eq!(e.message, "User ID not in appservice namespace");
    let e = service
        .register_virtual_user("@w:example.com", None, None, "as1", "bot", 12, true, true, true)
        .unwrap_err();
    assert_eq!(e.message, "User ID already exists");
    let u = service
        .register_virtual_user("@x:example.com", Some("X".to_string()), None, "as1", "bot", 13, true, true, false)
        .unwrap();
    assert_eq!(u.user_id, "@x:example.com");
    assert_eq!(u.display_name.as_deref(), Some("X"));
    assert_eq!(u.created_at_ms, 13);
    assert_eq!(u.last_active_ms, Some(13));
    assert!(u.is_appservice_managed);
    assert_eq!(service.get_bot_virtual_users("bot").len(), 1);
}
