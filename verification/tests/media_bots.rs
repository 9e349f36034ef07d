use matrixon_service::bots::appservice::AppServiceIntegrationService;
use matrixon_service::bots::{can_register_bots, validate_bot_id, BotService, BotStatus, BotType};
use matrixon_service::error::ErrorKind;
use matrixon_service::media::upload::{calculate_hash, UploadHandler};
use matrixon_service::media::{
    AsyncMediaConfig, AsyncMediaService, BandwidthConfig, BandwidthManager, StorageConfig, UploadState,
};

fn media_config() -> AsyncMediaConfig {
    AsyncMediaConfig {
        enabled: true,
        max_file_size: 10 * 1024 * 1024,
        chunk_size: 1024,
        upload_timeout: 3600,
        transcoding_enabled: true,
        virus_scanning_enabled: true,
        bandwidth_limits: BandwidthConfig {
            max_upload_speed: 10_000_000,
            max_download_speed: 10_000_000,
            server_bandwidth_limit: 100_000_000,
            qos_enabled: true,
        },
        storage_config: StorageConfig {
            base_path: "/tmp/media".to_string(),
            compression_enabled: false,
            compression_level: 6,
            deduplication_enabled: true,
            cleanup_after_days: 30,
        },
    }
}

#[test]
fn media_upload_session_and_chunks() {
    let mut service = AsyncMediaService::new(media_config(), 0);
    let sid = service
        .start_upload_session_with("@alice:example.com", "test.jpg", "image/jpeg", 5000, 10, "sess".to_string())
        .unwrap();
    assert_eq!(sid, "sess");
    let p = service.get_upload_progress("sess").unwrap();
    assert_eq!((p.uploaded_bytes, p.total_bytes), (0, 5000));
    assert_eq!(p.state, UploadState::Initialized);
    let (p, done) = service.upload_chunk("sess", 0, 1024, 20).unwrap();
    assert_eq!(p.uploaded_bytes, 1024);
    assert!(!done);
    let e = service.upload_chunk("sess", 0, 1024, 21).unwrap_err();
    assert_eq!(e.message, "Chunk already uploaded");
    let e = service.upload_chunk("sess", 5, 1024, 21).unwrap_err();
    assert_eq!(e.message, "Invalid chunk index");
    let e = service.upload_chunk("nope", 0, 1024, 21).unwrap_err();
    assert_eq!(e.kind, ErrorKind::NotFound);
    for i in 1..4u32 {
        assert!(!service.upload_chunk("sess", i, 1024, 30).unwrap().1);
    }
    let (p, done) = service.upload_chunk("sess", 4, 904, 40).unwrap();
    assert!(done);
    assert_eq!(p.uploaded_bytes, 5000);
    assert_eq!(service.get_user_sessions("@alice:example.com"), vec!["sess".to_string()]);
    assert!(service
        .start_upload_session_with("@bob:example.com", "big.bin", "application/octet-stream", 20 * 1024 * 1024, 50, "big".to_string())
        .is_err());
}

#[test]
fn media_bandwidth_manager() {
    let mut manager = BandwidthManager::new(0);
    manager.allocate_bandwidth("@bob:example.com", 10);
    manager.release_bandwidth("@bob:example.com");
    manager.update_bandwidth_stats(20);
}

#[test]
fn upload_handler_chunks_and_assembly() {
    let config = media_config();
    let mut handler = UploadHandler::new(&config);
    handler.initialize_session("s1", "file.txt", "text/plain", 2500);
    assert_eq!(handler.get_upload_progress("s1"), Some((0, 2500)));
    assert_eq!(handler.get_missing_chunks("s1"), Some(vec![0, 1, 2]));
    let (_path, offset) = handler.chunk_location("s1", 2).unwrap();
    assert_eq!(offset, 2048);
    assert!(handler.chunk_location("s1", 3).is_err());
    handler.record_chunk("s1", 0, 1024, calculate_hash(b"a"), 1).unwrap();
    handler.record_chunk("s1", 2, 452, calculate_hash(b"c"), 2).unwrap();
    assert_eq!(handler.resume_upload("s1").unwrap(), vec![1]);
    assert!(handler.assemble_file("s1").is_err());
    handler.record_chunk("s1", 1, 1024, calculate_hash(b"b"), 3).unwrap();
    assert!(handler.resume_upload("s1").unwrap().is_empty());
    assert!(handler.assemble_file("s1").is_ok());
    assert!(handler.resume_upload("missing").is_err());
}

#[test]
fn hash_calculation_known_value() {
    assert_eq!(calculate_hash(b"hello"), "2cf24dba5fb0a30e26e83b2ac5b9e29e1b161e5c1fa7425e73043362938b9824");
    assert!(UploadHandler::chunk_hash_matches(b"hello", &calculate_hash(b"hello")));
    assert!(!UploadHandler::chunk_hash_matches(b"hello!", &calculate_hash(b"hello")));
}

#[test]
fn bot_id_rules() {
    assert!(validate_bot_id("my_bot-1"));
    assert!(!validate_bot_id(""));
    assert!(!validate_bot_id("bad id"));
    assert!(!validate_bot_id(&"a".repeat(65)));
    assert!(validate_bot_id(&"a".repeat(64)));
}

#[test]
fn bot_registration_lifecycle() {
    let mut service = BotService::build(vec![]);
    let bot = service
        .register_bot("helper_bot", "Helper", "Helps", BotType::Admin, "@owner:example.com", None, true, 100)
        .unwrap();
    assert_eq!(bot.status, BotStatus::Active);
    let e = service
        .register_bot("helper_bot", "Helper", "Helps", BotType::Admin, "@owner:example.com", None, true, 100)
        .unwrap_err();
    assert_eq!(e.message, "Bot ID already exists");
    let e = service
        .register_bot("other", "Other", "", BotType::Moderation, "@owner:example.com", None, false, 100)
        .unwrap_err();
    assert_eq!(e.message, "Permission denied: cannot register bots");
    let e = service.register_bot("bad id", "X", "", BotType::Moderation, "@o:x", None, true, 100).unwrap_err();
    assert_eq!(e.kind, ErrorKind::AdminCommand);
    assert_eq!(e.message, "Invalid bot ID format");
    assert_eq!(service.list_bots().len(), 1);
    assert_eq!(service.list_user_bots("@owner:example.com").len(), 1);
    assert_eq!(service.get_statistics().total_bots, 1);
    let e = service.unregister_bot("helper_bot", "@stranger:example.com", false, 200).unwrap_err();
    assert_eq!(e.message, "Permission denied");
    service.unregister_bot("helper_bot", "@owner:example.com", false, 200).unwrap();
    assert!(service.get_bot_registration("helper_bot").is_none());
    let e = service.unregister_bot("helper_bot", "@owner:example.com", false, 200).unwrap_err();
    assert_eq!(e.message, "Bot not found");
}

#[test]
fn appservice_integration_starts_empty() {
    let service = AppServiceIntegrationService::new();
    assert_eq!(service.get_transaction_stats(), (0, 0, 0, 0));
    assert!(service.get_all_virtual_users().is_empty());
}

#[test]
fn bot_registration_permission() {
    assert!(can_register_bots(true, None));
    assert!(!can_register_bots(false, None));
    assert!(can_register_bots(false, Some((Some(50), 0))));
    assert!(!can_register_bots(false, Some((Some(49), 100))));
    assert!(can_register_bots(false, Some((None, 100))));
    assert!(!can_register_bots(false, Some((None, 0))));
}

#[test]
fn bot_message_limit_holds_for_the_window() {
    let mut service = BotService::build(vec![]);
    service
        .register_bot("chatty", "Chatty", "", BotType::Notification, "@owner:example.com", None, true, 0)
        .unwrap();
    for i in 0..60u64 {
        assert!(service.check_rate_limit("chatty", "message", 1000 + i, "@server:example.com", true).unwrap());
    }
    assert!(!service.check_rate_limit("chatty", "message", 2000, "@server:example.com", true).unwrap());
    assert!(!service.check_rate_limit("chatty", "message", 59_999, "@server:example.com", true).unwrap());
    assert!(service.check_rate_limit("chatty", "api_request", 59_999, "@server:example.com", true).unwrap());
    assert!(service.check_rate_limit("chatty", "message", 61_000, "@server:example.com", true).unwrap());
}

#[test]
fn bot_intent_needs_the_namespace() {
    let mut service = AppServiceIntegrationService::new();
    let e = service.create_bot_intent("b", "as1", "@u:example.com", None, None, false, true).unwrap_err();
    assert_eq!(e.kind, ErrorKind::NotFound);
    assert_eq!(e.message, "AppService not found");
    let e = service.create_bot_intent("b", "as1", "@u:example.com", None, None, true, false).unwrap_err();
    assert_eq!(e.kind, ErrorKind::Exclusive);
    let e = service.create_bot_intent("b", "as1", "@u:example.com", None, None, true, true).unwrap_err();
    assert_eq!(e.message, "User ID not in appservice namespace");
    let i = service.create_bot_intent("b", "as2", "@v:example.com", Some("V".to_string()), None, true, true).unwrap();
    assert_eq!(i.user_id, "@v:example.com");
    assert_eq!(service.get_bot_intents("b").len(), 1);
}

#[test]
fn upload_handler_records_chunk_bytes() {
    let config = media_config();
    let mut handler = UploadHandler::new(&config);
    handler.initialize_session("s2", "file.bin", "application/octet-stream", 1500);
    let hash = handler.record_chunk_data("s2", 0, &[7u8; 1024], 5).unwrap();
    assert_eq!(hash, calculate_hash(&[7u8; 1024]));
    handler.record_chunk_data("s2", 1, b"tail", 6).unwrap();
    assert_eq!(handler.get_upload_progress("s2"), Some((1028, 1500)));
    let e = handler.record_chunk_data("s2", 2, b"x", 7).unwrap_err();
    assert_eq!(e.message, "Invalid chunk index");
    let e = handler.record_chunk_data("missing", 0, b"x", 7).unwrap_err();
    assert_eq!(e.message, "Upload session not found");
}
