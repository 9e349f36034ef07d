use matrixon_service::bridge::BridgeCompatibilityConfig;
use matrixon_service::bridge::ephemeral::{
    EphemeralEventProcessor, EphemeralKind, ReceiptContent, ReceiptEntry, ReceiptTypeEntry,
};
use matrixon_service::bridge::namespace::NamespaceManager;
use matrixon_service::bridge::puppet::{Membership, PuppetManager, UserQueryOutcome};
use matrixon_service::bridge::service::{BridgeCompatibilityService, BridgeMetrics};
use matrixon_service::bridge::transactions::TransactionManager;
use matrixon_service::error::ErrorKind;

#[test]
fn test_config_defaults() {
    let config = BridgeCompatibilityConfig::default();
    assert_eq!(config.max_transaction_size, 1000);
    assert_eq!(config.transaction_timeout_ms, 30000);
    assert_eq!(config.max_concurrent_transactions, 10);
    assert!(config.enable_namespace_caching);
    assert!(config.enable_bridge_optimizations);
}

#[test]
fn test_metrics_defaults() {
    let metrics = BridgeMetrics::default();
    assert_eq!(metrics.transactions_processed, 0);
    assert_eq!(metrics.events_processed, 0);
    assert_eq!(metrics.transaction_success_rate, 100);
    assert!(metrics.last_transaction_ms.is_none());
}

fn namespaces(list: &[&str]) -> Vec<String> {
    list.iter().map(|s| s.to_string()).collect()
}

#[test]
fn namespace_manager_starts_empty() {
    let config = BridgeCompatibilityConfig::default();
    let manager = NamespaceManager::new(&config);
    let stats = manager.get_cache_stats();
    assert_eq!(stats.total_entries, 0);
    assert_eq!(stats.total_hits, 0);
    assert_eq!(stats.cache_expiry_seconds, 300);
    assert!(stats.cache_enabled);
    assert!(manager.get_all_stats().is_empty());
}

#[test]
fn namespace_cache_hit_and_expiry() {
    let config = BridgeCompatibilityConfig::default();
    let mut manager = NamespaceManager::with_cache_expiry(&config, 50);
    let key = "test:user:@user:example.com";
    assert_eq!(manager.check_cache(key, 0), None);
    manager.set_cache(key, true, 0);
    assert_eq!(manager.check_cache(key, 10), Some(true));
    assert_eq!(manager.get_cache_stats().total_hits, 1);
    assert_eq!(manager.check_cache(key, 60), None);
    assert_eq!(manager.get_cache_stats().total_entries, 0);
}

#[test]
fn namespace_cache_cleanup_and_clear() {
    let config = BridgeCompatibilityConfig::default();
    let mut manager = NamespaceManager::with_cache_expiry(&config, 50);
    manager.set_cache("key1", true, 0);
    manager.set_cache("key2", false, 0);
    assert_eq!(manager.cleanup_expired_cache(60), 2);
    manager.set_cache("key1", true, 100);
    manager.set_cache("key2", false, 100);
    assert_eq!(manager.cleanup_expired_cache(120), 0);
    assert_eq!(manager.clear_cache(), 2);
    assert_eq!(manager.get_cache_stats().total_entries, 0);
}

#[test]
fn namespace_stats_counting() {
    let config = BridgeCompatibilityConfig::default();
    let mut manager = NamespaceManager::new(&config);
    manager.update_stats("test_bridge", false, false, true);
    manager.update_stats("test_bridge", true, true, true);
    let stats = manager.get_stats("test_bridge").unwrap();
    assert_eq!(stats.total_validations, 2);
    assert_eq!(stats.cache_hits, 1);
    assert_eq!(stats.cache_misses, 1);
    assert_eq!(stats.user_validations, 1);
    assert_eq!(stats.alias_validations, 1);
    assert_eq!(stats.failed_validations, 0);
    let rate = stats.cache_hits as f64 / stats.total_validations as f64 * 100.0;
    assert_eq!(rate, 50.0);
}

#[test]
fn namespace_user_validation_outcomes() {
    let config = BridgeCompatibilityConfig::default();
    let mut manager = NamespaceManager::new(&config);
    let ns = namespaces(&["bridge_"]);
    assert!(manager.validate_user_namespace("irc", "@bridge_alice:example.com", Some(&ns), 0).is_ok());
    let e = manager.validate_user_namespace("irc", "@bob:example.com", Some(&ns), 0).unwrap_err();
    assert_eq!(e.kind, ErrorKind::Exclusive);
    assert_eq!(e.message, "User ID not in appservice namespace");
    let e = manager.validate_user_namespace("irc", "@carol:example.com", None, 0).unwrap_err();
    assert_eq!(e.kind, ErrorKind::NotFound);
    assert_eq!(e.message, "AppService not found");
    // The refusal of bob is cached: it is served even without a registration.
    let e = manager.validate_user_namespace("irc", "@bob:example.com", None, 1).unwrap_err();
    assert_eq!(e.kind, ErrorKind::Exclusive);
    let stats = manager.get_stats("irc").unwrap();
    assert_eq!(stats.total_validations, 3);
    assert_eq!(stats.cache_hits, 1);
    assert_eq!(stats.failed_validations, 1);
}

#[test]
fn namespace_alias_validation_and_repeat() {
    let config = BridgeCompatibilityConfig::default();
    let mut manager = NamespaceManager::new(&config);
    let ns = namespaces(&["#irc_"]);
    let first = manager.validate_alias_namespace("irc", "#irc_chan:example.com", Some(&ns), 5).is_ok();
    let second = manager.validate_alias_namespace("irc", "#irc_chan:example.com", Some(&ns), 5).is_ok();
    assert!(first);
    assert_eq!(first, second);
    let e = manager.validate_alias_namespace("irc", "#other:example.com", Some(&ns), 5).unwrap_err();
    assert_eq!(e.message, "Room alias not in appservice namespace");
}

#[test]
fn namespace_batch_validation() {
    let config = BridgeCompatibilityConfig::default();
    let mut manager = NamespaceManager::new(&config);
    let ns = namespaces(&["_bot"]);
    let users = namespaces(&["@a_bot:x", "@b:x", "@a_bot:x"]);
    let results = manager.validate_users_batch("bridge", &users, Some(&ns), 0).unwrap();
    assert_eq!(results, vec![true, false, true]);
    let results = manager.validate_users_batch("bridge", &users, None, 1).unwrap();
    assert_eq!(results, vec![true, false, true]);
}

#[test]
fn puppet_manager_creation_and_limits() {
    let mut config = BridgeCompatibilityConfig::default();
    config.max_virtual_users_per_bridge = 2;
    let mut manager = PuppetManager::new(&config);
    assert_eq!(manager.get_puppet_count("test_bridge"), 0);
    assert!(manager.should_create_puppet("test_bridge"));
    let p = manager
        .create_puppet("test_bridge", "@user1:example.com", Some("User One".to_string()), None, None, 10)
        .unwrap();
    assert_eq!(p.user_id, "@user1:example.com");
    assert_eq!(p.bridge_metadata, "{}");
    assert_eq!(p.last_active_ms, Some(10));
    assert!(p.is_active);
    assert!(!p.capabilities.can_update_presence);
    manager.create_puppet("test_bridge", "@user2:example.com", None, None, None, 11).unwrap();
    assert_eq!(manager.get_puppet_count("test_bridge"), 2);
    assert!(!manager.should_create_puppet("test_bridge"));
    let e = manager.create_puppet("test_bridge", "@user3:example.com", None, None, None, 12).unwrap_err();
    assert_eq!(e.kind, ErrorKind::Unknown);
    assert_eq!(e.message, "Puppet limit exceeded for appservice");
    assert_eq!(manager.handle_user_query("test_bridge", "@user3:example.com", 13), UserQueryOutcome::LimitReached);
    assert_eq!(manager.handle_user_query("test_bridge", "@user1:example.com", 14), UserQueryOutcome::Existing);
    assert_eq!(manager.get_puppet("@user1:example.com").unwrap().last_active_ms, Some(14));
}

#[test]
fn puppet_statistics_counting() {
    let config = BridgeCompatibilityConfig::default();
    let mut manager = PuppetManager::new(&config);
    manager.update_puppet_stats("test_bridge", true, false, false, 1);
    manager.update_puppet_stats("test_bridge", false, true, false, 2);
    manager.update_puppet_stats("test_bridge", false, false, true, 3);
    let stats = manager.get_stats("test_bridge").unwrap();
    assert_eq!(stats.total_puppets, 1);
    assert_eq!(stats.active_puppets, 1);
    assert_eq!(stats.puppet_operations, 3);
    assert_eq!(stats.profile_updates, 1);
    assert_eq!(stats.membership_operations, 1);
    assert_eq!(stats.last_activity_ms, 3);
}

#[test]
fn puppet_profile_membership_and_deactivation() {
    let config = BridgeCompatibilityConfig::default();
    let mut manager = PuppetManager::new(&config);
    let e = manager.update_puppet_profile("@nobody:x", None, None, None, 1).unwrap_err();
    assert_eq!(e.kind, ErrorKind::NotFound);
    assert_eq!(e.message, "Puppet not found");
    manager.create_puppet("tg", "@tg_1:x", None, None, Some("{\"a\":1}".to_string()), 1).unwrap();
    manager.update_puppet_profile("@tg_1:x", Some("Tele".to_string()), Some("mxc://x/y".to_string()), None, 2).unwrap();
    let p = manager.get_puppet("@tg_1:x").unwrap();
    assert_eq!(p.display_name.as_deref(), Some("Tele"));
    assert_eq!(p.avatar_url.as_deref(), Some("mxc://x/y"));
    assert_eq!(p.bridge_metadata, "{\"a\":1}");
    manager.update_puppet_membership("@tg_1:x", "!room:x", Membership::Join, 3).unwrap();
    manager.update_puppet_membership("@tg_1:x", "!room:x", Membership::Join, 4).unwrap();
    manager.update_puppet_membership("@tg_1:x", "!other:x", Membership::Join, 5).unwrap();
    assert_eq!(manager.get_puppet("@tg_1:x").unwrap().joined_rooms.len(), 2);
    manager.update_puppet_membership("@tg_1:x", "!room:x", Membership::Ban, 6).unwrap();
    manager.update_puppet_membership("@tg_1:x", "!other:x", Membership::Invite, 7).unwrap();
    assert_eq!(manager.get_puppet("@tg_1:x").unwrap().joined_rooms, vec!["!other:x".to_string()]);
    manager.deactivate_puppet("@tg_1:x", 8).unwrap();
    let p = manager.get_puppet("@tg_1:x").unwrap();
    assert!(!p.is_active);
    let stats = manager.get_stats("tg").unwrap();
    assert_eq!(stats.active_puppets, 0);
    assert_eq!(stats.total_puppets, 1);
    assert_eq!(stats.membership_operations, 5);
}

#[test]
fn puppet_listing_and_cleanup() {
    let config = BridgeCompatibilityConfig::default();
    let mut manager = PuppetManager::new(&config);
    assert!(manager.get_appservice_puppets("test_bridge").is_empty());
    manager.create_puppet("test_bridge", "@user1:example.com", Some("Test User".to_string()), None, None, 1000).unwrap();
    manager.create_puppet("test_bridge", "@user2:example.com", None, None, None, 5000).unwrap();
    let puppets = manager.get_appservice_puppets("test_bridge");
    assert_eq!(puppets.len(), 2);
    assert_eq!(puppets[0].user_id, "@user1:example.com");
    let removed = manager.cleanup_inactive_puppets(2000, 5500).unwrap();
    assert_eq!(removed, 1);
    assert!(manager.get_puppet("@user1:example.com").is_none());
    assert_eq!(manager.get_puppet_count("test_bridge"), 1);
    assert_eq!(manager.get_appservice_puppets("test_bridge")[0].user_id, "@user2:example.com");
}

#[test]
fn transactions_are_processed_once() {
    let config = BridgeCompatibilityConfig::default();
    let mut manager = TransactionManager::new(&config);
    assert!(manager.process_transaction("bridge", "txn1", 3, false, 100).is_ok());
    let stats = manager.get_stats("bridge").unwrap();
    assert_eq!(stats.total_transactions, 1);
    assert_eq!(stats.successful_transactions, 1);
    assert!(manager.process_transaction("bridge", "txn1", 3, false, 200).is_ok());
    assert_eq!(manager.get_stats("bridge").unwrap(), stats);
    let e = manager.process_transaction("bridge", "txn2", 0, false, 300).unwrap_err();
    assert_eq!(e.kind, ErrorKind::InvalidParam);
    assert_eq!(e.message, "Transaction must contain at least one event");
    let e = manager.process_transaction("bridge", "txn3", 1001, false, 300).unwrap_err();
    assert_eq!(e.kind, ErrorKind::TooLarge);
    let e = manager.process_transaction("bridge", "txn4", 1, true, 300).unwrap_err();
    assert_eq!(e.message, "Transaction processing timed out");
    let stats = manager.get_stats("bridge").unwrap();
    assert_eq!(stats.total_transactions, 4);
    assert_eq!(stats.failed_transactions, 2);
    assert_eq!(stats.timed_out_transactions, 1);
}

#[test]
fn ephemeral_rate_limit_and_batches() {
    let config = BridgeCompatibilityConfig::default();
    let mut processor = EphemeralEventProcessor::new(&config);
    assert_eq!(processor.admit_event("b", Some("m.typing"), 1000).unwrap(), EphemeralKind::Typing);
    let e = processor.admit_event("b", Some("m.receipt"), 1050).unwrap_err();
    assert_eq!(e.message, "Rate limit exceeded for ephemeral events");
    assert_eq!(processor.admit_event("b", Some("m.receipt"), 1100).unwrap(), EphemeralKind::Receipt);
    assert_eq!(processor.admit_event("c", Some("m.presence"), 1100).unwrap(), EphemeralKind::Presence);
    assert_eq!(processor.admit_event("c", Some("x.custom"), 1300).unwrap(), EphemeralKind::Other);
    let e = processor.admit_event("b", None, 5000).unwrap_err();
    assert_eq!(e.message, "Missing event type");
    let outcomes = vec![Some(EphemeralKind::Typing), None, Some(EphemeralKind::Typing), Some(EphemeralKind::Presence)];
    processor.record_batch("b", &outcomes, 6000);
    let stats = processor.get_stats("b").unwrap();
    assert_eq!(stats.typing_events_processed, 2);
    assert_eq!(stats.read_receipts_processed, 0);
    assert_eq!(stats.presence_events_processed, 1);
    assert_eq!(stats.last_activity_ms, 6000);
    assert_eq!(processor.cleanup_rate_limits(1000, 6000), 2);
}

#[test]
fn service_counts_every_transaction() {
    let mut service = BridgeCompatibilityService::default();
    assert_eq!(service.get_bridge_config("test_bridge").max_transaction_size, 1000);
    assert!(service.process_transaction("test_bridge", "t1", 0, false, 10, 7).is_err());
    let m = service.get_metrics("test_bridge").unwrap();
    assert_eq!(m.transactions_processed, 1);
    assert_eq!(m.total_transaction_time_ms, 7);
    assert_eq!(m.last_transaction_ms, Some(7));
    assert!(service.process_transaction("test_bridge", "t2", 2, false, 20, 5).is_ok());
    let m = service.get_metrics("test_bridge").unwrap();
    assert_eq!(m.transactions_processed, 2);
    assert_eq!(m.total_transaction_time_ms, 12);
    assert!(service.check_health("test_bridge"));
    service.update_health("test_bridge", false);
    assert!(!service.check_health("test_bridge"));
    let mut c = BridgeCompatibilityConfig::default();
    c.max_transaction_size = 5;
    service.update_bridge_config("test_bridge", c);
    assert_eq!(service.get_bridge_config("test_bridge").max_transaction_size, 5);
    assert_eq!(service.get_stats().metrics.len(), 1);
}

#[test]
fn service_user_and_alias_queries() {
    let mut service = BridgeCompatibilityService::default();
    let ns = namespaces(&["irc_"]);
    let a = service.query_user_id("irc", "@irc_bob:example.com", Some(&ns), true, 0).unwrap().unwrap();
    assert_eq!(a.user_id, "@irc_bob:example.com");
    assert!(a.appservice_id.is_none());
    assert!(service.query_user_id("irc", "@irc_ann:example.com", Some(&ns), false, 0).unwrap().is_none());
    service.puppet_manager.create_puppet("irc", "@irc_ann:example.com", None, None, None, 0).unwrap();
    let a = service.query_user_id("irc", "@irc_ann:example.com", Some(&ns), false, 0).unwrap().unwrap();
    assert_eq!(a.appservice_id.as_deref(), Some("irc"));
    let e = service.query_user_id("irc", "@zed:example.com", Some(&ns), true, 0).unwrap_err();
    assert_eq!(e.kind, ErrorKind::Exclusive);
    let ans = vec!["#irc_".to_string()];
    let r = service.query_room_alias("irc", "#irc_foo:example.com", Some(&ans), None, "example.com", 0).unwrap();
    assert_eq!(r.as_deref(), Some("!bridge_irc_foo:example.com"));
    let r = service
        .query_room_alias("irc", "#irc_foo:example.com", Some(&ans), Some("!abc:example.com".to_string()), "example.com", 0)
        .unwrap();
    assert_eq!(r.as_deref(), Some("!abc:example.com"));
    let e = service.query_room_alias("irc", "#irc_foo:example.com", Some(&ans), None, "bad\0name", 0).unwrap_err();
    assert_eq!(e.kind, ErrorKind::InvalidParam);
    assert_eq!(e.message, "Failed to create placeholder room ID");
}

#[test]
fn typing_event_extraction() {
    let users = vec![
        Some("@alice:example.com".to_string()),
        None,
        Some("not a user".to_string()),
        Some("@bob:example.com".to_string()),
    ];
    let update = EphemeralEventProcessor::process_typing_event(Some("!room:example.com"), true, Some(&users)).unwrap();
    assert_eq!(update.room_id, "!room:example.com");
    assert_eq!(update.user_ids, vec!["@alice:example.com".to_string(), "@bob:example.com".to_string()]);
    let e = EphemeralEventProcessor::process_typing_event(Some("room"), true, Some(&users)).unwrap_err();
    assert_eq!(e.kind, ErrorKind::InvalidParam);
    assert_eq!(e.message, "Invalid room ID in typing event");
    let e = EphemeralEventProcessor::process_typing_event(None, true, Some(&users)).unwrap_err();
    assert_eq!(e.message, "Invalid room ID in typing event");
    let e = EphemeralEventProcessor::process_typing_event(Some("!r:x.org"), false, Some(&users)).unwrap_err();
    assert_eq!(e.message, "Missing content in typing event");
    let e = EphemeralEventProcessor::process_typing_event(Some("!r:x.org"), true, None).unwrap_err();
    assert_eq!(e.message, "Invalid user_ids in typing event");
}

#[test]
fn receipt_event_extraction() {
    let content = ReceiptContent::Entries(vec![
        ReceiptEntry {
            event_id: "$ev1:example.com".to_string(),
            receipt_types: Some(vec![
                ReceiptTypeEntry {
                    receipt_type: "m.read".to_string(),
                    users: Some(vec!["@alice:example.com".to_string(), "bad".to_string()]),
                },
                ReceiptTypeEntry {
                    receipt_type: "m.read.private".to_string(),
                    users: Some(vec!["@bob:example.com".to_string()]),
                },
            ]),
        },
        ReceiptEntry {
            event_id: "no-sigil".to_string(),
            receipt_types: Some(vec![ReceiptTypeEntry {
                receipt_type: "m.read".to_string(),
                users: Some(vec!["@carol:example.com".to_string()]),
            }]),
        },
        ReceiptEntry {
            event_id: "$opaque".to_string(),
            receipt_types: Some(vec![ReceiptTypeEntry {
                receipt_type: "m.read".to_string(),
                users: Some(vec!["@dave:example.com".to_string()]),
            }]),
        },
    ]);
    let update = EphemeralEventProcessor::process_receipt_event(Some("!room:example.com"), &content).unwrap();
    assert_eq!(update.room_id, "!room:example.com");
    assert_eq!(
        update.receipts,
        vec![
            ("$ev1:example.com".to_string(), "@alice:example.com".to_string()),
            ("$opaque".to_string(), "@dave:example.com".to_string()),
        ]
    );
    let none = EphemeralEventProcessor::process_receipt_event(Some("!room:example.com"), &ReceiptContent::NotAnObject).unwrap();
    assert!(none.receipts.is_empty());
    let e = EphemeralEventProcessor::process_receipt_event(Some("!room:example.com"), &ReceiptContent::Missing).unwrap_err();
    assert_eq!(e.message, "Missing content in receipt event");
    let e = EphemeralEventProcessor::process_receipt_event(Some("#alias:example.com"), &content).unwrap_err();
    assert_eq!(e.message, "Invalid room ID in receipt event");
}

#[test]
fn presence_event_extraction() {
    let p = EphemeralEventProcessor::process_presence_event(true, Some("@alice:example.com"), None).unwrap();
    assert_eq!(p.user_id, "@alice:example.com");
    assert_eq!(p.presence, "offline");
    let p = EphemeralEventProcessor::process_presence_event(true, Some("@alice:example.com"), Some("online")).unwrap();
    assert_eq!(p.presence, "online");
    let e = EphemeralEventProcessor::process_presence_event(false, Some("@alice:example.com"), None).unwrap_err();
    assert_eq!(e.message, "Missing content in presence event");
    let e = EphemeralEventProcessor::process_presence_event(true, Some("alice"), None).unwrap_err();
    assert_eq!(e.message, "Invalid user ID in presence event");
    let e = EphemeralEventProcessor::process_presence_event(true, None, None).unwrap_err();
    assert_eq!(e.message, "Invalid user ID in presence event");
}
