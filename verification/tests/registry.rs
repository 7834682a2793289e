use sleepwatcher_rs::registry::{
    timeout_millis, Delivery, NotificationRegistry, RegisterError, TimerRequest,
    MAX_TIMEOUT_SECONDS,
};
use sleepwatcher_rs::types::Phase;

#[test]
fn new_registry_is_empty() {
    let registry = NotificationRegistry::new();
    assert_eq!(registry.len(), 0);
    assert!(registry.is_empty());
    assert!(!registry.has(1));
}

#[test]
fn timeout_millis_multiplies_by_a_thousand() {
    assert_eq!(timeout_millis(0), Some(0));
    assert_eq!(timeout_millis(10), Some(10_000));
    assert_eq!(timeout_millis(300), Some(300_000));
    assert_eq!(timeout_millis(MAX_TIMEOUT_SECONDS), Some(2_147_483_000));
}

#[test]
fn timeout_millis_refuses_what_does_not_fit() {
    assert_eq!(timeout_millis(-1), None);
    assert_eq!(timeout_millis(i32::MIN), None);
    assert_eq!(timeout_millis(MAX_TIMEOUT_SECONDS + 1), None);
    assert_eq!(timeout_millis(i32::MAX), None);
}

#[test]
fn register_with_id_says_which_timer_to_create() {
    let mut registry = NotificationRegistry::new();
    let request = registry.register_with_id(7, "cb1".to_string(), 10);
    assert_eq!(request, Ok(TimerRequest { id: 7, millis: 10_000 }));
    assert_eq!(registry.len(), 1);
    assert!(registry.has(7));
}

#[test]
fn register_with_id_refuses_an_identifier_in_use() {
    let mut registry = NotificationRegistry::new();
    assert!(registry.register_with_id(7, "cb1".to_string(), 10).is_ok());
    assert_eq!(
        registry.register_with_id(7, "cb2".to_string(), 20),
        Err(RegisterError::IdentifierInUse)
    );
    // The first registration stands.
    assert_eq!(registry.len(), 1);
    assert_eq!(
        registry.deliver(7, Phase::Idled),
        Some(Delivery { callback: "cb1".to_string(), argument: "idled" })
    );
}

#[test]
fn register_with_id_refuses_an_invalid_timeout_first() {
    let mut registry = NotificationRegistry::new();
    assert!(registry.register_with_id(7, "cb1".to_string(), 10).is_ok());
    assert_eq!(
        registry.register_with_id(7, "cb2".to_string(), -5),
        Err(RegisterError::InvalidTimeout)
    );
    assert_eq!(
        registry.register_with_id(8, "cb2".to_string(), MAX_TIMEOUT_SECONDS + 1),
        Err(RegisterError::InvalidTimeout)
    );
    assert_eq!(registry.len(), 1);
}

#[test]
fn register_draws_distinct_random_identifiers() {
    let mut registry = NotificationRegistry::new();
    let mut seen: Vec<u128> = Vec::new();
    for n in 0..64 {
        let request = registry.register(format!("cb{}", n), 1).unwrap();
        assert_eq!(request.millis, 1000);
        assert!(!seen.contains(&request.id));
        // The marks of a random UUID: version 4, RFC 4122 variant.
        assert_eq!((request.id >> 76) & 0xf, 4);
        assert_eq!((request.id >> 62) & 0x3, 2);
        seen.push(request.id);
    }
    assert_eq!(registry.len(), 64);
    for id in &seen {
        assert!(registry.has(*id));
    }
}

#[test]
fn register_refuses_an_invalid_timeout() {
    let mut registry = NotificationRegistry::new();
    assert_eq!(registry.register("cb".to_string(), -1), Err(RegisterError::InvalidTimeout));
    assert!(registry.is_empty());
}

#[test]
fn deliver_names_callback_and_argument() {
    let mut registry = NotificationRegistry::new();
    let id = registry.register("cb1".to_string(), 10).unwrap().id;
    assert_eq!(
        registry.deliver(id, Phase::Idled),
        Some(Delivery { callback: "cb1".to_string(), argument: "idled" })
    );
    assert_eq!(
        registry.deliver(id, Phase::Resumed),
        Some(Delivery { callback: "cb1".to_string(), argument: "resumed" })
    );
}

#[test]
fn deliver_for_unknown_identifier_is_none() {
    let mut registry = NotificationRegistry::new();
    let id = registry.register("cb1".to_string(), 10).unwrap().id;
    assert_eq!(registry.deliver(id.wrapping_add(1), Phase::Idled), None);
    assert_eq!(NotificationRegistry::new().deliver(id, Phase::Idled), None);
}

#[test]
fn clear_all_releases_every_timer_exactly_once() {
    let mut registry = NotificationRegistry::new();
    let mut acquired: Vec<u128> = Vec::new();
    for n in 0..5 {
        acquired.push(registry.register(format!("cb{}", n), n + 1).unwrap().id);
    }
    // A collaborator that counts what it is asked to destroy.
    let released = registry.clear_all();
    let mut destroyed: Vec<u128> = Vec::new();
    for id in released {
        assert!(!destroyed.contains(&id), "destroyed twice");
        destroyed.push(id);
    }
    // Every timer that was acquired is destroyed, in ascending order.
    acquired.sort();
    assert_eq!(destroyed, acquired);
    assert!(registry.is_empty());
    for id in acquired {
        assert!(!registry.has(id));
        assert_eq!(registry.deliver(id, Phase::Idled), None);
    }
    // Nothing is left to release.
    assert!(registry.clear_all().is_empty());
}

#[test]
fn clear_all_hands_out_identifiers_in_ascending_order() {
    let mut registry = NotificationRegistry::new();
    for id in [40u128, 7, u128::MAX, 0, 19, 1 << 100] {
        assert!(registry.register_with_id(id, format!("cb{}", id), 1).is_ok());
    }
    assert_eq!(registry.clear_all(), vec![0, 7, 19, 40, 1 << 100, u128::MAX]);
    assert_eq!(registry.len(), 0);
}

#[test]
fn registrations_add_up_and_overwrite_nothing() {
    let mut registry = NotificationRegistry::new();
    assert!(registry.register_with_id(1, "kept".to_string(), 1).is_ok());
    let mut drawn: Vec<u128> = Vec::new();
    for n in 0..20 {
        // Names may repeat; identifiers do not.
        let id = registry.register(format!("cb{}", n % 3), n).unwrap().id;
        assert!(id != 1);
        assert!(!drawn.contains(&id));
        drawn.push(id);
        assert_eq!(registry.len(), 2 + n as usize);
    }
    assert_eq!(
        registry.deliver(1, Phase::Idled),
        Some(Delivery { callback: "kept".to_string(), argument: "idled" })
    );
    for (n, id) in drawn.iter().enumerate() {
        assert_eq!(
            registry.deliver(*id, Phase::Resumed),
            Some(Delivery { callback: format!("cb{}", n % 3), argument: "resumed" })
        );
    }
}

#[test]
fn registry_serves_again_after_clear_all() {
    let mut registry = NotificationRegistry::new();
    assert!(registry.register_with_id(1, "old".to_string(), 1).is_ok());
    assert_eq!(registry.clear_all(), vec![1]);
    assert!(registry.register_with_id(1, "new".to_string(), 2).is_ok());
    assert_eq!(
        registry.deliver(1, Phase::Resumed),
        Some(Delivery { callback: "new".to_string(), argument: "resumed" })
    );
}
