use ws_broadcast::registry::ConnectionRegistry;
use ws_broadcast::registry::SessionMeta;

fn meta(at: u64) -> SessionMeta {
    SessionMeta { connected_at: at }
}

#[test]
fn new_registry_is_empty() {
    let registry = ConnectionRegistry::new();
    assert_eq!(registry.count(), 0);
    assert!(registry.snapshot().is_empty());
    assert!(!registry.contains(0));
    assert_eq!(registry.get(0), None);
}

#[test]
fn register_adds_and_deregister_removes() {
    let mut registry = ConnectionRegistry::new();
    assert!(registry.register(1, meta(10)));
    assert!(registry.register(2, meta(20)));
    assert_eq!(registry.count(), 2);
    assert!(registry.contains(1));
    assert_eq!(registry.get(2), Some(meta(20)));
    assert!(registry.deregister(1));
    assert_eq!(registry.count(), 1);
    assert!(!registry.contains(1));
    assert_eq!(registry.get(1), None);
    assert!(registry.contains(2));
}

#[test]
fn deregister_says_yes_exactly_once() {
    let mut registry = ConnectionRegistry::new();
    registry.register(5, meta(1));
    assert!(registry.deregister(5));
    assert!(!registry.deregister(5));
    assert!(!registry.deregister(6));
    assert_eq!(registry.count(), 0);
}

#[test]
fn register_again_replaces_metadata() {
    let mut registry = ConnectionRegistry::new();
    assert!(registry.register(3, meta(1)));
    assert!(!registry.register(3, meta(2)));
    assert_eq!(registry.count(), 1);
    assert_eq!(registry.get(3), Some(meta(2)));
}

#[test]
fn snapshot_holds_every_entry_once() {
    let mut registry = ConnectionRegistry::new();
    for id in 0..50u64 {
        registry.register(id, meta(id * 2));
    }
    registry.deregister(10);
    let mut entries = registry.snapshot();
    entries.sort_by_key(|entry| entry.0);
    assert_eq!(entries.len(), 49);
    let expected: Vec<(u64, SessionMeta)> =
        (0..50u64).filter(|id| *id != 10).map(|id| (id, meta(id * 2))).collect();
    assert_eq!(entries, expected);
}

#[test]
fn snapshot_is_not_a_live_view() {
    let mut registry = ConnectionRegistry::new();
    registry.register(1, meta(1));
    let before = registry.snapshot();
    registry.register(2, meta(2));
    registry.deregister(1);
    assert_eq!(before, vec![(1, meta(1))]);
    assert_eq!(registry.snapshot(), vec![(2, meta(2))]);
}
