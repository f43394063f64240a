use apcore_mcp_server::elicit_registry::ElicitRegistry;

#[test]
fn test_lookup_returns_the_registered_callback() {
    let mut registry: ElicitRegistry<&str> = ElicitRegistry::new();
    let guard = registry.register("first");
    assert_eq!(registry.lookup(guard.id()), Some(&"first"));
}

#[test]
fn test_lookup_distinguishes_concurrent_registrations() {
    let mut registry: ElicitRegistry<&str> = ElicitRegistry::new();
    let first = registry.register("first");
    let second = registry.register("second");
    assert_ne!(first.id(), second.id());
    assert_eq!(registry.lookup(first.id()), Some(&"first"));
    assert_eq!(registry.lookup(second.id()), Some(&"second"));
    assert_eq!(registry.len(), 2);
}

#[test]
fn test_lookup_returns_none_for_an_unknown_id() {
    let registry: ElicitRegistry<&str> = ElicitRegistry::new();
    assert!(registry.lookup("no-such-call-id").is_none());
}

#[test]
fn test_guard_deregisters_on_drop() {
    let mut registry: ElicitRegistry<&str> = ElicitRegistry::new();
    let guard = registry.register("scoped");
    let id = guard.id().to_string();
    assert!(registry.lookup(&id).is_some());
    registry.release(guard);
    assert!(registry.lookup(&id).is_none());
    assert_eq!(registry.len(), 0);
}

#[test]
fn releasing_one_callback_keeps_the_others() {
    let mut registry: ElicitRegistry<u32> = ElicitRegistry::new();
    let first = registry.register(1);
    let second = registry.register(2);
    registry.release(first);
    assert_eq!(registry.lookup(second.id()), Some(&2));
}

#[test]
fn lookups_give_the_live_callbacks() {
    let mut callbacks: ElicitRegistry<&str> = ElicitRegistry::new();
    let first = callbacks.register("first");
    let second = callbacks.register("second");
    let id = first.id().to_string();
    assert_eq!(callbacks.lookup(&id), Some(&"first"));
    assert_eq!(callbacks.lookup(second.id()), Some(&"second"));
    callbacks.release(first);
    assert_eq!(callbacks.lookup(&id), None);
    assert_eq!(callbacks.lookup(second.id()), Some(&"second"));
    assert_eq!(callbacks.lookup("no-such-call-id"), None);
}

#[test]
fn live_guards_have_ids_of_their_own() {
    let mut callbacks: ElicitRegistry<usize> = ElicitRegistry::new();
    let guards: Vec<_> = (0..50).map(|n| callbacks.register(n)).collect();
    assert_eq!(callbacks.len(), 50);
    for (n, guard) in guards.iter().enumerate() {
        assert_eq!(callbacks.lookup(guard.id()), Some(&n));
        let parts: Vec<usize> = guard.id().split('-').map(|part| part.len()).collect();
        assert_eq!(parts, [8, 4, 4, 4, 12]);
    }
}
