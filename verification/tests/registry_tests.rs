use zenreply::registry::CancellationRegistry;

#[test]
fn fresh_registry_has_nothing_marked() {
    let reg = CancellationRegistry::new();
    assert!(!reg.is_canceled(&"a".to_string()));
}

#[test]
fn mark_then_check_then_clear() {
    let mut reg = CancellationRegistry::new();
    let id = "req-1".to_string();
    reg.mark_canceled(&id);
    assert!(reg.is_canceled(&id));
    assert!(!reg.is_canceled(&"req-2".to_string()));
    reg.clear(&id);
    assert!(!reg.is_canceled(&id));
}

#[test]
fn marking_twice_equals_marking_once() {
    let mut reg = CancellationRegistry::new();
    let id = "req-1".to_string();
    reg.mark_canceled(&id);
    reg.mark_canceled(&id);
    assert!(reg.is_canceled(&id));
    reg.clear(&id);
    assert!(!reg.is_canceled(&id));
}

#[test]
fn clearing_an_absent_id_is_a_noop() {
    let mut reg = CancellationRegistry::new();
    let other = "kept".to_string();
    reg.mark_canceled(&other);
    reg.clear(&"absent".to_string());
    assert!(reg.is_canceled(&other));
    assert!(!reg.is_canceled(&"absent".to_string()));
}

#[test]
fn marks_are_independent_per_id() {
    let mut reg = CancellationRegistry::new();
    reg.mark_canceled(&"a".to_string());
    reg.mark_canceled(&"b".to_string());
    reg.clear(&"a".to_string());
    assert!(!reg.is_canceled(&"a".to_string()));
    assert!(reg.is_canceled(&"b".to_string()));
}
