use limbus_launcher::locks::LockRegistry;

#[test]
fn new_registry_has_no_slots() {
    let registry = LockRegistry::new();
    assert_eq!(registry.len(), 0);
}

#[test]
fn first_resources_get_slots_in_order() {
    let mut registry = LockRegistry::new();
    assert_eq!(registry.acquire("en", "/games/limbus"), 0);
    assert_eq!(registry.acquire("fr", "/games/limbus"), 1);
    assert_eq!(registry.acquire("de", "/games/limbus"), 2);
    assert_eq!(registry.len(), 3);
}

#[test]
fn same_resource_gets_the_same_slot_every_time() {
    let mut registry = LockRegistry::new();
    let first = registry.acquire("en", "/games/limbus");
    let other = registry.acquire("fr", "/games/limbus");
    let again = registry.acquire("en", "/games/limbus");
    assert_eq!(first, again);
    assert_ne!(first, other);
    assert_eq!(registry.acquire("fr", "/games/limbus"), other);
    assert_eq!(registry.len(), 2);
}

#[test]
fn same_package_in_another_directory_is_another_resource() {
    let mut registry = LockRegistry::new();
    let here = registry.acquire("en", "/games/limbus");
    let there = registry.acquire("en", "/mnt/limbus");
    assert_ne!(here, there);
    assert_eq!(registry.len(), 2);
}

#[test]
fn key_parts_are_not_run_together() {
    let mut registry = LockRegistry::new();
    let a = registry.acquire("ab", "c");
    let b = registry.acquire("a", "bc");
    assert_ne!(a, b);
}

#[test]
fn many_resources_get_pairwise_distinct_slots() {
    let mut registry = LockRegistry::new();
    let mut slots = Vec::new();
    for i in 0..200 {
        slots.push(registry.acquire(&format!("pkg{}", i), "/games/limbus"));
    }
    for i in 0..200 {
        assert_eq!(slots[i], i);
        assert_eq!(registry.acquire(&format!("pkg{}", i), "/games/limbus"), i);
    }
    assert_eq!(registry.len(), 200);
}
