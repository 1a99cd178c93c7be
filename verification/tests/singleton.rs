use std::sync::Arc;

use lazy_singleton::concurrent::LazySingletonRegistry;
use lazy_singleton::instance::Singleton;
use lazy_singleton::registry::Registry;

#[test]
fn constructor_sets_marker() {
    let instance = Singleton::new();
    assert!(instance.ready);
}

#[test]
fn fresh_registry_is_uninitialized() {
    let registry = Registry::new();
    assert!(!registry.is_initialized());
    assert_eq!(registry.constructions_so_far(), 0);
    assert!(registry.peek().is_none());
}

#[test]
fn first_retrieval_constructs_once() {
    let mut registry = Registry::new();
    let handle = registry.get_instance();
    assert!(handle.ready);
    assert!(registry.is_initialized());
    assert_eq!(registry.constructions_so_far(), 1);
}

#[test]
fn repeated_retrieval_returns_identical_instance() {
    let mut registry = Registry::new();
    let first = registry.get_instance();
    let second = registry.get_instance();
    assert!(Arc::ptr_eq(&first, &second));
    assert_eq!(registry.constructions_so_far(), 1);
}

#[test]
fn peek_sees_the_same_instance_without_constructing() {
    let mut registry = Registry::new();
    let handle = registry.get_instance();
    let peeked = registry.peek();
    assert!(peeked.is_some());
    assert!(Arc::ptr_eq(&handle, &peeked.unwrap()));
    assert_eq!(registry.constructions_so_far(), 1);
}

#[test]
fn locked_registry_starts_uninitialized() {
    let registry = LazySingletonRegistry::new();
    assert!(!registry.is_initialized());
    assert_eq!(registry.construction_count(), 0);
}

#[test]
fn locked_registry_constructs_on_first_demand() {
    let registry = LazySingletonRegistry::new();
    let handle = registry.get_instance();
    assert!(handle.ready);
    assert!(registry.is_initialized());
    assert_eq!(registry.construction_count(), 1);
}

#[test]
fn locked_registry_retrieval_is_idempotent() {
    let registry = LazySingletonRegistry::new();
    let first = registry.get_instance();
    assert_eq!(registry.construction_count(), 1);
    let second = registry.get_instance();
    assert!(Arc::ptr_eq(&first, &second));
    assert_eq!(registry.construction_count(), 1);
}

#[test]
fn every_observed_instance_is_fully_constructed() {
    let registry = LazySingletonRegistry::new();
    for _ in 0..10 {
        let handle = registry.get_instance();
        assert!(handle.ready);
    }
}

#[test]
fn hundred_callers_share_one_instance() {
    let registry = LazySingletonRegistry::new();
    let mut handles: Vec<Arc<Singleton>> = Vec::new();
    for _ in 0..100 {
        handles.push(registry.get_instance());
    }
    let first = &handles[0];
    for handle in &handles {
        assert!(Arc::ptr_eq(first, handle));
        assert!(handle.ready);
    }
    assert_eq!(registry.construction_count(), 1);
}

#[test]
fn shared_registry_hands_out_one_instance_through_clones() {
    let registry = Arc::new(LazySingletonRegistry::new());
    let mut handles: Vec<Arc<Singleton>> = Vec::new();
    for _ in 0..100 {
        let sharer = Arc::clone(&registry);
        handles.push(sharer.get_instance());
    }
    for handle in &handles {
        assert!(Arc::ptr_eq(&handles[0], handle));
    }
    assert_eq!(registry.construction_count(), 1);
}

#[test]
fn instances_compare_equal_as_values() {
    let a = Singleton::new();
    let b = Singleton::new();
    assert_eq!(a, b);
}
