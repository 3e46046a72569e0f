use memory_management::config::{ApplicationType, MemoryConfig};
use memory_management::errors::CoreError;
use memory_management::memory::{AllocationStrategy, MemoryManager};

const MIB: usize = 1024 * 1024;

fn config(buffer_size: usize, pool_size: usize) -> MemoryConfig {
    MemoryConfig {
        buffer_size,
        pool_size,
        scale_multiplier: 1,
    }
}

fn all_zero(buffer: &[u8]) -> bool {
    buffer.iter().all(|&b| b == 0)
}

#[test]
fn supported_profiles_select_documented_strategies() {
    let cases = [
        (ApplicationType::WebApp, AllocationStrategy::PoolBased),
        (ApplicationType::ApiBackend, AllocationStrategy::PoolBased),
        (ApplicationType::DesktopApp, AllocationStrategy::Standard),
        (ApplicationType::AutomationScript, AllocationStrategy::Standard),
        (ApplicationType::EmbeddedSystem, AllocationStrategy::CustomEmbedded),
    ];
    for (app_type, expected) in cases {
        let manager = MemoryManager::new(app_type, config(1024, 4096))
            .expect("construction must succeed for a supported profile");
        assert_eq!(manager.default_strategy(), expected);
    }
}

#[test]
fn unsupported_profile_fails_with_configuration_error() {
    let result = MemoryManager::new(ApplicationType::Unsupported, config(1024, 4096));
    assert!(matches!(result, Err(CoreError::ConfigurationError)));
}

#[test]
fn pool_presence_follows_strategy() {
    let pooled = MemoryManager::new(ApplicationType::WebApp, config(1024, 4096)).unwrap();
    assert_eq!(pooled.pool_len(), Some(4));

    let standard = MemoryManager::new(ApplicationType::DesktopApp, config(1024, 4096)).unwrap();
    assert_eq!(standard.pool_len(), None);

    let embedded = MemoryManager::new(ApplicationType::EmbeddedSystem, config(1024, 4096)).unwrap();
    assert_eq!(embedded.pool_len(), None);
}

#[test]
fn pool_count_is_integer_division_of_sizes() {
    let manager = MemoryManager::new(ApplicationType::ApiBackend, config(1000, 4500)).unwrap();
    assert_eq!(manager.pool_len(), Some(4));
}

#[test]
fn undersized_pool_is_present_but_empty() {
    let manager = MemoryManager::new(ApplicationType::ApiBackend, config(1024, 512)).unwrap();
    assert_eq!(manager.pool_len(), Some(0));
}

#[test]
fn pool_allocation_scenario() {
    // Four 1 MiB buffers are pooled; each allocation serves the configured
    // buffer size while the pool lasts, whatever size was requested.
    let mut manager = MemoryManager::new(ApplicationType::ApiBackend, config(MIB, 4 * MIB)).unwrap();
    assert_eq!(manager.pool_len(), Some(4));
    for round in 0..4 {
        let buffer = manager.allocate(None, MIB).unwrap();
        assert_eq!(buffer.len(), MIB);
        assert!(all_zero(&buffer));
        assert_eq!(manager.pool_len(), Some(3 - round));
    }
    // The pool is exhausted: the next allocation falls back to a fresh buffer
    // of the requested size.
    let fallback = manager.allocate(None, 2048).unwrap();
    assert_eq!(fallback.len(), 2048);
    assert!(all_zero(&fallback));
    assert_eq!(manager.pool_len(), Some(0));
    // Returning the fallback buffer enqueues it, leaving the pool with one
    // buffer whose length differs from the original pooled buffers.
    manager.deallocate(fallback).unwrap();
    assert_eq!(manager.pool_len(), Some(1));
    let requeued = manager.allocate(None, MIB).unwrap();
    assert_eq!(requeued.len(), 2048);
}

#[test]
fn deallocate_appends_regardless_of_allocation_override() {
    let mut manager = MemoryManager::new(ApplicationType::WebApp, config(1024, 2048)).unwrap();
    assert_eq!(manager.pool_len(), Some(2));
    // A per-call standard override leaves the pool untouched and serves the
    // requested size.
    let foreign = manager.allocate(Some(AllocationStrategy::Standard), 10).unwrap();
    assert_eq!(foreign.len(), 10);
    assert_eq!(manager.pool_len(), Some(2));
    // Deallocation dispatches on the manager's default strategy, so even this
    // differently-sized buffer is enqueued.
    manager.deallocate(foreign).unwrap();
    assert_eq!(manager.pool_len(), Some(3));
}

#[test]
fn pool_is_served_in_fifo_order() {
    let mut manager = MemoryManager::new(ApplicationType::WebApp, config(8, 16)).unwrap();
    assert_eq!(manager.pool_len(), Some(2));
    manager.deallocate(vec![0u8; 3]).unwrap();
    let first = manager.allocate(None, 1).unwrap();
    let second = manager.allocate(None, 1).unwrap();
    let third = manager.allocate(None, 1).unwrap();
    assert_eq!(first.len(), 8);
    assert_eq!(second.len(), 8);
    assert_eq!(third.len(), 3);
}

#[test]
fn standard_allocation_returns_requested_size() {
    let mut manager = MemoryManager::new(ApplicationType::DesktopApp, config(1024, 4096)).unwrap();
    let empty = manager.allocate(None, 0).unwrap();
    assert_eq!(empty.len(), 0);
    let buffer = manager.allocate(None, 4242).unwrap();
    assert_eq!(buffer.len(), 4242);
    assert!(all_zero(&buffer));
    // Deallocation under the standard strategy only releases ownership.
    assert_eq!(manager.deallocate(buffer), Ok(()));
    assert_eq!(manager.pool_len(), None);
}

#[test]
fn custom_embedded_allocation_ignores_requested_size() {
    let mut manager =
        MemoryManager::new(ApplicationType::EmbeddedSystem, config(2048, 4096)).unwrap();
    let small = manager.allocate(None, 1).unwrap();
    assert_eq!(small.len(), 2048);
    let large = manager.allocate(None, 999_999).unwrap();
    assert_eq!(large.len(), 2048);
    assert!(all_zero(&large));
    assert_eq!(manager.deallocate(small), Ok(()));
}

#[test]
fn pool_override_without_pool_is_an_allocation_error() {
    let mut manager = MemoryManager::new(ApplicationType::DesktopApp, config(1024, 4096)).unwrap();
    let result = manager.allocate(Some(AllocationStrategy::PoolBased), 64);
    assert!(matches!(result, Err(CoreError::ResourceAllocationError)));
}

#[test]
fn override_is_never_persisted() {
    let mut manager = MemoryManager::new(ApplicationType::ApiBackend, config(64, 128)).unwrap();
    let foreign = manager.allocate(Some(AllocationStrategy::Standard), 5).unwrap();
    assert_eq!(foreign.len(), 5);
    assert_eq!(manager.pool_len(), Some(2));
    // Without an override the manager is back on its pool-based default.
    let pooled = manager.allocate(None, 5).unwrap();
    assert_eq!(pooled.len(), 64);
    assert_eq!(manager.pool_len(), Some(1));
}

#[test]
fn round_trips_leave_pool_length_unchanged() {
    let mut manager = MemoryManager::new(ApplicationType::WebApp, config(512, 2048)).unwrap();
    assert_eq!(manager.pool_len(), Some(4));
    for _ in 0..10 {
        let buffer = manager.allocate(None, 512).unwrap();
        manager.deallocate(buffer).unwrap();
        assert_eq!(manager.pool_len(), Some(4));
    }
}
