use zk_nalloc::NAlloc;

#[test]
fn test_global_alloc_api() {
    let mut facade = NAlloc::new();
    let ptr = facade.allocate(1024, 8);
    assert!(ptr.is_some());
    // Check that we can write to it
    let p = ptr.unwrap();
    facade.write_byte(p, 42);
    assert_eq!(facade.read_byte(p), 42);
}

#[test]
fn test_realloc() {
    let mut facade = NAlloc::new();
    let ptr = facade.allocate(64, 8);
    assert!(ptr.is_some());
    let p = ptr.unwrap();

    // Write some data
    for i in 0..64 {
        facade.write_byte(p + i, i as u8);
    }

    // Realloc to a larger size
    let new_ptr = facade.realloc(p, 64, 8, 128);
    assert!(new_ptr.is_some());
    let q = new_ptr.unwrap();

    // Verify data was copied
    for i in 0..64 {
        assert_eq!(facade.read_byte(q + i), i as u8);
    }
}

#[test]
fn test_realloc_shrink_keeps_block() {
    let mut facade = NAlloc::new();
    let p = facade.allocate(64, 8).unwrap();
    let used_before = facade.stats().scratch_used;
    let q = facade.realloc(p, 64, 8, 32);
    assert_eq!(q, Some(p));
    assert_eq!(facade.stats().scratch_used, used_before);
}

#[test]
fn test_alloc_zeroed() {
    let mut facade = NAlloc::new();
    let ptr = facade.alloc_zeroed(1024, 8);
    assert!(ptr.is_some());
    let p = ptr.unwrap();

    // Verify memory is zeroed
    for i in 0..1024 {
        assert_eq!(facade.read_byte(p + i), 0);
    }
}

#[test]
fn test_stats() {
    let mut facade = NAlloc::new();

    // Trigger arena initialization with an allocation
    let _ = facade.allocate(1024, 8);

    let stats = facade.stats();
    assert!(stats.scratch_used >= 1024);
    assert!(stats.total_capacity() > 0);
}

#[test]
fn test_large_allocation_routing() {
    let mut facade = NAlloc::new();

    // Small allocation (< 1MB) should go to scratch
    let _ = facade.allocate(1024, 8);

    let stats_after_small = facade.stats();
    assert!(stats_after_small.scratch_used >= 1024);

    // Large allocation (> 1MB) should go to polynomial
    let _ = facade.allocate(2 * 1024 * 1024, 64);

    let stats_after_large = facade.stats();
    assert!(stats_after_large.polynomial_used >= 2 * 1024 * 1024);
}

#[test]
fn test_routing_by_size() {
    let mut facade = NAlloc::new();

    let _ = facade.allocate(1024, 8);
    let stats = facade.stats();
    assert!(stats.scratch_used >= 1024);
    assert_eq!(stats.polynomial_used, 0);

    let _ = facade.allocate(2 * 1024 * 1024, 64);
    let stats = facade.stats();
    assert!(stats.polynomial_used >= 2 * 1024 * 1024);
}

#[test]
fn test_routing_threshold_is_strict() {
    // A request of exactly the threshold stays in scratch.
    let mut facade = NAlloc::new();
    let _ = facade.allocate(1024 * 1024, 8);
    let stats = facade.stats();
    assert!(stats.scratch_used >= 1024 * 1024);
    assert_eq!(stats.polynomial_used, 0);

    // One byte more goes to the polynomial arena.
    let _ = facade.allocate(1024 * 1024 + 1, 8);
    let stats = facade.stats();
    assert!(stats.polynomial_used >= 1024 * 1024 + 1);
}

#[test]
fn test_dealloc_is_noop() {
    let mut facade = NAlloc::new();
    let p = facade.allocate(256, 8).unwrap();
    let used_before = facade.stats().scratch_used;
    facade.dealloc(p, 256);
    assert_eq!(facade.stats().scratch_used, used_before);
}

#[test]
fn test_reset_all_through_facade() {
    let mut facade = NAlloc::new();
    let _ = facade.allocate(4096, 8);
    let w = facade.witness().allocate(128, 8).unwrap();
    facade.witness().write_byte(w, 0x5A);

    facade.reset_all();

    let stats = facade.stats();
    assert_eq!(stats.total_used(), 0);
    assert_eq!(facade.witness().read_byte(w), 0x00);
}

#[test]
fn test_default_facade_is_lazy() {
    let mut facade = NAlloc::default();
    assert!(facade.allocate(64, 8).is_some());
}
