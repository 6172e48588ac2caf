use zk_nalloc::arena::ArenaManager;

#[test]
fn test_arena_manager_creation() {
    // Use smaller sizes for testing
    let manager = ArenaManager::with_sizes(1024 * 1024, 2 * 1024 * 1024, 1024 * 1024).unwrap();

    let stats = manager.stats();
    assert_eq!(stats.witness_capacity, 1024 * 1024);
    assert_eq!(stats.polynomial_capacity, 2 * 1024 * 1024);
    assert_eq!(stats.scratch_capacity, 1024 * 1024);
    assert_eq!(stats.total_used(), 0);
}

#[test]
fn test_arena_stats() {
    let mut manager = ArenaManager::with_sizes(1024 * 1024, 2 * 1024 * 1024, 1024 * 1024).unwrap();

    // Allocate some memory
    let _ = manager.witness().allocate(1024, 8);
    let _ = manager.polynomial().allocate(2048, 64);
    let _ = manager.scratch().allocate(512, 8);

    let stats = manager.stats();
    assert!(stats.witness_used >= 1024);
    assert!(stats.polynomial_used >= 2048);
    assert!(stats.scratch_used >= 512);
}

#[test]
fn test_drop_deallocates() {
    // This test verifies that dropping a manager runs without panicking
    {
        let _manager =
            ArenaManager::with_sizes(1024 * 1024, 1024 * 1024, 1024 * 1024).unwrap();
        // manager goes out of scope here, releasing its regions
    }
    // If we get here without crashing, teardown worked
}

#[test]
fn test_regions_are_disjoint() {
    let mut manager = ArenaManager::with_sizes(4096, 4096, 4096).unwrap();
    let w = manager.witness().allocate(16, 1).unwrap();
    let p = manager.polynomial().allocate(16, 1).unwrap();
    let s = manager.scratch().allocate(16, 1).unwrap();
    assert!(w + 16 <= p, "witness block runs into the polynomial region");
    assert!(p + 16 <= s, "polynomial block runs into the scratch region");
}

#[test]
fn test_reset_all_wipes_witness() {
    let mut manager = ArenaManager::with_sizes(1024, 1024, 1024).unwrap();
    let w = manager.witness().allocate(100, 8).unwrap();
    for i in 0..100 {
        manager.witness().write_byte(w + i, 0xEE);
    }
    let s = manager.scratch().allocate(32, 1).unwrap();
    manager.scratch().write_byte(s, 0x77);

    manager.reset_all();

    let stats = manager.stats();
    assert_eq!(stats.total_used(), 0);
    // The witness region reads as the wipe pattern everywhere.
    let wbase = manager.witness().base_ptr();
    for i in 0..1024 {
        assert_eq!(manager.witness().read_byte(wbase + i), 0x00);
    }
    // The scratch bytes are kept; only the cursor moved.
    assert_eq!(manager.scratch().read_byte(s), 0x77);
    assert!(manager.scratch().is_recycled());
}
