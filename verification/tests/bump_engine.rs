use zk_nalloc::bump::BumpAlloc;

const BASE: usize = 65536;

#[test]
fn test_nonnull_safety() {
    let buffer = vec![0u8; 1024];
    let engine = BumpAlloc::new(BASE, buffer);

    assert_eq!(engine.capacity(), 1024);
    assert_eq!(engine.used(), 0);
    assert_eq!(engine.remaining(), 1024);
    assert!(!engine.is_recycled());
}

#[test]
fn test_recycled_flag() {
    let buffer = vec![0u8; 1024];
    let mut engine = BumpAlloc::new(BASE, buffer);

    assert!(!engine.is_recycled());

    let _ = engine.allocate(64, 8);
    assert!(!engine.is_recycled());

    engine.reset();
    assert!(engine.is_recycled());
}

#[test]
fn test_recycled_flag_stays_set() {
    let mut engine = BumpAlloc::new(BASE, vec![0u8; 1024]);
    engine.reset();
    assert!(engine.is_recycled());

    let _ = engine.allocate(64, 8);
    assert!(engine.is_recycled());

    engine.reset();
    assert!(engine.is_recycled());

    engine.secure_reset();
    assert!(engine.is_recycled());
}

#[test]
fn test_secure_reset_zeroes_memory() {
    let buffer = vec![0xFFu8; 1024];
    let mut engine = BumpAlloc::new(BASE, buffer);

    // Allocate and write data
    let ptr = engine.allocate(512, 8);
    assert!(ptr.is_some());
    let p = ptr.unwrap();
    for i in 0..512 {
        engine.write_byte(p + i, 0xAB);
    }

    // Secure reset
    engine.secure_reset();

    // Verify memory is zeroed
    for i in 0..1024 {
        assert_eq!(engine.read_byte(BASE + i), 0, "Byte {} not zeroed", i);
    }
}

#[test]
fn test_alignment_presets_all_divide() {
    for align in [1usize, 2, 4, 8, 16, 32, 64, 128, 256, 512, 1024, 2048, 4096] {
        let mut engine = BumpAlloc::new(BASE + 1, vec![0u8; 65536]);
        let p = engine.allocate(5, align).expect("must fit");
        assert_eq!(p % align, 0, "address {} not divisible by {}", p, align);
    }
}

#[test]
fn test_containment() {
    let mut engine = BumpAlloc::new(BASE, vec![0u8; 4096]);
    for _ in 0..10 {
        if let Some(p) = engine.allocate(100, 16) {
            assert!(p >= BASE);
            assert!(p + 100 <= BASE + 4096);
        }
    }
}

#[test]
fn test_no_overlap_between_allocations() {
    let mut engine = BumpAlloc::new(BASE, vec![0u8; 4096]);
    let mut intervals: Vec<(usize, usize)> = Vec::new();
    for size in [7usize, 64, 1, 300, 12] {
        for align in [1usize, 8, 64] {
            if let Some(p) = engine.allocate(size, align) {
                intervals.push((p, size));
            }
        }
    }
    for (i, &(p1, s1)) in intervals.iter().enumerate() {
        for &(p2, s2) in intervals.iter().skip(i + 1) {
            assert!(
                p1 + s1 <= p2 || p2 + s2 <= p1,
                "intervals [{}, {}) and [{}, {}) overlap",
                p1,
                p1 + s1,
                p2,
                p2 + s2
            );
        }
    }
}

#[test]
fn test_monotonicity() {
    let mut engine = BumpAlloc::new(BASE, vec![0u8; 4096]);
    let mut last_used = engine.used();
    let mut last_remaining = engine.remaining();
    for size in [1usize, 17, 100, 2048, 4000] {
        let _ = engine.allocate(size, 8);
        let used = engine.used();
        let remaining = engine.remaining();
        assert!(used >= last_used, "used shrank from {} to {}", last_used, used);
        assert!(
            remaining <= last_remaining,
            "remaining grew from {} to {}",
            last_remaining,
            remaining
        );
        last_used = used;
        last_remaining = remaining;
    }
}

#[test]
fn test_sequential_bumps() {
    // Fresh 4 KiB engine at an 8-aligned base.
    let mut engine = BumpAlloc::new(BASE, vec![0u8; 4096]);
    assert_eq!(engine.allocate(64, 8), Some(BASE));
    assert_eq!(engine.allocate(64, 8), Some(BASE + 64));
    assert_eq!(engine.used(), 128);
}

#[test]
fn test_alignment_padding() {
    // Fresh engine at a base divisible by 64.
    let mut engine = BumpAlloc::new(BASE, vec![0u8; 4096]);
    assert_eq!(engine.allocate(1, 1), Some(BASE));
    // The next 64-aligned slot is base + 64, not base + 1.
    assert_eq!(engine.allocate(64, 64), Some(BASE + 64));
    assert_eq!(engine.used(), 128);
}

#[test]
fn test_exhaustion_leaves_cursor() {
    let mut engine = BumpAlloc::new(BASE, vec![0u8; 1024]);
    assert!(engine.allocate(1000, 1).is_some());
    assert_eq!(engine.allocate(100, 1), None);
    assert_eq!(engine.used(), 1000);
}

#[test]
fn test_reset_returns_cursor_to_base() {
    let mut engine = BumpAlloc::new(BASE, vec![0u8; 1024]);
    let _ = engine.allocate(500, 1);
    assert_eq!(engine.used(), 500);
    engine.reset();
    assert_eq!(engine.used(), 0);
    assert_eq!(engine.remaining(), 1024);
    assert_eq!(engine.allocate(10, 1), Some(BASE));
}

#[test]
fn test_base_ptr_reports_base() {
    let engine = BumpAlloc::new(BASE, vec![0u8; 64]);
    assert_eq!(engine.base_ptr(), BASE);
}
