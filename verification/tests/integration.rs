use zk_nalloc::NAlloc;

#[test]
fn test_determinism() {
    let mut facade = NAlloc::new();

    let ptr1 = facade.allocate(1024, 64).unwrap();
    let ptr2 = facade.allocate(1024, 64).unwrap();

    let diff = ptr2 - ptr1;
    assert_eq!(
        diff, 1024,
        "Allocations should be sequential in a bump allocator"
    );
}

#[test]
fn test_witness_security() {
    let mut facade = NAlloc::new();
    let witness = facade.witness();

    let size = 100;
    let ptr = witness.allocate(size, 8).unwrap();

    // Verify it was zeroed
    for i in 0..size {
        assert_eq!(witness.read_byte(ptr + i), 0);
    }

    // Write some "secret" data
    for i in 0..size {
        witness.write_byte(ptr + i, 0xFF);
    }

    // Secure reset
    witness.secure_wipe();

    // Verify it was wiped
    for i in 0..size {
        assert_eq!(witness.read_byte(ptr + i), 0);
    }
}

#[test]
fn test_alignment() {
    let mut facade = NAlloc::new();
    let poly = facade.polynomial();

    let ptr = poly.alloc_fft_friendly(1024).unwrap();
    assert_eq!(
        ptr % 64,
        0,
        "FFT-friendly allocation must be 64-byte aligned"
    );

    let ptr_huge = poly.alloc_huge(4096).unwrap();
    assert_eq!(
        ptr_huge % 4096,
        0,
        "Huge allocation must be 4096-byte aligned"
    );
}
