use zk_nalloc::bump::BumpAlloc;
use zk_nalloc::polynomial::PolynomialArena;
use zk_nalloc::witness::WitnessArena;

const BASE: usize = 65536;

#[test]
fn test_wipe_after_use() {
    // Witness engine over a 1024-byte region.
    let mut witness = WitnessArena::new(BumpAlloc::new(BASE, vec![0u8; 1024]));

    let p = witness.allocate(512, 8).unwrap();
    for i in 0..512 {
        witness.write_byte(p + i, 0xAB);
    }

    witness.secure_wipe();

    // Every byte of the whole region reads as the wipe pattern.
    for i in 0..1024 {
        assert_eq!(witness.read_byte(BASE + i), 0x00, "Byte {} not wiped", i);
    }
}

#[test]
fn test_witness_zero_on_alloc_fresh() {
    let mut witness = WitnessArena::new(BumpAlloc::new(BASE, vec![0xFFu8; 1024]));
    let p = witness.allocate(256, 8).unwrap();
    for i in 0..256 {
        assert_eq!(witness.read_byte(p + i), 0);
    }
}

#[test]
fn test_witness_zero_on_alloc_recycled() {
    let mut witness = WitnessArena::new(BumpAlloc::new(BASE, vec![0u8; 1024]));
    let p = witness.allocate(200, 8).unwrap();
    for i in 0..200 {
        witness.write_byte(p + i, 0xCD);
    }
    witness.secure_wipe();

    // Second generation: allocation still reads as zero.
    let q = witness.allocate(200, 8).unwrap();
    for i in 0..200 {
        assert_eq!(witness.read_byte(q + i), 0);
    }
}

#[test]
fn test_witness_remaining() {
    let mut witness = WitnessArena::new(BumpAlloc::new(BASE, vec![0u8; 1024]));
    assert_eq!(witness.remaining(), 1024);
    let _ = witness.allocate(100, 1).unwrap();
    assert_eq!(witness.remaining(), 924);
}

#[test]
fn test_polynomial_presets() {
    let mut poly = PolynomialArena::new(BumpAlloc::new(BASE, vec![0u8; 65536]));

    let fft = poly.alloc_fft_friendly(1000).unwrap();
    assert_eq!(fft % 64, 0);

    let huge = poly.alloc_huge(8192).unwrap();
    assert_eq!(huge % 4096, 0);

    let custom = poly.allocate(100, 256).unwrap();
    assert_eq!(custom % 256, 0);
}

#[test]
fn test_polynomial_memory_not_zeroed_on_alloc() {
    // The polynomial arena hands bytes out as they are.
    let mut poly = PolynomialArena::new(BumpAlloc::new(BASE, vec![0x77u8; 4096]));
    let p = poly.allocate(16, 1).unwrap();
    assert_eq!(poly.read_byte(p), 0x77);
}

#[test]
fn test_polynomial_reset() {
    let mut poly = PolynomialArena::new(BumpAlloc::new(BASE, vec![0u8; 4096]));
    let _ = poly.alloc_fft_friendly(1024).unwrap();
    assert!(poly.remaining() < 4096);
    poly.reset();
    assert_eq!(poly.remaining(), 4096);
}

#[test]
fn test_polynomial_exhaustion() {
    let mut poly = PolynomialArena::new(BumpAlloc::new(BASE, vec![0u8; 1024]));
    assert!(poly.alloc_fft_friendly(1024).is_some());
    assert!(poly.alloc_fft_friendly(1).is_none());
}
