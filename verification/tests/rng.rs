use firmium::rng::{lattice_hash, XorShift32};

#[test]
fn xorshift_sequence() {
    let mut r = XorShift32::new(1);
    assert_eq!(r.next_u32(), 270369);
    assert_eq!(r.next_u32(), 67634689);
    let mut z = XorShift32::new(0);
    assert_ne!(z.next_u32(), 0);
}

#[test]
fn xorshift_never_sticks_at_zero() {
    let mut r = XorShift32::new(12345);
    for _ in 0..10_000 {
        assert_ne!(r.next_u32(), 0);
    }
}

#[test]
fn lattice_hash_is_24_bits_and_deterministic() {
    assert_eq!(lattice_hash(3, -7), lattice_hash(3, -7));
    assert_eq!(lattice_hash(0, 0), 0);
    for x in -50..50 {
        for y in -50..50 {
            assert!(lattice_hash(x, y) < (1 << 24));
        }
    }
    let mut h = (1i32.wrapping_mul(374_761_393).wrapping_add(2i32.wrapping_mul(668_265_263))) as u32;
    h = (h ^ (h >> 13)).wrapping_mul(1_274_126_177);
    h ^= h >> 16;
    assert_eq!(lattice_hash(1, 2), h >> 8);
}
