use aes_ofb::state::AesState;

#[test]
fn galois_mul_zero_and_one() {
    for a in 0..=255u8 {
        assert_eq!(AesState::galois_mul(a, 0), 0);
        assert_eq!(AesState::galois_mul(a, 1), a);
        assert_eq!(AesState::galois_mul(0, a), 0);
        assert_eq!(AesState::galois_mul(1, a), a);
    }
}

#[test]
fn galois_mul_commutes() {
    for a in 0..=255u8 {
        for b in 0..=255u8 {
            assert_eq!(AesState::galois_mul(a, b), AesState::galois_mul(b, a));
        }
    }
}

#[test]
fn galois_mul_distributes_over_xor() {
    for a in 0..=255u8 {
        for b in 0..=255u8 {
            let c = a.wrapping_mul(31).wrapping_add(b.rotate_left(3));
            assert_eq!(
                AesState::galois_mul(a ^ b, c),
                AesState::galois_mul(a, c) ^ AesState::galois_mul(b, c)
            );
        }
    }
}

#[test]
fn galois_mul_known_products() {
    // 0x57 * 0x83 = 0xc1 and 0x57 * 0x13 = 0xfe, the worked examples of
    // the standard's multiplication section.
    assert_eq!(AesState::galois_mul(0x57, 0x83), 0xc1);
    assert_eq!(AesState::galois_mul(0x57, 0x13), 0xfe);
}

#[test]
fn state_round_trip_through_matrix() {
    let bytes: Vec<u8> = (0..16).collect();
    let state = AesState::from_bytes(&bytes);
    assert_eq!(state.to_bytes().to_vec(), bytes);
}
