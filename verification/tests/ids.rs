use wrldbldr_domain::ids::{ChallengeId, WorldId};

#[test]
fn identifier_text_is_hyphenated_lower_hex() {
    let id = WorldId::from_u128(0x123e4567_e89b_12d3_a456_426614174000);
    assert_eq!(id.to_text(), "123e4567-e89b-12d3-a456-426614174000");
    let small = ChallengeId::from_u128(0xab);
    assert_eq!(small.to_text(), "00000000-0000-0000-0000-0000000000ab");
    let id2 = WorldId::from_u128(u128::MAX);
    assert_eq!(id2.to_text(), "ffffffff-ffff-ffff-ffff-ffffffffffff");
}

#[test]
fn fresh_identifiers_are_version_four() {
    for _ in 0..8 {
        let v = WorldId::new().as_u128();
        assert_eq!(v & 0xf000_c000_0000_0000_0000, 0x4000_8000_0000_0000_0000);
    }
}
