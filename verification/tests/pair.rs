use swap_core::address::Address;
use swap_core::pair::is_target_pair;

fn filled(byte: u8) -> Address {
    Address::new([byte; 20])
}

#[test]
fn pair_matches_in_both_orders() {
    let a = filled(0xaa);
    let b = filled(0xbb);
    assert!(is_target_pair(&a, &b, &a, &b));
    assert!(is_target_pair(&a, &b, &b, &a));
}

#[test]
fn pair_with_a_foreign_token_does_not_match() {
    let a = filled(0xaa);
    let b = filled(0xbb);
    let c = filled(0xcc);
    let d = filled(0xdd);
    assert!(!is_target_pair(&a, &b, &c, &d));
    assert!(!is_target_pair(&a, &b, &a, &c));
    assert!(!is_target_pair(&a, &b, &c, &b));
    assert!(!is_target_pair(&a, &b, &c, &a));
    assert!(!is_target_pair(&a, &b, &b, &c));
}

#[test]
fn repeated_token_matches_only_itself() {
    let a = filled(0xaa);
    let b = filled(0xbb);
    assert!(is_target_pair(&a, &a, &a, &a));
    assert!(!is_target_pair(&a, &a, &a, &b));
    assert!(!is_target_pair(&a, &a, &b, &a));
    assert!(!is_target_pair(&a, &b, &a, &a));
    assert!(!is_target_pair(&a, &b, &b, &b));
}

#[test]
fn addresses_differing_in_one_byte_do_not_match() {
    let a = filled(0xaa);
    let b = filled(0xbb);
    let mut bytes = [0xaa; 20];
    bytes[19] = 0xab;
    let near_a = Address::new(bytes);
    assert!(!is_target_pair(&a, &b, &near_a, &b));
    assert!(!is_target_pair(&near_a, &b, &b, &a));
    bytes = [0xbb; 20];
    bytes[0] = 0xba;
    let near_b = Address::new(bytes);
    assert!(!is_target_pair(&a, &b, &near_b, &a));
}

#[test]
fn zero_address_is_recognised() {
    assert!(Address::zero().is_zero());
    assert_eq!(Address::zero(), Address::new([0; 20]));
    assert!(!filled(1).is_zero());
    let mut bytes = [0u8; 20];
    bytes[19] = 1;
    assert!(!Address::new(bytes).is_zero());
    assert_ne!(Address::new(bytes), Address::zero());
}
