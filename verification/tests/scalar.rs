use tee_integrity::scalar::{group_order_word, is_below_group_order, is_scalar_in_range, is_zero_scalar};

fn word(last: u8) -> [u8; 32] {
    let mut bytes = [0u8; 32];
    bytes[31] = last;
    bytes
}

#[test]
fn group_order_has_its_known_bytes() {
    let expected: [u8; 32] = [
        0xff, 0xff, 0xff, 0xff, 0xff, 0xff, 0xff, 0xff, 0xff, 0xff, 0xff, 0xff, 0xff, 0xff, 0xff,
        0xfe, 0xba, 0xae, 0xdc, 0xe6, 0xaf, 0x48, 0xa0, 0x3b, 0xbf, 0xd2, 0x5e, 0x8c, 0xd0, 0x36,
        0x41, 0x41,
    ];
    assert_eq!(group_order_word(), expected);
}

#[test]
fn zero_is_the_only_zero_scalar() {
    assert!(is_zero_scalar(&[0u8; 32]));
    for i in 0..32 {
        let mut bytes = [0u8; 32];
        bytes[i] = 1;
        assert!(!is_zero_scalar(&bytes));
    }
}

#[test]
fn numbers_are_ordered_against_the_group_order() {
    let order = group_order_word();
    assert!(!is_below_group_order(&order));
    let mut below = order;
    below[31] = 0x40;
    assert!(is_below_group_order(&below));
    let mut above = order;
    above[31] = 0x42;
    assert!(!is_below_group_order(&above));
    assert!(is_below_group_order(&[0u8; 32]));
    assert!(!is_below_group_order(&[0xffu8; 32]));
    let mut smaller_high_byte = [0xffu8; 32];
    smaller_high_byte[0] = 0xfe;
    assert!(is_below_group_order(&smaller_high_byte));
    let mut larger_at_sixteen = order;
    larger_at_sixteen[15] = 0xff;
    larger_at_sixteen[31] = 0;
    assert!(!is_below_group_order(&larger_at_sixteen));
}

#[test]
fn scalars_in_range_are_from_one_to_below_the_order() {
    assert!(!is_scalar_in_range(&[0u8; 32]));
    assert!(is_scalar_in_range(&word(1)));
    assert!(is_scalar_in_range(&word(255)));
    let order = group_order_word();
    assert!(!is_scalar_in_range(&order));
    let mut last = order;
    last[31] = 0x40;
    assert!(is_scalar_in_range(&last));
    assert!(!is_scalar_in_range(&[0xffu8; 32]));
}
