use td4::u4;

#[test]
fn add_wraps_modulo_sixteen_for_every_pair() {
    for a in 0u8..16 {
        for b in 0u8..16 {
            let mut left = u4::new(a);
            let carry = left.add(u4::new(b));
            assert_eq!(left.value(), (a + b) % 16, "{} + {}", a, b);
            assert_eq!(carry, a + b >= 16, "{} + {}", a, b);
        }
    }
}

#[test]
fn add_fifteen_and_one_is_zero_with_carry() {
    let mut nibble = u4::new(15);
    let carry = nibble.add(u4::new(1));
    assert_eq!(nibble.value(), 0);
    assert!(carry);
}

#[test]
fn add_without_overflow_has_no_carry() {
    let mut nibble = u4::new(7);
    let carry = nibble.add(u4::new(8));
    assert_eq!(nibble.value(), 15);
    assert!(!carry);
}

#[test]
fn add_leaves_the_argument_alone() {
    let mut left = u4::new(9);
    let right = u4::new(9);
    assert!(left.add(right));
    assert_eq!(left.value(), 2);
    assert_eq!(right.value(), 9);
}

#[test]
fn new_keeps_the_low_four_bits() {
    assert_eq!(u4::new(0).value(), 0);
    assert_eq!(u4::new(15).value(), 15);
    assert_eq!(u4::new(16).value(), 0);
    assert_eq!(u4::new(0x3a).value(), 10);
    assert_eq!(u4::new(255).value(), 15);
}

#[test]
fn value_is_always_below_sixteen() {
    for byte in 0u8..=255 {
        assert!(u4::new(byte).value() < 16);
        assert_eq!(u4::new(byte).value(), byte % 16);
    }
}

#[test]
fn to_string_is_four_binary_digits() {
    assert_eq!(u4::new(0).to_string(), "0000");
    assert_eq!(u4::new(1).to_string(), "0001");
    assert_eq!(u4::new(5).to_string(), "0101");
    assert_eq!(u4::new(8).to_string(), "1000");
    assert_eq!(u4::new(10).to_string(), "1010");
    assert_eq!(u4::new(15).to_string(), "1111");
}

#[test]
fn to_string_agrees_with_binary_formatting() {
    for value in 0u8..16 {
        assert_eq!(u4::new(value).to_string(), format!("{:04b}", value));
    }
}

#[test]
fn copies_are_independent() {
    let first = u4::new(3);
    let mut second = first;
    second.add(u4::new(4));
    assert_eq!(first.value(), 3);
    assert_eq!(second.value(), 7);
    assert_eq!(first.clone().value(), 3);
}
