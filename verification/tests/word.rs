use rvvm::word::{to_signed, to_unsigned};

#[test]
fn a_signed_word_read_unsigned_keeps_its_bits() {
    assert_eq!(to_unsigned(0), 0);
    assert_eq!(to_unsigned(1), 1);
    assert_eq!(to_unsigned(0x3000), 0x3000);
    assert_eq!(to_unsigned(isize::MAX), isize::MAX as usize);
    assert_eq!(to_unsigned(-1), usize::MAX);
    assert_eq!(to_unsigned(-2), usize::MAX - 1);
    assert_eq!(to_unsigned(isize::MIN), isize::MAX as usize + 1);
    for word in [-4096isize, -255, -16, 7, 4094, isize::MIN + 1, isize::MAX - 1] {
        assert_eq!(to_unsigned(word), word as usize);
    }
}

#[test]
fn an_unsigned_value_read_signed_keeps_its_bits() {
    assert_eq!(to_signed(0), 0);
    assert_eq!(to_signed(0x2004), 0x2004);
    assert_eq!(to_signed(isize::MAX as usize), isize::MAX);
    assert_eq!(to_signed(isize::MAX as usize + 1), isize::MIN);
    assert_eq!(to_signed(usize::MAX), -1);
    assert_eq!(to_signed(usize::MAX - 1), -2);
    for value in [1usize, 255, 4096, usize::MAX - 4095, usize::MAX / 2, usize::MAX / 2 + 2] {
        assert_eq!(to_signed(value), value as isize);
    }
}

#[test]
fn the_two_readings_are_inverse() {
    for word in [isize::MIN, -77, -1, 0, 1, 77, isize::MAX] {
        assert_eq!(to_signed(to_unsigned(word)), word);
    }
    for value in [0usize, 1, 0x8000, usize::MAX / 2, usize::MAX / 2 + 1, usize::MAX] {
        assert_eq!(to_unsigned(to_signed(value)), value);
    }
}
