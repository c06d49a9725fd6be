use metalboy::{bytes_from, check_bit, set_bit, unset_bit, toggle_bit, word_from};

#[test]
fn word_from_ok() {
    assert_eq!(word_from(0xBE, 0xEF), 0xBEEF);
}

#[test]
fn check_bit_ok() {
    assert!(check_bit(0b01101010, 1));
    assert!(!check_bit(0b01101010, 2));
}

#[test]
fn set_bit_ok() {
    let mut byte = 0b10101010;
    set_bit(&mut byte, 6);
    assert_eq!(byte, 0b11101010);
}

#[test]
fn unset_and_toggle_bit() {
    let mut byte = 0b1111_0000;
    unset_bit(&mut byte, 7);
    assert_eq!(byte, 0b0111_0000);
    toggle_bit(&mut byte, 0);
    assert_eq!(byte, 0b0111_0001);
    toggle_bit(&mut byte, 0);
    assert_eq!(byte, 0b0111_0000);
}

#[test]
fn bytes_from_splits_high_low() {
    assert_eq!(bytes_from(0xBEEF), (0xBE, 0xEF));
    assert_eq!(bytes_from(0x0001), (0x00, 0x01));
}
