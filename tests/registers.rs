use metalboy::flags::Flags;
use metalboy::registers::{Registers, R16, R8};

#[test]
fn compute_half_carry_add_ok() {
    let mut registers = Registers::new();
    assert!(!registers.f.half_carry);
    registers.f.compute_half_carry_add(0b00001010, 0b00001100);
    assert!(registers.f.half_carry);
}

#[test]
fn compute_half_carry_add_no_carry() {
    let mut registers = Registers::new();
    assert!(!registers.f.half_carry);
    registers.f.compute_half_carry_add(0b00000101, 0b00000100);
    assert!(!registers.f.half_carry);
}

#[test]
fn flags_as_u8_ok() {
    let mut registers = Registers::new();
    registers.f.zero = true;
    registers.f.half_carry = true;
    assert_eq!(registers.f.as_u8(), 0b10100000);
}

#[test]
fn flags_set_from_u8_ok() {
    let mut registers = Registers::new();
    registers.f.set_from_u8(0b10010000);
    assert!(registers.f.zero);
    assert!(!registers.f.sub);
    assert!(!registers.f.half_carry);
    assert!(registers.f.carry);
}

#[test]
fn get_register_combo() {
    let mut registers = Registers::new();
    registers.b = 0xAB;
    registers.c = 0xCD;
    assert_eq!(registers.bc(), 0xABCD);
}

#[test]
fn set_register_combo() {
    let mut registers = Registers::new();
    registers.set_bc(0xABCD);
    assert_eq!(registers.b, 0xAB);
    assert_eq!(registers.c, 0xCD);
}

#[test]
fn half_carry_add_matches_nibble_sum() {
    for a in 0..=255u8 {
        for b in 0..=255u8 {
            let expected = ((a & 0xF) + (b & 0xF)) >= 0x10;
            assert_eq!(Flags::half_carry_add_occurred(a, b), expected);
        }
    }
}

#[test]
fn half_carry_sub_on_borrow() {
    assert!(Flags::half_carry_sub_occurred(0x10, 0x01));
    assert!(!Flags::half_carry_sub_occurred(0x1F, 0x0F));
}

#[test]
fn flags_round_trip_masks_low_nibble() {
    for f in 0..=255u8 {
        let mut flags = Flags { zero: false, sub: false, half_carry: false, carry: false };
        flags.set_from_u8(f);
        assert_eq!(flags.as_u8(), f & 0xF0);
    }
}

#[test]
fn flags_to_string_marks_set_flags() {
    let flags = Flags { zero: true, sub: false, half_carry: true, carry: false };
    assert_eq!(flags.to_string(), "z h ");
    let mut all = flags;
    all.set_from_bool(true, true, true, true);
    assert_eq!(all.to_string(), "znhc");
    all.clear();
    assert_eq!(all.to_string(), "    ");
}

#[test]
fn af_pair_drops_low_nibble() {
    let mut registers = Registers::new();
    registers.set_af(0x12FF);
    assert_eq!(registers.a, 0x12);
    assert_eq!(registers.af(), 0x12F0);
}

#[test]
fn hl_post_increment_and_decrement() {
    let mut registers = Registers::new();
    registers.set_hl(0xFFFF);
    assert_eq!(registers.hl_post_inc(), 0xFFFF);
    assert_eq!(registers.hl(), 0x0000);
    assert_eq!(registers.hl_post_dec(), 0x0000);
    assert_eq!(registers.hl(), 0xFFFF);
}

#[test]
fn operand_fields_decode() {
    assert_eq!(R8::from_spec(0), R8::B);
    assert_eq!(R8::from_spec(6), R8::HLRam);
    assert_eq!(R8::from_spec(7), R8::A);
    assert_eq!(R16::from_spec(3), R16::SP);
}
