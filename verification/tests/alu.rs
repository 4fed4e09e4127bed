//! Flag-exact checks of the arithmetic/logic unit.

use gb_core::alu;

#[test]
fn add_basic() {
    let r = alu::add(5, 3);
    assert_eq!(r.value, 8);
    assert!(!r.flags.zero);
    assert!(!r.flags.subtract);
    assert!(!r.flags.half_carry);
    assert!(!r.flags.carry);
}

#[test]
fn add_wraps_and_carries() {
    let r = alu::add(0xFF, 1);
    assert_eq!(r.value, 0);
    assert!(r.flags.zero);
    assert!(r.flags.carry);
    assert!(r.flags.half_carry);
    assert!(!r.flags.subtract);
}

#[test]
fn add_half_carry_boundary() {
    let r = alu::add(0x0F, 1);
    assert_eq!(r.value, 0x10);
    assert!(r.flags.half_carry);
    assert!(!r.flags.carry);
    assert!(!r.flags.zero);
}

#[test]
fn adc_counts_the_carry_in() {
    let r = alu::adc(0xFE, 1, true);
    assert_eq!(r.value, 0);
    assert!(r.flags.zero);
    assert!(r.flags.carry);
    assert!(r.flags.half_carry);

    let r = alu::adc(0xFE, 1, false);
    assert_eq!(r.value, 0xFF);
    assert!(!r.flags.carry);
    assert!(!r.flags.half_carry);
}

#[test]
fn sub_basic() {
    let r = alu::sub(8, 3);
    assert_eq!(r.value, 5);
    assert!(r.flags.subtract);
    assert!(!r.flags.carry);
    assert!(!r.flags.half_carry);
    assert!(!r.flags.zero);
}

#[test]
fn sub_borrows() {
    let r = alu::sub(3, 8);
    assert_eq!(r.value, 0xFB);
    assert!(r.flags.carry);
    assert!(r.flags.half_carry);
}

#[test]
fn sub_equal_is_zero() {
    let r = alu::sub(5, 5);
    assert_eq!(r.value, 0);
    assert!(r.flags.zero);
}

#[test]
fn sbc_counts_the_carry_in() {
    let r = alu::sbc(0x10, 0x0F, true);
    assert_eq!(r.value, 0);
    assert!(r.flags.zero);
    assert!(!r.flags.carry);
    assert!(r.flags.half_carry);

    let r = alu::sbc(0, 0, true);
    assert_eq!(r.value, 0xFF);
    assert!(r.flags.carry);
    assert!(r.flags.half_carry);
}

#[test]
fn cp_has_sub_flags() {
    let f = alu::cp(5, 5);
    assert!(f.zero);
    assert!(f.subtract);
    assert!(!f.carry);

    let f = alu::cp(3, 8);
    assert!(!f.zero);
    assert!(f.carry);
    assert!(f.half_carry);
}

#[test]
fn bitwise_flag_rules() {
    let r = alu::and(0xF0, 0x0F);
    assert_eq!(r.value, 0);
    assert!(r.flags.zero);
    assert!(!r.flags.carry);
    assert!(r.flags.half_carry);
    assert!(!r.flags.subtract);

    let r = alu::or(0xF0, 0x0F);
    assert_eq!(r.value, 0xFF);
    assert!(!r.flags.zero);
    assert!(!r.flags.carry);
    assert!(!r.flags.half_carry);

    let r = alu::xor(0xFF, 0xFF);
    assert_eq!(r.value, 0);
    assert!(r.flags.zero);
    assert!(!r.flags.carry);
    assert!(!r.flags.half_carry);
}

#[test]
fn inc_keeps_carry_at_the_boundary() {
    let r = alu::inc(0xFF, true);
    assert_eq!(r.value, 0);
    assert!(r.flags.zero);
    assert!(r.flags.half_carry);
    assert!(!r.flags.subtract);
    assert!(r.flags.carry);

    let r = alu::inc(0xFF, false);
    assert!(!r.flags.carry);
}

#[test]
fn dec_keeps_carry_at_the_boundary() {
    let r = alu::dec(0x00, true);
    assert_eq!(r.value, 0xFF);
    assert!(r.flags.half_carry);
    assert!(r.flags.subtract);
    assert!(r.flags.carry);

    let r = alu::dec(0x00, false);
    assert!(!r.flags.carry);

    let r = alu::dec(1, false);
    assert_eq!(r.value, 0);
    assert!(r.flags.zero);
}

#[test]
fn rlc_rotates_bit_seven_into_bit_zero_and_carry() {
    let r = alu::rlc(0x80);
    assert_eq!(r.value, 0x01);
    assert!(r.flags.carry);
    assert!(!r.flags.zero);

    let r = alu::rlc(0x85);
    assert_eq!(r.value, 0x0B);
    assert!(r.flags.carry);

    let r = alu::rlc(0x00);
    assert_eq!(r.value, 0);
    assert!(r.flags.zero);
    assert!(!r.flags.carry);
}
