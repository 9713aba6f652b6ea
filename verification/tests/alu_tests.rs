use gbc::alu::{
    half_borrow8, half_carry_add16, half_carry_add8, low_nibble_clear, low_nibble_full,
    sign_extend, truncate16, truncate8,
};

#[test]
fn truncate8_keeps_the_low_byte() {
    assert_eq!(truncate8(0), 0);
    assert_eq!(truncate8(255), 255);
    assert_eq!(truncate8(256), 0);
    assert_eq!(truncate8(0x1F1), 0xF1);
    assert_eq!(truncate8(-1), 255);
    assert_eq!(truncate8(-30), 226);
}

#[test]
fn truncate16_keeps_the_low_word() {
    assert_eq!(truncate16(0), 0);
    assert_eq!(truncate16(0xFFFF), 0xFFFF);
    assert_eq!(truncate16(0x10000), 0);
    assert_eq!(truncate16(0x10062), 0x0062);
    assert_eq!(truncate16(-1), 0xFFFF);
    assert_eq!(truncate16(-128), 0xFF80);
}

#[test]
fn sign_extend_reads_twos_complement() {
    assert_eq!(sign_extend(0), 0);
    assert_eq!(sign_extend(1), 1);
    assert_eq!(sign_extend(0x7F), 127);
    assert_eq!(sign_extend(0x80), -128);
    assert_eq!(sign_extend(0xFF), -1);
    assert_eq!(sign_extend(0xFE), -2);
}

#[test]
fn half_carry_add8_is_the_carry_out_of_bit_3() {
    assert_eq!(half_carry_add8(0x0F, 0x01), true);
    assert_eq!(half_carry_add8(0xF0, 0x01), false);
    assert_eq!(half_carry_add8(0x08, 0x08), true);
    assert_eq!(half_carry_add8(0x08, 0x07), false);
    assert_eq!(half_carry_add8(0xFF, 0xFF), true);
    assert_eq!(half_carry_add8(0x00, 0x100), false);
}

#[test]
fn half_carry_add16_is_the_carry_out_of_bit_11() {
    assert_eq!(half_carry_add16(0x0FFF, 0x0001), true);
    assert_eq!(half_carry_add16(0x0FFF, 100), true);
    assert_eq!(half_carry_add16(0xFFFE, 0x0064), true);
    assert_eq!(half_carry_add16(0xF000, 0x0FFF), false);
    assert_eq!(half_carry_add16(0x0800, 0x0800), true);
    assert_eq!(half_carry_add16(0x0001, -1), true);
    assert_eq!(half_carry_add16(0x0000, -1), false);
}

#[test]
fn half_borrow8_compares_the_low_nibbles() {
    assert_eq!(half_borrow8(200, 30), true);
    assert_eq!(half_borrow8(0x18, 0x08), false);
    assert_eq!(half_borrow8(0x10, 0x01), true);
    assert_eq!(half_borrow8(0x0F, 0xFF), false);
    assert_eq!(half_borrow8(0, 200), true);
}

#[test]
fn low_nibble_full_is_true_of_xf() {
    for byte in 0..=255u8 {
        assert_eq!(low_nibble_full(byte), byte & 0x0F == 0x0F);
    }
}

#[test]
fn low_nibble_clear_is_true_of_x0() {
    for value in 0..=255i32 {
        assert_eq!(low_nibble_clear(value), value % 16 == 0);
    }
}
