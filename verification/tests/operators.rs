use z80core::operators::{
    operator_adc16, operator_add16, operator_add8, operator_daa, operator_dec, operator_inc,
    operator_sbc16, operator_sub8,
};
use z80core::registers::Registers;

#[test]
fn inc_dec_round_trip_all_values() {
    for v in 0u16..=255 {
        let v = v as u8;
        let mut reg = Registers::new();
        let d = operator_dec(&mut reg, v);
        let back = operator_inc(&mut reg, d);
        assert_eq!(back, v);
        let i = operator_inc(&mut reg, v);
        let back2 = operator_dec(&mut reg, i);
        assert_eq!(back2, v);
    }
}

#[test]
fn inc_dec_leave_carry_alone() {
    for v in [0u8, 1, 0x0F, 0x7F, 0x80, 0xFF] {
        for carry in [false, true] {
            let mut reg = Registers::new();
            reg.flags.c = carry;
            operator_inc(&mut reg, v);
            assert_eq!(reg.flags.c, carry);
            operator_dec(&mut reg, v);
            assert_eq!(reg.flags.c, carry);
        }
    }
}

#[test]
fn inc_flag_details() {
    let mut reg = Registers::new();
    let v = operator_inc(&mut reg, 0x7F);
    assert_eq!(v, 0x80);
    assert!(reg.flags.p, "overflow set when 0x7F increments");
    assert!(reg.flags.s);
    assert!(!reg.flags.n);
    assert!(reg.flags.h, "low nibble wrapped");
    let v = operator_inc(&mut reg, 0xFF);
    assert_eq!(v, 0);
    assert!(reg.flags.z);
}

#[test]
fn dec_flag_details() {
    let mut reg = Registers::new();
    let v = operator_dec(&mut reg, 0x80);
    assert_eq!(v, 0x7F);
    assert!(reg.flags.p, "overflow set when 0x80 decrements");
    assert!(reg.flags.n);
    assert!(reg.flags.h, "low nibble borrowed");
    let v = operator_dec(&mut reg, 0x01);
    assert_eq!(v, 0);
    assert!(reg.flags.z);
}

#[test]
fn add8_carry_and_half_carry_all_pairs() {
    for a in 0u16..=255 {
        for b in 0u16..=255 {
            let mut reg = Registers::new();
            let v = operator_add8(&mut reg, a as u8, b as u8);
            assert_eq!(v as u16, (a + b) & 0xFF);
            assert_eq!(reg.flags.c, a + b > 255);
            assert_eq!(reg.flags.h, (a & 0xF) + (b & 0xF) > 0xF);
            assert!(!reg.flags.n);
        }
    }
}

#[test]
fn add8_overflow_flag() {
    let mut reg = Registers::new();
    operator_add8(&mut reg, 0x7F, 0x01);
    assert!(reg.flags.p, "positive overflow");
    operator_add8(&mut reg, 0x80, 0x80);
    assert!(reg.flags.p, "negative overflow");
    operator_add8(&mut reg, 0x10, 0x20);
    assert!(!reg.flags.p);
}

#[test]
fn sub8_borrow_and_sign() {
    let mut reg = Registers::new();
    let v = operator_sub8(&mut reg, 0, 1);
    assert_eq!(v, 0xFF);
    assert!(reg.flags.c, "borrow");
    assert!(reg.flags.n);
    assert!(reg.flags.s);
    let v = operator_sub8(&mut reg, 5, 5);
    assert_eq!(v, 0);
    assert!(reg.flags.z);
    assert!(!reg.flags.c);
}

#[test]
fn daa_textbook_vector_0f() {
    // The spec's example: A=0x0F with N clear and H set corrects to 0x15.
    let mut reg = Registers::new();
    reg.flags.h = true;
    let v = operator_daa(&mut reg, 0x0F);
    assert_eq!(v, 0x15);
    assert!(reg.flags.h, "low nibble was beyond 9 after an add");
    assert!(!reg.flags.c);
}

#[test]
fn daa_corrects_3c_to_42() {
    // 0x15 + 0x27 = 0x3C raw; DAA must correct to packed BCD 0x42.
    let mut reg = Registers::new();
    let raw = operator_add8(&mut reg, 0x15, 0x27);
    assert_eq!(raw, 0x3C);
    let v = operator_daa(&mut reg, raw);
    assert_eq!(v, 0x42);
    assert!(!reg.flags.c);
}

#[test]
fn daa_carries_out_of_9a() {
    // 0x99 + 0x01 = 0x9A raw; DAA corrects to 0x00 with Carry set.
    let mut reg = Registers::new();
    let raw = operator_add8(&mut reg, 0x99, 0x01);
    assert_eq!(raw, 0x9A);
    let v = operator_daa(&mut reg, raw);
    assert_eq!(v, 0x00);
    assert!(reg.flags.c);
    assert!(reg.flags.z);
}

#[test]
fn daa_leaves_valid_bcd_alone() {
    for hi in 0u8..10 {
        for lo in 0u8..10 {
            let a = hi * 16 + lo;
            let mut reg = Registers::new();
            let v = operator_daa(&mut reg, a);
            assert_eq!(v, a);
            assert!(!reg.flags.c);
        }
    }
}

#[test]
fn daa_after_add_matches_decimal_arithmetic() {
    // For every pair of packed-BCD bytes, binary add followed by DAA must
    // produce the packed-BCD sum modulo 100 with Carry flagging the
    // decimal overflow — the whole add branch of the truth table.
    for dx in 0u32..100 {
        for dy in 0u32..100 {
            let x = ((dx / 10) * 16 + dx % 10) as u8;
            let y = ((dy / 10) * 16 + dy % 10) as u8;
            let mut reg = Registers::new();
            let raw = operator_add8(&mut reg, x, y);
            let v = operator_daa(&mut reg, raw);
            let sum = dx + dy;
            let expect = (((sum % 100) / 10) * 16 + sum % 10) as u8;
            assert_eq!(v, expect, "BCD {dx}+{dy}");
            assert_eq!(reg.flags.c, sum >= 100, "carry for {dx}+{dy}");
        }
    }
}

#[test]
fn daa_after_sub_matches_decimal_arithmetic() {
    // The subtract branch: binary subtract followed by DAA produces the
    // packed-BCD difference modulo 100, with Carry as the decimal borrow.
    for dx in 0u32..100 {
        for dy in 0u32..100 {
            let x = ((dx / 10) * 16 + dx % 10) as u8;
            let y = ((dy / 10) * 16 + dy % 10) as u8;
            let mut reg = Registers::new();
            let raw = operator_sub8(&mut reg, x, y);
            let v = operator_daa(&mut reg, raw);
            let diff = (100 + dx - dy) % 100;
            let expect = ((diff / 10) * 16 + diff % 10) as u8;
            assert_eq!(v, expect, "BCD {dx}-{dy}");
        }
    }
}

#[test]
fn add16_touches_only_c_h_n() {
    let mut reg = Registers::new();
    reg.flags.s = true;
    reg.flags.z = true;
    reg.flags.p = true;
    let v = operator_add16(&mut reg, 0x0FFF, 0x0001);
    assert_eq!(v, 0x1000);
    assert!(reg.flags.h, "carry out of bit 11");
    assert!(!reg.flags.c);
    assert!(!reg.flags.n);
    assert!(reg.flags.s && reg.flags.z && reg.flags.p, "S/Z/P untouched by ADD HL");
    let v = operator_add16(&mut reg, 0xFFFF, 0x0001);
    assert_eq!(v, 0);
    assert!(reg.flags.c, "carry out of bit 15");
}

#[test]
fn adc16_sets_zero_and_overflow() {
    let mut reg = Registers::new();
    reg.flags.c = true;
    let v = operator_adc16(&mut reg, 0xFFFF, 0x0000);
    assert_eq!(v, 0);
    assert!(reg.flags.z, "ADC HL does set Z");
    assert!(reg.flags.c);
    let mut reg = Registers::new();
    let v = operator_adc16(&mut reg, 0x7FFF, 0x0001);
    assert_eq!(v, 0x8000);
    assert!(reg.flags.p, "signed overflow");
    assert!(reg.flags.s);
}

#[test]
fn sbc16_borrow() {
    let mut reg = Registers::new();
    reg.flags.c = true;
    let v = operator_sbc16(&mut reg, 0x0000, 0x0000);
    assert_eq!(v, 0xFFFF);
    assert!(reg.flags.c, "borrow");
    assert!(reg.flags.n);
    assert!(reg.flags.s);
}
