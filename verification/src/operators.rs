//! The arithmetic/logical operators: pure result values plus the exact flag
//! bits the chip computes, defined once and shared by every opcode that
//! needs them. All register-width arithmetic wraps.

use vstd::prelude::*;

use crate::registers::{Flag, Flags, Registers, spec_parity_even, spec_sz53};

verus! {

/// An 8-bit value incremented, wrapping 255 to 0.
pub open spec fn spec_inc_val(v: u8) -> u8 {
    if v == 255 {
        0
    } else {
        (v + 1) as u8
    }
}

/// An 8-bit value decremented, wrapping 0 to 255.
pub open spec fn spec_dec_val(v: u8) -> u8 {
    if v == 0 {
        255
    } else {
        (v - 1) as u8
    }
}

/// Flags after an 8-bit increment produced `v`: S/Z/F5/F3 from the result,
/// N cleared, Overflow exactly when the pre-increment value was 0x7F (so the
/// result is 0x80), Half-carry on the low-nibble wrap. Carry is untouched.
pub open spec fn spec_inc_flags(f: Flags, v: u8) -> Flags {
    Flags { n: false, p: v == 0x80, h: v % 16 == 0, ..spec_sz53(f, v) }
}

/// Flags after an 8-bit decrement produced `v`: S/Z/F5/F3 from the result,
/// N set, Overflow exactly when the pre-decrement value was 0x80 (so the
/// result is 0x7F), Half-carry on the low-nibble borrow. Carry is untouched.
pub open spec fn spec_dec_flags(f: Flags, v: u8) -> Flags {
    Flags { n: true, p: v == 0x7F, h: v % 16 == 15, ..spec_sz53(f, v) }
}

/// The wrapped 8-bit sum of `a`, `b` and a carry-in.
pub open spec fn spec_add8_val(a: u8, b: u8, cin: bool) -> u8 {
    ((a + b + (if cin {
        1int
    } else {
        0int
    })) % 256) as u8
}

/// Flags after an 8-bit add: Carry is unsigned overflow of the true sum,
/// Half-carry is carry out of bit 3, Overflow is both operands of one sign
/// and the result of the other, N cleared, S/Z/F5/F3 from the result.
pub open spec fn spec_add8_flags(f: Flags, a: u8, b: u8, cin: bool) -> Flags {
    let ci: int = if cin {
        1
    } else {
        0
    };
    let v = spec_add8_val(a, b, cin);
    Flags {
        c: a + b + ci > 255,
        n: false,
        h: a % 16 + b % 16 + ci > 15,
        p: ((a < 0x80) == (b < 0x80)) && ((v < 0x80) != (a < 0x80)),
        ..spec_sz53(f, v)
    }
}

/// The wrapped 8-bit difference `a - b - carry-in`.
pub open spec fn spec_sub8_val(a: u8, b: u8, cin: bool) -> u8 {
    ((a + 256 - b - (if cin {
        1int
    } else {
        0int
    })) % 256) as u8
}

/// Flags after an 8-bit subtract: Carry is the borrow, Half-carry the
/// borrow out of bit 4, Overflow is operands of differing sign with the
/// result's sign differing from the minuend's, N set, S/Z/F5/F3 from the
/// result.
pub open spec fn spec_sub8_flags(f: Flags, a: u8, b: u8, cin: bool) -> Flags {
    let ci: int = if cin {
        1
    } else {
        0
    };
    let v = spec_sub8_val(a, b, cin);
    Flags {
        c: b + ci > a,
        n: true,
        h: b % 16 + ci > a % 16,
        p: ((a < 0x80) != (b < 0x80)) && ((v < 0x80) != (a < 0x80)),
        ..spec_sz53(f, v)
    }
}

/// The wrapped 16-bit sum of `a`, `b` and a carry-in.
pub open spec fn spec_add16_val(a: u16, b: u16, cin: bool) -> u16 {
    ((a + b + (if cin {
        1int
    } else {
        0int
    })) % 0x10000) as u16
}

/// Flags after ADD HL-style 16-bit add: only Carry (out of bit 15),
/// Half-carry (out of bit 11) and N are live; S/Z/P and the echo bits are
/// untouched, exactly as the chip leaves them for ADD HL.
pub open spec fn spec_add16_flags(f: Flags, a: u16, b: u16) -> Flags {
    Flags { c: a + b > 0xFFFF, n: false, h: a % 0x1000 + b % 0x1000 > 0xFFF, ..f }
}

/// Flags after ADC HL: as the 16-bit add, but S, Z and Overflow are set
/// too — the documented asymmetry between ADD HL and ADC/SBC HL.
pub open spec fn spec_adc16_flags(f: Flags, a: u16, b: u16, cin: bool) -> Flags {
    let ci: int = if cin {
        1
    } else {
        0
    };
    let v = spec_add16_val(a, b, cin);
    Flags {
        c: a + b + ci > 0xFFFF,
        n: false,
        h: a % 0x1000 + b % 0x1000 + ci > 0xFFF,
        s: v >= 0x8000,
        z: v == 0,
        p: ((a < 0x8000) == (b < 0x8000)) && ((v < 0x8000) != (a < 0x8000)),
        ..f
    }
}

/// The wrapped 16-bit difference `a - b - carry-in`.
pub open spec fn spec_sub16_val(a: u16, b: u16, cin: bool) -> u16 {
    ((a + 0x10000 - b - (if cin {
        1int
    } else {
        0int
    })) % 0x10000) as u16
}

/// Flags after SBC HL: Carry is the borrow, Half-carry the borrow out of
/// bit 12, Overflow the signed overflow, N set, and S/Z from the result.
pub open spec fn spec_sbc16_flags(f: Flags, a: u16, b: u16, cin: bool) -> Flags {
    let ci: int = if cin {
        1
    } else {
        0
    };
    let v = spec_sub16_val(a, b, cin);
    Flags {
        c: b + ci > a,
        n: true,
        h: b % 0x1000 + ci > a % 0x1000,
        s: v >= 0x8000,
        z: v == 0,
        p: ((a < 0x8000) != (b < 0x8000)) && ((v < 0x8000) != (a < 0x8000)),
        ..f
    }
}

/// Whether decimal adjust corrects the low nibble: prior Half-carry, or a
/// low nibble beyond 9.
pub open spec fn spec_daa_lo6(a: u8, f: Flags) -> bool {
    f.h || a % 16 > 9
}

/// Whether decimal adjust corrects the high nibble: prior Carry, a high
/// nibble beyond 9, or a high nibble of 9 with a low nibble beyond 9.
pub open spec fn spec_daa_hi6(a: u8, f: Flags) -> bool {
    f.c || a / 16 > 9 || (a / 16 == 9 && a % 16 > 9)
}

/// The combined decimal-adjust correction: 6 per corrected nibble.
pub open spec fn spec_daa_diff(a: u8, f: Flags) -> u8 {
    ((if spec_daa_lo6(a, f) {
        6int
    } else {
        0int
    }) + (if spec_daa_hi6(a, f) {
        0x60int
    } else {
        0int
    })) as u8
}

/// The accumulator after decimal adjust: the correction is subtracted after
/// a subtract (N set) and added after an add.
pub open spec fn spec_daa_val(a: u8, f: Flags) -> u8 {
    if f.n {
        spec_sub8_val(a, spec_daa_diff(a, f), false)
    } else {
        spec_add8_val(a, spec_daa_diff(a, f), false)
    }
}

/// Flags after decimal adjust: S/Z/F5/F3 and parity from the corrected
/// accumulator, Half-carry recomputed from the add/subtract context,
/// Carry from the high-nibble decision, N unchanged.
pub open spec fn spec_daa_flags(f: Flags, a: u8) -> Flags {
    let v = spec_daa_val(a, f);
    Flags {
        p: spec_parity_even(v),
        h: (!f.n && a % 16 > 9) || (f.n && f.h && a % 16 < 6),
        c: spec_daa_hi6(a, f),
        ..spec_sz53(f, v)
    }
}

/// 8-bit increment. Sets every flag the chip defines for INC r and, like
/// the chip, never touches Carry.
pub fn operator_inc(reg: &mut Registers, a: u8) -> (v: u8)
    ensures
        v == spec_inc_val(a),
        *final(reg) == (Registers { flags: spec_inc_flags(old(reg).flags, spec_inc_val(a)), ..*old(reg) }),
        final(reg).flags.c == old(reg).flags.c,
{
    let v: u8 = if a == 255 {
        0
    } else {
        a + 1
    };
    reg.update_sz53_flags(v);
    reg.clear_flag(Flag::N);
    reg.put_flag(Flag::P, v == 0x80);
    reg.put_flag(Flag::H, v % 16 == 0);
    v
}

/// 8-bit decrement. Sets every flag the chip defines for DEC r and, like
/// the chip, never touches Carry.
pub fn operator_dec(reg: &mut Registers, a: u8) -> (v: u8)
    ensures
        v == spec_dec_val(a),
        *final(reg) == (Registers { flags: spec_dec_flags(old(reg).flags, spec_dec_val(a)), ..*old(reg) }),
        final(reg).flags.c == old(reg).flags.c,
{
    let v: u8 = if a == 0 {
        255
    } else {
        a - 1
    };
    reg.update_sz53_flags(v);
    reg.set_flag(Flag::N);
    reg.put_flag(Flag::P, v == 0x7F);
    reg.put_flag(Flag::H, v % 16 == 15);
    v
}

/// Shared body of the 8-bit add family.
fn add8_core(reg: &mut Registers, a: u8, b: u8, cin: bool) -> (v: u8)
    ensures
        v == spec_add8_val(a, b, cin),
        *final(reg) == (Registers { flags: spec_add8_flags(old(reg).flags, a, b, cin), ..*old(reg) }),
{
    let ci: u16 = if cin {
        1
    } else {
        0
    };
    let t: u16 = a as u16 + b as u16 + ci;
    let v: u8 = (t % 256) as u8;
    reg.update_sz53_flags(v);
    reg.put_flag(Flag::C, t > 255);
    reg.clear_flag(Flag::N);
    reg.put_flag(Flag::H, a % 16 + b % 16 + ci as u8 > 15);
    reg.put_flag(Flag::P, ((a < 0x80) == (b < 0x80)) && ((v < 0x80) != (a < 0x80)));
    v
}

/// Shared body of the 8-bit subtract family.
fn sub8_core(reg: &mut Registers, a: u8, b: u8, cin: bool) -> (v: u8)
    ensures
        v == spec_sub8_val(a, b, cin),
        *final(reg) == (Registers { flags: spec_sub8_flags(old(reg).flags, a, b, cin), ..*old(reg) }),
{
    let ci: u16 = if cin {
        1
    } else {
        0
    };
    let t: u16 = a as u16 + 256 - b as u16 - ci;
    let v: u8 = (t % 256) as u8;
    reg.update_sz53_flags(v);
    reg.put_flag(Flag::C, b as u16 + ci > a as u16);
    reg.set_flag(Flag::N);
    reg.put_flag(Flag::H, b % 16 + ci as u8 > a % 16);
    reg.put_flag(Flag::P, ((a < 0x80) != (b < 0x80)) && ((v < 0x80) != (a < 0x80)));
    v
}

/// 8-bit add without carry-in.
pub fn operator_add8(reg: &mut Registers, a: u8, b: u8) -> (v: u8)
    ensures
        v == spec_add8_val(a, b, false),
        *final(reg) == (Registers { flags: spec_add8_flags(old(reg).flags, a, b, false), ..*old(reg) }),
{
    add8_core(reg, a, b, false)
}

/// 8-bit add with the Carry flag as carry-in.
pub fn operator_adc8(reg: &mut Registers, a: u8, b: u8) -> (v: u8)
    ensures
        v == spec_add8_val(a, b, old(reg).flags.c),
        *final(reg) == (Registers {
            flags: spec_add8_flags(old(reg).flags, a, b, old(reg).flags.c),
            ..*old(reg)
        }),
{
    let cin = reg.get_flag(Flag::C);
    add8_core(reg, a, b, cin)
}

/// 8-bit subtract without borrow-in.
pub fn operator_sub8(reg: &mut Registers, a: u8, b: u8) -> (v: u8)
    ensures
        v == spec_sub8_val(a, b, false),
        *final(reg) == (Registers { flags: spec_sub8_flags(old(reg).flags, a, b, false), ..*old(reg) }),
{
    sub8_core(reg, a, b, false)
}

/// 8-bit subtract with the Carry flag as borrow-in.
pub fn operator_sbc8(reg: &mut Registers, a: u8, b: u8) -> (v: u8)
    ensures
        v == spec_sub8_val(a, b, old(reg).flags.c),
        *final(reg) == (Registers {
            flags: spec_sub8_flags(old(reg).flags, a, b, old(reg).flags.c),
            ..*old(reg)
        }),
{
    let cin = reg.get_flag(Flag::C);
    sub8_core(reg, a, b, cin)
}

/// 16-bit ADD HL-style add: C/H/N only, S/Z/P left alone.
pub fn operator_add16(reg: &mut Registers, a: u16, b: u16) -> (v: u16)
    ensures
        v == spec_add16_val(a, b, false),
        *final(reg) == (Registers { flags: spec_add16_flags(old(reg).flags, a, b), ..*old(reg) }),
{
    let t: u32 = a as u32 + b as u32;
    let v: u16 = (t % 0x10000) as u16;
    reg.put_flag(Flag::C, t > 0xFFFF);
    reg.clear_flag(Flag::N);
    reg.put_flag(Flag::H, a % 0x1000 + b % 0x1000 > 0xFFF);
    v
}

/// 16-bit add with the Carry flag as carry-in; sets S, Z and Overflow too.
pub fn operator_adc16(reg: &mut Registers, a: u16, b: u16) -> (v: u16)
    ensures
        v == spec_add16_val(a, b, old(reg).flags.c),
        *final(reg) == (Registers {
            flags: spec_adc16_flags(old(reg).flags, a, b, old(reg).flags.c),
            ..*old(reg)
        }),
{
    let ci: u32 = if reg.get_flag(Flag::C) {
        1
    } else {
        0
    };
    let t: u32 = a as u32 + b as u32 + ci;
    let v: u16 = (t % 0x10000) as u16;
    reg.put_flag(Flag::C, t > 0xFFFF);
    reg.clear_flag(Flag::N);
    reg.put_flag(Flag::H, a as u32 % 0x1000 + b as u32 % 0x1000 + ci > 0xFFF);
    reg.put_flag(Flag::S, v >= 0x8000);
    reg.put_flag(Flag::Z, v == 0);
    reg.put_flag(Flag::P, ((a < 0x8000) == (b < 0x8000)) && ((v < 0x8000) != (a < 0x8000)));
    v
}

/// 16-bit subtract with the Carry flag as borrow-in; sets S, Z and Overflow.
pub fn operator_sbc16(reg: &mut Registers, a: u16, b: u16) -> (v: u16)
    ensures
        v == spec_sub16_val(a, b, old(reg).flags.c),
        *final(reg) == (Registers {
            flags: spec_sbc16_flags(old(reg).flags, a, b, old(reg).flags.c),
            ..*old(reg)
        }),
{
    let ci: u32 = if reg.get_flag(Flag::C) {
        1
    } else {
        0
    };
    let t: u32 = a as u32 + 0x10000 - b as u32 - ci;
    let v: u16 = (t % 0x10000) as u16;
    reg.put_flag(Flag::C, b as u32 + ci > a as u32);
    reg.set_flag(Flag::N);
    reg.put_flag(Flag::H, b as u32 % 0x1000 + ci > a as u32 % 0x1000);
    reg.put_flag(Flag::S, v >= 0x8000);
    reg.put_flag(Flag::Z, v == 0);
    reg.put_flag(Flag::P, ((a < 0x8000) != (b < 0x8000)) && ((v < 0x8000) != (a < 0x8000)));
    v
}

/// Decimal adjust of the accumulator value `a` under the current N, H and C
/// flags: corrects each nibble by 6 where its decision asks for it, adding
/// after an add and subtracting after a subtract, and recomputes the flags
/// from the documented truth table.
pub fn operator_daa(reg: &mut Registers, a: u8) -> (v: u8)
    ensures
        v == spec_daa_val(a, old(reg).flags),
        *final(reg) == (Registers { flags: spec_daa_flags(old(reg).flags, a), ..*old(reg) }),
{
    let hi: u8 = a / 16;
    let lo: u8 = a % 16;
    let nf = reg.get_flag(Flag::N);
    let cf = reg.get_flag(Flag::C);
    let hf = reg.get_flag(Flag::H);

    let lo6 = hf || lo > 9;
    let hi6 = cf || hi > 9 || (hi == 9 && lo > 9);
    let diff: u8 = (if lo6 {
        6u8
    } else {
        0u8
    }) + (if hi6 {
        0x60u8
    } else {
        0u8
    });
    let t: u16 = if nf {
        a as u16 + 256 - diff as u16
    } else {
        a as u16 + diff as u16
    };
    let v: u8 = (t % 256) as u8;

    let new_hf = (!nf && lo > 9) || (nf && hf && lo < 6);

    reg.update_sz53p_flags(v);
    reg.put_flag(Flag::H, new_hf);
    reg.put_flag(Flag::C, hi6);
    v
}

/// Incrementing undoes decrementing and decrementing undoes incrementing,
/// for every 8-bit value; neither touches Carry (that is stated by
/// `operator_inc` and `operator_dec` themselves).
pub proof fn lemma_inc_dec_round_trip(v: u8)
    ensures
        spec_inc_val(spec_dec_val(v)) == v,
        spec_dec_val(spec_inc_val(v)) == v,
{
}

/// The 8-bit add flag formulas in mask form: Carry holds exactly when the
/// unsigned 16-bit sum exceeds 255, and Half-carry exactly when the masked
/// low nibbles sum beyond 0xF.
pub proof fn lemma_add8_flag_formulas(f: Flags, a: u8, b: u8)
    ensures
        spec_add8_flags(f, a, b, false).c == (a as u16 + b as u16 > 255),
        spec_add8_flags(f, a, b, false).h == ((a & 0xF) + (b & 0xF) > 0xF),
{
    assert(a & 0xF == a % 16) by (bit_vector);
    assert(b & 0xF == b % 16) by (bit_vector);
}

} // verus!
