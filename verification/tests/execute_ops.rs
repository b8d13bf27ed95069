use z80core::opcode::{build_ld_r_n, build_ld_r_r, build_ld_rr_nn, build_nop, Operation, ShiftDir, ShiftMode};
use z80core::opcode_arith::{build_add_hl_rr, build_daa, build_dec_r, build_inc_dec_rr, build_inc_r, build_neg, build_sbc_hl_rr};
use z80core::opcode_bits::{build_bit_r, build_ccf, build_cpl, build_res_r, build_rot_r, build_scf, build_set_r};
use z80core::registers::{Reg16, Reg8};
use z80core::state::State;

#[test]
fn rotate_carry_round_trip_all_values() {
    // RLCA after RRCA restores every byte.
    let rrca = build_rot_r(Reg8::A, (ShiftDir::Right, ShiftMode::RotateCarry, "RRC"), true);
    let rlca = build_rot_r(Reg8::A, (ShiftDir::Left, ShiftMode::RotateCarry, "RLC"), true);
    for v in 0u16..=255 {
        let mut state = State::new();
        state.reg.a = v as u8;
        rrca.execute(&mut state);
        rlca.execute(&mut state);
        assert_eq!(state.reg.a, v as u8);
    }
}

#[test]
fn rotate_left_carry_wraps_bit7() {
    let rlca = build_rot_r(Reg8::A, (ShiftDir::Left, ShiftMode::RotateCarry, "RLC"), true);
    let mut state = State::new();
    state.reg.a = 0x81;
    rlca.execute(&mut state);
    assert_eq!(state.reg.a, 0x03);
    assert!(state.reg.flags.c, "carry is the bit shifted off");
}

#[test]
fn shift_right_logical_fills_zero() {
    let srl = build_rot_r(Reg8::B, (ShiftDir::Right, ShiftMode::Logical, "SRL"), false);
    let mut state = State::new();
    state.reg.b = 0x81;
    srl.execute(&mut state);
    assert_eq!(state.reg.b, 0x40);
    assert!(state.reg.flags.c);
    assert!(!state.reg.flags.s, "full form refreshes S from the result");
    assert!(!state.reg.flags.p, "one set bit is odd parity");
}

#[test]
fn fast_rotate_skips_szp_refresh() {
    let rlca = build_rot_r(Reg8::A, (ShiftDir::Left, ShiftMode::RotateCarry, "RLC"), true);
    let mut state = State::new();
    state.reg.flags.z = true;
    state.reg.a = 0x01;
    rlca.execute(&mut state);
    assert!(state.reg.flags.z, "RLCA leaves Z alone");
    assert_eq!(state.reg.a, 0x02);
}

#[test]
fn bit_never_mutates_tested_register() {
    for bit in 0u8..8 {
        let op = build_bit_r(bit, Reg8::B);
        let mut state = State::new();
        state.reg.b = 0xA5;
        op.execute(&mut state);
        assert_eq!(state.reg.b, 0xA5);
        assert_eq!(state.reg.flags.z, 0xA5 & (1 << bit) == 0, "Z set when the tested bit is 0");
    }
}

#[test]
fn set_then_res_restores_cleared_bit() {
    // Holds for a byte whose bit was clear to begin with.
    let set3 = build_set_r(3, Reg8::D);
    let res3 = build_res_r(3, Reg8::D);
    let mut state = State::new();
    state.reg.d = 0xF7;
    set3.execute(&mut state);
    assert_eq!(state.reg.d, 0xFF);
    res3.execute(&mut state);
    assert_eq!(state.reg.d, 0xF7);
}

#[test]
fn res_then_set_forces_bit_on() {
    let set0 = build_set_r(0, Reg8::E);
    let res0 = build_res_r(0, Reg8::E);
    for v in [0x00u8, 0x01, 0xFE, 0xFF] {
        let mut state = State::new();
        state.reg.e = v;
        res0.execute(&mut state);
        set0.execute(&mut state);
        assert_eq!(state.reg.e, v | 1);
    }
}

#[test]
fn set_res_work_on_memory_indirect_slot() {
    let set7 = build_set_r(7, Reg8::MemHL);
    let mut state = State::new();
    state.reg.set16(Reg16::HL, 0x4000);
    state.poke(0x4000, 0x01);
    set7.execute(&mut state);
    assert_eq!(state.peek(0x4000), 0x81);
}

#[test]
fn register_pair_aliasing() {
    let mut state = State::new();
    state.reg.set16(Reg16::HL, 0x1234);
    assert_eq!(state.reg.get8(Reg8::H), 0x12);
    assert_eq!(state.reg.get8(Reg8::L), 0x34);
    state.reg.set8(Reg8::H, 0xFF);
    assert_eq!(state.reg.get16(Reg16::HL), 0xFF34);
}

#[test]
fn ld_r_r_copies_without_flags() {
    let op = build_ld_r_r(Reg8::B, Reg8::C);
    assert_eq!(op.name, "LD B, C");
    let mut state = State::new();
    state.reg.c = 0x5A;
    state.reg.flags.z = true;
    op.execute(&mut state);
    assert_eq!(state.reg.b, 0x5A);
    assert!(state.reg.flags.z, "LD touches no flag");
}

#[test]
fn ld_r_n_reads_immediate_and_advances_pc() {
    let op = build_ld_r_n(Reg8::E);
    let mut state = State::new();
    state.poke(0x0000, 0x77);
    op.execute(&mut state);
    assert_eq!(state.reg.e, 0x77);
    assert_eq!(state.reg.pc, 1);
    assert_eq!(state.cycles, 7);
}

#[test]
fn ld_rr_nn_reads_little_endian() {
    let op = build_ld_rr_nn(Reg16::SP);
    let mut state = State::new();
    state.poke(0x0000, 0xCD);
    state.poke(0x0001, 0xAB);
    op.execute(&mut state);
    assert_eq!(state.reg.sp, 0xABCD);
    assert_eq!(state.reg.pc, 2);
}

#[test]
fn inc_dec_rr_never_touch_flags() {
    let inc_bc = build_inc_dec_rr(Reg16::BC, true);
    let dec_bc = build_inc_dec_rr(Reg16::BC, false);
    let mut state = State::new();
    state.reg.flags.c = true;
    state.reg.flags.z = true;
    state.reg.set16(Reg16::BC, 0xFFFF);
    inc_bc.execute(&mut state);
    assert_eq!(state.reg.get16(Reg16::BC), 0x0000);
    dec_bc.execute(&mut state);
    assert_eq!(state.reg.get16(Reg16::BC), 0xFFFF);
    assert!(state.reg.flags.c && state.reg.flags.z);
}

#[test]
fn inc_r_on_memory_indirect() {
    let op = build_inc_r(Reg8::MemHL);
    assert_eq!(op.name, "INC (HL)");
    let mut state = State::new();
    state.reg.set16(Reg16::HL, 0x2000);
    state.poke(0x2000, 0xFF);
    op.execute(&mut state);
    assert_eq!(state.peek(0x2000), 0x00);
    assert!(state.reg.flags.z);
}

#[test]
fn dec_r_wraps_and_sets_n() {
    let op = build_dec_r(Reg8::A);
    let mut state = State::new();
    state.reg.a = 0;
    op.execute(&mut state);
    assert_eq!(state.reg.a, 0xFF);
    assert!(state.reg.flags.n);
}

#[test]
fn neg_negates_accumulator() {
    let op = build_neg();
    let mut state = State::new();
    state.reg.a = 0x01;
    op.execute(&mut state);
    assert_eq!(state.reg.a, 0xFF);
    assert!(state.reg.flags.c, "NEG of nonzero borrows");
    assert!(state.reg.flags.n);
    state.reg.a = 0x00;
    op.execute(&mut state);
    assert_eq!(state.reg.a, 0x00);
    assert!(!state.reg.flags.c);
}

#[test]
fn daa_opcode_adjusts_accumulator() {
    // ADD A,A on 0x29 gives raw 0x52 with H set; DAA corrects to 0x58.
    let daa = build_daa();
    assert_eq!(daa.name, "DAA");
    let mut state = State::new();
    let raw = z80core::operators::operator_add8(&mut state.reg, 0x29, 0x29);
    state.reg.a = raw;
    daa.execute(&mut state);
    assert_eq!(state.reg.a, 0x58);
}

#[test]
fn cpl_scf_ccf() {
    let mut state = State::new();
    state.reg.a = 0x0F;
    build_cpl().execute(&mut state);
    assert_eq!(state.reg.a, 0xF0);
    assert!(state.reg.flags.h && state.reg.flags.n);
    build_scf().execute(&mut state);
    assert!(state.reg.flags.c);
    assert!(!state.reg.flags.h && !state.reg.flags.n);
    let ccf = build_ccf();
    assert_eq!(ccf.name, "CCF");
    ccf.execute(&mut state);
    assert!(!state.reg.flags.c);
    assert!(state.reg.flags.h, "CCF moves the prior Carry into H");
    assert!(!state.reg.flags.n);
    ccf.execute(&mut state);
    assert!(state.reg.flags.c);
    assert!(!state.reg.flags.h, "prior Carry was clear");
}

#[test]
fn add_hl_rr_charges_cycles_and_sets_carry() {
    let op = build_add_hl_rr(Reg16::DE);
    assert_eq!(op.name, "ADD HL, DE");
    let mut state = State::new();
    state.reg.set16(Reg16::HL, 0xFFFF);
    state.reg.set16(Reg16::DE, 0x0002);
    op.execute(&mut state);
    assert_eq!(state.reg.get16(Reg16::HL), 0x0001);
    assert!(state.reg.flags.c);
    assert_eq!(state.cycles, 11);
}

#[test]
fn sbc_hl_rr_subtracts_with_borrow() {
    let op = build_sbc_hl_rr(Reg16::BC);
    let mut state = State::new();
    state.reg.set16(Reg16::HL, 0x0005);
    state.reg.set16(Reg16::BC, 0x0003);
    state.reg.flags.c = true;
    op.execute(&mut state);
    assert_eq!(state.reg.get16(Reg16::HL), 0x0001);
    assert!(!state.reg.flags.c);
}

#[test]
fn nop_only_charges_cycles() {
    let op = build_nop();
    assert_eq!(op.name, "NOP");
    assert!(matches!(op.op, Operation::Nop));
    let mut state = State::new();
    op.execute(&mut state);
    assert_eq!(state.cycles, 4);
    assert_eq!(state.reg.pc, 0);
}

#[test]
fn builder_names_follow_the_canonical_format() {
    assert_eq!(build_ld_r_n(Reg8::B).name, "LD B, X");
    assert_eq!(build_ld_rr_nn(Reg16::BC).name, "LD BC, XX");
    assert_eq!(build_inc_dec_rr(Reg16::SP, false).name, "DEC SP");
    assert_eq!(build_bit_r(5, Reg8::MemHL).name, "BIT 5, (HL)");
    assert_eq!(build_set_r(0, Reg8::A).name, "SET 0, A");
    assert_eq!(build_res_r(7, Reg8::L).name, "RES 7, L");
    assert_eq!(
        build_rot_r(Reg8::A, (ShiftDir::Left, ShiftMode::RotateCarry, "RLC"), true).name,
        "RLCA",
    );
    assert_eq!(
        build_rot_r(Reg8::B, (ShiftDir::Left, ShiftMode::RotateCarry, "RLC"), false).name,
        "RLC B",
    );
}
