use z80core::decoder::{decode, decode_cb, step};
use z80core::opcode::{DecodingHelper, Operation};
use z80core::registers::{Reg16, Reg8};
use z80core::state::State;

#[test]
fn decoding_helper_splits_bit_fields() {
    let d = DecodingHelper::parts(0b10_110_001);
    assert_eq!(d.x, 2);
    assert_eq!(d.y, 6);
    assert_eq!(d.z, 1);
    assert_eq!(d.p, 3);
    assert_eq!(d.q, 0);
    let d = DecodingHelper::parts(0x09);
    assert_eq!((d.x, d.z, d.p, d.q), (0, 1, 0, 1));
}

#[test]
fn decode_base_page() {
    assert!(matches!(decode(0x00).unwrap().op, Operation::Nop));
    assert!(matches!(decode(0x01).unwrap().op, Operation::LdRrNn(Reg16::BC)));
    assert!(matches!(decode(0x09).unwrap().op, Operation::AddHlRr(Reg16::BC)));
    assert!(matches!(decode(0x03).unwrap().op, Operation::IncDecRr(Reg16::BC, true)));
    assert!(matches!(decode(0x0B).unwrap().op, Operation::IncDecRr(Reg16::BC, false)));
    assert!(matches!(decode(0x3C).unwrap().op, Operation::IncR(Reg8::A)));
    assert!(matches!(decode(0x35).unwrap().op, Operation::DecR(Reg8::MemHL)));
    assert!(matches!(decode(0x3E).unwrap().op, Operation::LdRN(Reg8::A)));
    assert!(matches!(decode(0x27).unwrap().op, Operation::Daa));
    assert!(matches!(decode(0x2F).unwrap().op, Operation::Cpl));
    assert!(matches!(decode(0x37).unwrap().op, Operation::Scf));
    assert!(matches!(decode(0x3F).unwrap().op, Operation::Ccf));
    assert!(matches!(decode(0x41).unwrap().op, Operation::LdRR(Reg8::B, Reg8::C)));
    assert_eq!(decode(0x00).unwrap().cycles, 4);
    assert_eq!(decode(0x01).unwrap().cycles, 10);
    assert_eq!(decode(0x09).unwrap().cycles, 11);
}

#[test]
fn decode_rejects_gaps() {
    // HALT and the pages this core does not cover decode to nothing.
    assert!(decode(0x76).is_none());
    assert!(decode(0x80).is_none());
    assert!(decode(0xC3).is_none());
    assert!(decode(0x08).is_none());
}

#[test]
fn decode_cb_page_is_total() {
    assert!(matches!(decode_cb(0x00).op, Operation::Rot(_, _, Reg8::B, false)));
    assert!(matches!(decode_cb(0x47).op, Operation::BitTest(0, Reg8::A)));
    assert!(matches!(decode_cb(0x86).op, Operation::BitRes(0, Reg8::MemHL)));
    assert!(matches!(decode_cb(0xFF).op, Operation::BitSet(7, Reg8::A)));
    assert_eq!(decode_cb(0x00).name, "RLC B");
    assert_eq!(decode_cb(0x47).name, "BIT 0, A");
}

#[test]
fn program_ld_bc_then_add_hl_bc() {
    // LD BC, 0x1234 ; ADD HL, BC — with HL starting at 0 this leaves
    // HL=0x1234, Carry and Half-carry clear, and charges 10 + 11 cycles.
    let mut state = State::new();
    state.poke(0x0000, 0x01);
    state.poke(0x0001, 0x34);
    state.poke(0x0002, 0x12);
    state.poke(0x0003, 0x09);
    assert!(step(&mut state));
    assert_eq!(state.reg.get16(Reg16::BC), 0x1234);
    assert!(step(&mut state));
    assert_eq!(state.reg.get16(Reg16::HL), 0x1234);
    assert!(!state.reg.flags.c);
    assert!(!state.reg.flags.h);
    assert_eq!(state.cycles, 10 + 11);
    assert_eq!(state.reg.pc, 4);
}

#[test]
fn step_through_cb_prefix() {
    // SET 7, B via the prefixed page.
    let mut state = State::new();
    state.poke(0x0000, 0xCB);
    state.poke(0x0001, 0xF8);
    assert!(step(&mut state));
    assert_eq!(state.reg.b, 0x80);
    assert_eq!(state.reg.pc, 2);
    assert_eq!(state.cycles, 8);
}

#[test]
fn step_surfaces_unimplemented_opcode() {
    let mut state = State::new();
    state.poke(0x0000, 0x76);
    assert!(!step(&mut state));
    assert_eq!(state.reg.pc, 1, "only the opcode fetch was consumed");
    assert_eq!(state.cycles, 0);
}

#[test]
fn pc_wraps_at_top_of_memory() {
    let mut state = State::new();
    state.poke(0xFFFF, 0x00);
    state.reg.pc = 0xFFFF;
    assert!(step(&mut state));
    assert_eq!(state.reg.pc, 0);
}
