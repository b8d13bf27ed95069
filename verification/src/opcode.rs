//! Decoded instructions. An `Opcode` is immutable once built: a display
//! name, byte length, base cycle cost and an operation kind; `execute` runs
//! the operation against the execution context and then charges the cycle
//! cost, so no single instruction can forget to account for its time.

use vstd::prelude::*;
use vstd::string::StringExecFns;

use crate::operators::{
    operator_add16, operator_adc16, operator_daa, operator_dec, operator_inc, operator_sbc16,
    operator_sub8, spec_add16_flags, spec_add16_val, spec_adc16_flags, spec_daa_flags,
    spec_daa_val, spec_dec_flags, spec_dec_val, spec_inc_flags, spec_inc_val, spec_sbc16_flags,
    spec_sub16_val, spec_sub8_flags, spec_sub8_val,
};
use crate::registers::{
    Flag, Flags, Reg16, Reg8, Registers, spec_get16, spec_parity_even, spec_set16, spec_sz53,
};
use crate::state::{spec_advance_pc, spec_fetched, spec_get_reg, spec_set_reg, State, StateV};

verus! {

/// Direction of a shift or rotate.
#[derive(Clone, Copy, PartialEq, Eq, Structural, Debug)]
pub enum ShiftDir {
    Left,
    Right,
}

/// Kind of shift or rotate: Arithmetic keeps or clears the far bit the way
/// SLA/SRA do, Logical fills the vacated bit the way SLL/SRL do, Rotate
/// rotates through the Carry flag, RotateCarry wraps bit 7 and bit 0 around.
#[derive(Clone, Copy, PartialEq, Eq, Structural, Debug)]
pub enum ShiftMode {
    Arithmetic,
    Logical,
    Rotate,
    RotateCarry,
}

/// The behaviour of one instruction, as decoded selector indices: the
/// opcode table dispatches on this value instead of per-instruction code.
#[derive(Clone, Copy, PartialEq, Eq, Structural, Debug)]
pub enum Operation {
    Nop,
    AddHlRr(Reg16),
    AdcHlRr(Reg16),
    SbcHlRr(Reg16),
    LdRN(Reg8),
    LdRR(Reg8, Reg8),
    LdRrNn(Reg16),
    IncDecRr(Reg16, bool),
    IncR(Reg8),
    DecR(Reg8),
    Neg,
    Daa,
    Cpl,
    Scf,
    Ccf,
    Rot(ShiftDir, ShiftMode, Reg8, bool),
    BitTest(u8, Reg8),
    BitSet(u8, Reg8),
    BitRes(u8, Reg8),
}

/// A 16-bit value incremented or decremented, wrapping.
pub open spec fn spec_inc_dec16(v: u16, inc: bool) -> u16 {
    if inc {
        if v == 0xFFFF {
            0
        } else {
            (v + 1) as u16
        }
    } else {
        if v == 0 {
            0xFFFF
        } else {
            (v - 1) as u16
        }
    }
}

/// The result byte of a shift/rotate and its carry-out, from the direction,
/// the mode and the Carry flag coming in. The carry-out is always the bit
/// shifted off the far end.
pub open spec fn spec_rot_val(dir: ShiftDir, mode: ShiftMode, v: u8, cin: bool) -> u8 {
    match dir {
        ShiftDir::Left => {
            let lower = match mode {
                ShiftMode::Arithmetic => false,
                ShiftMode::Logical => true,
                ShiftMode::Rotate => cin,
                ShiftMode::RotateCarry => v >= 0x80,
            };
            if lower {
                (v << 1) | 1
            } else {
                v << 1
            }
        },
        ShiftDir::Right => {
            let upper = match mode {
                ShiftMode::Arithmetic => v >= 0x80,
                ShiftMode::Logical => false,
                ShiftMode::Rotate => cin,
                ShiftMode::RotateCarry => v & 1 == 1,
            };
            if upper {
                (v >> 1) | 0x80
            } else {
                v >> 1
            }
        },
    }
}

/// The bit shifted off the far end of a shift/rotate.
pub open spec fn spec_rot_carry(dir: ShiftDir, v: u8) -> bool {
    match dir {
        ShiftDir::Left => v >= 0x80,
        ShiftDir::Right => v & 1 == 1,
    }
}

/// Flags after a shift/rotate: Carry from the shifted-off bit, H and N
/// cleared, and — only for the full (non-fast) forms — S/Z/F5/F3 and parity
/// refreshed from the result. The fast accumulator forms leave them alone,
/// matching the chip's cheaper RLCA/RRCA/RLA/RRA.
pub open spec fn spec_rot_flags(f: Flags, dir: ShiftDir, v: u8, result: u8, fast: bool) -> Flags {
    let base = Flags { c: spec_rot_carry(dir, v), h: false, n: false, ..f };
    if fast {
        base
    } else {
        Flags { p: spec_parity_even(result), ..spec_sz53(base, result) }
    }
}

/// A state with its flag register replaced.
pub open spec fn spec_with_flags(s: StateV, f: Flags) -> StateV {
    StateV { reg: Registers { flags: f, ..s.reg }, ..s }
}

/// Structural validity of an operation: a tested, set or cleared bit index
/// is one of the byte's eight bits.
pub open spec fn spec_op_wf(op: Operation) -> bool {
    match op {
        Operation::BitTest(bit, _) => bit < 8,
        Operation::BitSet(bit, _) => bit < 8,
        Operation::BitRes(bit, _) => bit < 8,
        _ => true,
    }
}

/// The effect of one operation on the execution context, cycle charge
/// aside: the single semantic model every opcode is verified against.
pub open spec fn spec_op_apply(op: Operation, s: StateV) -> StateV
    recommends
        spec_op_wf(op),
{
    match op {
        Operation::Nop => s,
        Operation::AddHlRr(rr) => {
            let a = spec_get16(s.reg, Reg16::HL);
            let b = spec_get16(s.reg, rr);
            let s1 = spec_with_flags(s, spec_add16_flags(s.reg.flags, a, b));
            StateV { reg: spec_set16(s1.reg, Reg16::HL, spec_add16_val(a, b, false)), ..s1 }
        },
        Operation::AdcHlRr(rr) => {
            let a = spec_get16(s.reg, Reg16::HL);
            let b = spec_get16(s.reg, rr);
            let cin = s.reg.flags.c;
            let s1 = spec_with_flags(s, spec_adc16_flags(s.reg.flags, a, b, cin));
            StateV { reg: spec_set16(s1.reg, Reg16::HL, spec_add16_val(a, b, cin)), ..s1 }
        },
        Operation::SbcHlRr(rr) => {
            let a = spec_get16(s.reg, Reg16::HL);
            let b = spec_get16(s.reg, rr);
            let cin = s.reg.flags.c;
            let s1 = spec_with_flags(s, spec_sbc16_flags(s.reg.flags, a, b, cin));
            StateV { reg: spec_set16(s1.reg, Reg16::HL, spec_sub16_val(a, b, cin)), ..s1 }
        },
        Operation::LdRN(r) => {
            let v = spec_fetched(s);
            spec_set_reg(spec_advance_pc(s), r, v)
        },
        Operation::LdRR(dst, src) => spec_set_reg(s, dst, spec_get_reg(s, src)),
        Operation::LdRrNn(rr) => {
            let lo = spec_fetched(s);
            let s1 = spec_advance_pc(s);
            let hi = spec_fetched(s1);
            let s2 = spec_advance_pc(s1);
            StateV { reg: spec_set16(s2.reg, rr, (hi * 256 + lo) as u16), ..s2 }
        },
        Operation::IncDecRr(rr, inc) => {
            let v = spec_inc_dec16(spec_get16(s.reg, rr), inc);
            StateV { reg: spec_set16(s.reg, rr, v), ..s }
        },
        Operation::IncR(r) => {
            let a = spec_get_reg(s, r);
            let v = spec_inc_val(a);
            spec_set_reg(spec_with_flags(s, spec_inc_flags(s.reg.flags, v)), r, v)
        },
        Operation::DecR(r) => {
            let a = spec_get_reg(s, r);
            let v = spec_dec_val(a);
            spec_set_reg(spec_with_flags(s, spec_dec_flags(s.reg.flags, v)), r, v)
        },
        Operation::Neg => {
            let b = s.reg.a;
            let v = spec_sub8_val(0, b, false);
            let s1 = spec_with_flags(s, spec_sub8_flags(s.reg.flags, 0, b, false));
            StateV { reg: Registers { a: v, ..s1.reg }, ..s1 }
        },
        Operation::Daa => {
            let a = s.reg.a;
            let v = spec_daa_val(a, s.reg.flags);
            let s1 = spec_with_flags(s, spec_daa_flags(s.reg.flags, a));
            StateV { reg: Registers { a: v, ..s1.reg }, ..s1 }
        },
        Operation::Cpl => {
            let v = !s.reg.a;
            spec_with_flags(
                StateV { reg: Registers { a: v, ..s.reg }, ..s },
                Flags { h: true, n: true, ..s.reg.flags },
            )
        },
        Operation::Scf => spec_with_flags(
            s,
            Flags { c: true, h: false, n: false, ..s.reg.flags },
        ),
        Operation::Ccf => spec_with_flags(
            s,
            Flags { c: !s.reg.flags.c, h: s.reg.flags.c, n: false, ..s.reg.flags },
        ),
        Operation::Rot(dir, mode, r, fast) => {
            let v = spec_get_reg(s, r);
            let result = spec_rot_val(dir, mode, v, s.reg.flags.c);
            let s1 = spec_set_reg(s, r, result);
            spec_with_flags(s1, spec_rot_flags(s.reg.flags, dir, v, result, fast))
        },
        Operation::BitTest(bit, r) => {
            let v = spec_get_reg(s, r);
            spec_with_flags(s, Flags { z: v & (1u8 << bit) == 0, ..s.reg.flags })
        },
        Operation::BitSet(bit, r) => spec_set_reg(s, r, spec_get_reg(s, r) | (1u8 << bit)),
        Operation::BitRes(bit, r) => spec_set_reg(s, r, spec_get_reg(s, r) & !(1u8 << bit)),
    }
}

/// The base cycle cost of an operation, as the opcode table charges it.
pub open spec fn spec_op_cycles(op: Operation) -> u64 {
    match op {
        Operation::Nop => 4,
        Operation::AddHlRr(_) => 11,
        Operation::AdcHlRr(_) => 15,
        Operation::SbcHlRr(_) => 15,
        Operation::LdRN(_) => 7,
        Operation::LdRR(_, _) => 7,
        Operation::LdRrNn(_) => 10,
        Operation::IncDecRr(_, _) => 6,
        Operation::IncR(_) => 4,
        Operation::DecR(_) => 4,
        Operation::Neg => 8,
        Operation::Daa => 4,
        Operation::Cpl => 4,
        Operation::Scf => 4,
        Operation::Ccf => 4,
        Operation::Rot(_, _, _, fast) => if fast {
            4
        } else {
            8
        },
        Operation::BitTest(_, _) => 8,
        Operation::BitSet(_, _) => 8,
        Operation::BitRes(_, _) => 8,
    }
}

/// A cycle counter advanced by a cost, wrapping at the counter's width.
pub open spec fn spec_add_cycles(c: u64, d: u64) -> u64 {
    ((c + d) % 0x10000000000000000) as u64
}

/// The full effect of executing one operation: its state change plus its
/// cycle charge.
pub open spec fn spec_execute(op: Operation, s: StateV) -> StateV
    recommends
        spec_op_wf(op),
{
    let s1 = spec_op_apply(op, s);
    StateV { cycles: spec_add_cycles(s.cycles, spec_op_cycles(op)), ..s1 }
}

/// One decoded instruction: display name, encoded length in bytes (the
/// opcode byte; immediates are fetched by the action itself), base cycle
/// cost, and the operation. Immutable once built by the opcode table.
pub struct Opcode {
    pub name: String,
    pub bytes: usize,
    pub cycles: u64,
    pub op: Operation,
}

fn exec_add_hl_rr(state: &mut State, rr: Reg16)
    requires
        old(state).wf(),
    ensures
        final(state).wf(),
        final(state)@ == spec_op_apply(Operation::AddHlRr(rr), old(state)@),
{
    let aa = state.get_index_value();
    let bb = state.get_reg16(rr);
    let vv = operator_add16(&mut state.reg, aa, bb);
    state.set_reg16(Reg16::HL, vv);
}

fn exec_adc_hl_rr(state: &mut State, rr: Reg16)
    requires
        old(state).wf(),
    ensures
        final(state).wf(),
        final(state)@ == spec_op_apply(Operation::AdcHlRr(rr), old(state)@),
{
    let aa = state.get_index_value();
    let bb = state.get_reg16(rr);
    let vv = operator_adc16(&mut state.reg, aa, bb);
    state.set_reg16(Reg16::HL, vv);
}

fn exec_sbc_hl_rr(state: &mut State, rr: Reg16)
    requires
        old(state).wf(),
    ensures
        final(state).wf(),
        final(state)@ == spec_op_apply(Operation::SbcHlRr(rr), old(state)@),
{
    let aa = state.get_index_value();
    let bb = state.get_reg16(rr);
    let vv = operator_sbc16(&mut state.reg, aa, bb);
    state.set_reg16(Reg16::HL, vv);
}

fn exec_ld_r_n(state: &mut State, r: Reg8)
    requires
        old(state).wf(),
    ensures
        final(state).wf(),
        final(state)@ == spec_op_apply(Operation::LdRN(r), old(state)@),
{
    let value = state.advance_pc();
    state.set_reg(r, value);
}

fn exec_ld_r_r(state: &mut State, dst: Reg8, src: Reg8)
    requires
        old(state).wf(),
    ensures
        final(state).wf(),
        final(state)@ == spec_op_apply(Operation::LdRR(dst, src), old(state)@),
{
    let value = state.get_reg(src);
    state.set_reg(dst, value);
}

fn exec_ld_rr_nn(state: &mut State, rr: Reg16)
    requires
        old(state).wf(),
    ensures
        final(state).wf(),
        final(state)@ == spec_op_apply(Operation::LdRrNn(rr), old(state)@),
{
    let value = state.advance_immediate16();
    state.set_reg16(rr, value);
}

fn exec_inc_dec_rr(state: &mut State, rr: Reg16, inc: bool)
    requires
        old(state).wf(),
    ensures
        final(state).wf(),
        final(state)@ == spec_op_apply(Operation::IncDecRr(rr, inc), old(state)@),
{
    let v = state.get_reg16(rr);
    let v2: u16 = if inc {
        if v == 0xFFFF {
            0
        } else {
            v + 1
        }
    } else {
        if v == 0 {
            0xFFFF
        } else {
            v - 1
        }
    };
    state.set_reg16(rr, v2);
}

fn exec_inc_r(state: &mut State, r: Reg8)
    requires
        old(state).wf(),
    ensures
        final(state).wf(),
        final(state)@ == spec_op_apply(Operation::IncR(r), old(state)@),
{
    let a = state.get_reg(r);
    let v = operator_inc(&mut state.reg, a);
    state.set_reg(r, v);
}

fn exec_dec_r(state: &mut State, r: Reg8)
    requires
        old(state).wf(),
    ensures
        final(state).wf(),
        final(state)@ == spec_op_apply(Operation::DecR(r), old(state)@),
{
    let a = state.get_reg(r);
    let v = operator_dec(&mut state.reg, a);
    state.set_reg(r, v);
}

fn exec_neg(state: &mut State)
    requires
        old(state).wf(),
    ensures
        final(state).wf(),
        final(state)@ == spec_op_apply(Operation::Neg, old(state)@),
{
    let b = state.reg.get_a();
    let v = operator_sub8(&mut state.reg, 0, b);
    state.reg.set_a(v);
    assert(state@ =~= spec_op_apply(Operation::Neg, old(state)@));
}

fn exec_daa(state: &mut State)
    requires
        old(state).wf(),
    ensures
        final(state).wf(),
        final(state)@ == spec_op_apply(Operation::Daa, old(state)@),
{
    let a = state.reg.get_a();
    let v = operator_daa(&mut state.reg, a);
    state.reg.set_a(v);
    assert(state@ =~= spec_op_apply(Operation::Daa, old(state)@));
}

fn exec_cpl(state: &mut State)
    requires
        old(state).wf(),
    ensures
        final(state).wf(),
        final(state)@ == spec_op_apply(Operation::Cpl, old(state)@),
{
    let v = !state.reg.get_a();
    state.reg.set_a(v);
    state.reg.set_flag(Flag::H);
    state.reg.set_flag(Flag::N);
    assert(state@ =~= spec_op_apply(Operation::Cpl, old(state)@));
}

fn exec_scf(state: &mut State)
    requires
        old(state).wf(),
    ensures
        final(state).wf(),
        final(state)@ == spec_op_apply(Operation::Scf, old(state)@),
{
    state.reg.set_flag(Flag::C);
    state.reg.clear_flag(Flag::H);
    state.reg.clear_flag(Flag::N);
    assert(state@ =~= spec_op_apply(Operation::Scf, old(state)@));
}

fn exec_ccf(state: &mut State)
    requires
        old(state).wf(),
    ensures
        final(state).wf(),
        final(state)@ == spec_op_apply(Operation::Ccf, old(state)@),
{
    let c = state.reg.get_flag(Flag::C);
    state.reg.put_flag(Flag::C, !c);
    state.reg.put_flag(Flag::H, c);
    state.reg.clear_flag(Flag::N);
    assert(state@ =~= spec_op_apply(Operation::Ccf, old(state)@));
}

#[verifier::rlimit(100)]
fn exec_rot(state: &mut State, dir: ShiftDir, mode: ShiftMode, r: Reg8, fast: bool)
    requires
        old(state).wf(),
    ensures
        final(state).wf(),
        final(state)@ == spec_op_apply(Operation::Rot(dir, mode, r, fast), old(state)@),
{
    let v = state.get_reg(r);
    let carry_in = state.reg.get_flag(Flag::C);
    let result: u8;
    let carry: bool;
    match dir {
        ShiftDir::Left => {
            let upper_bit = v >= 0x80;
            let set_lower_bit = match mode {
                ShiftMode::Arithmetic => false,
                ShiftMode::Logical => true,
                ShiftMode::Rotate => carry_in,
                ShiftMode::RotateCarry => upper_bit,
            };
            result = if set_lower_bit {
                (v << 1) | 1
            } else {
                v << 1
            };
            carry = upper_bit;
        },
        ShiftDir::Right => {
            let upper_bit = v >= 0x80;
            let lower_bit = v & 1 == 1;
            let set_upper_bit = match mode {
                ShiftMode::Arithmetic => upper_bit,
                ShiftMode::Logical => false,
                ShiftMode::Rotate => carry_in,
                ShiftMode::RotateCarry => lower_bit,
            };
            result = if set_upper_bit {
                (v >> 1) | 0x80
            } else {
                v >> 1
            };
            carry = lower_bit;
        },
    }
    assert(result == spec_rot_val(dir, mode, v, carry_in));
    assert(carry == spec_rot_carry(dir, v));
    state.set_reg(r, result);
    state.reg.put_flag(Flag::C, carry);
    state.reg.clear_flag(Flag::H);
    state.reg.clear_flag(Flag::N);
    if !fast {
        state.reg.update_sz53_flags(result);
        state.reg.update_p_flag(result);
    }
    assert(state@ =~= spec_op_apply(Operation::Rot(dir, mode, r, fast), old(state)@));
}

fn exec_bit_test(state: &mut State, bit: u8, r: Reg8)
    requires
        old(state).wf(),
        bit < 8,
    ensures
        final(state).wf(),
        final(state)@ == spec_op_apply(Operation::BitTest(bit, r), old(state)@),
{
    let v = state.get_reg(r);
    state.reg.put_flag(Flag::Z, v & (1u8 << bit) == 0);
    assert(state@ =~= spec_op_apply(Operation::BitTest(bit, r), old(state)@));
}

fn exec_bit_set(state: &mut State, bit: u8, r: Reg8)
    requires
        old(state).wf(),
        bit < 8,
    ensures
        final(state).wf(),
        final(state)@ == spec_op_apply(Operation::BitSet(bit, r), old(state)@),
{
    let v = state.get_reg(r);
    state.set_reg(r, v | (1u8 << bit));
}

fn exec_bit_res(state: &mut State, bit: u8, r: Reg8)
    requires
        old(state).wf(),
        bit < 8,
    ensures
        final(state).wf(),
        final(state)@ == spec_op_apply(Operation::BitRes(bit, r), old(state)@),
{
    let v = state.get_reg(r);
    state.set_reg(r, v & !(1u8 << bit));
}

impl Opcode {
    /// A well-formed opcode carries a valid operation and exactly the cycle
    /// cost the table defines for it.
    pub open spec fn wf(&self) -> bool {
        spec_op_wf(self.op) && self.cycles == spec_op_cycles(self.op)
    }

    /// The state change of this instruction, cycle charge aside.
    #[verifier::rlimit(100)]
    fn execute_apply(&self, state: &mut State)
        requires
            old(state).wf(),
            self.wf(),
        ensures
            final(state).wf(),
            final(state)@ == spec_op_apply(self.op, old(state)@),
    {
        match self.op {
            Operation::Nop => {
                assert(state@ == spec_op_apply(self.op, old(state)@));
            },
            Operation::AddHlRr(rr) => {
                exec_add_hl_rr(state, rr);
                assert(state@ == spec_op_apply(self.op, old(state)@));
            },
            Operation::AdcHlRr(rr) => {
                exec_adc_hl_rr(state, rr);
                assert(state@ == spec_op_apply(self.op, old(state)@));
            },
            Operation::SbcHlRr(rr) => {
                exec_sbc_hl_rr(state, rr);
                assert(state@ == spec_op_apply(self.op, old(state)@));
            },
            Operation::LdRN(r) => {
                exec_ld_r_n(state, r);
                assert(state@ == spec_op_apply(self.op, old(state)@));
            },
            Operation::LdRR(dst, src) => {
                exec_ld_r_r(state, dst, src);
                assert(state@ == spec_op_apply(self.op, old(state)@));
            },
            Operation::LdRrNn(rr) => {
                exec_ld_rr_nn(state, rr);
                assert(state@ == spec_op_apply(self.op, old(state)@));
            },
            Operation::IncDecRr(rr, inc) => {
                exec_inc_dec_rr(state, rr, inc);
                assert(state@ == spec_op_apply(self.op, old(state)@));
            },
            Operation::IncR(r) => {
                exec_inc_r(state, r);
                assert(state@ == spec_op_apply(self.op, old(state)@));
            },
            Operation::DecR(r) => {
                exec_dec_r(state, r);
                assert(state@ == spec_op_apply(self.op, old(state)@));
            },
            Operation::Neg => {
                exec_neg(state);
                assert(state@ == spec_op_apply(self.op, old(state)@));
            },
            Operation::Daa => {
                exec_daa(state);
                assert(state@ == spec_op_apply(self.op, old(state)@));
            },
            Operation::Cpl => {
                exec_cpl(state);
                assert(state@ == spec_op_apply(self.op, old(state)@));
            },
            Operation::Scf => {
                exec_scf(state);
                assert(state@ == spec_op_apply(self.op, old(state)@));
            },
            Operation::Ccf => {
                exec_ccf(state);
                assert(state@ == spec_op_apply(self.op, old(state)@));
            },
            Operation::Rot(dir, mode, r, fast) => {
                exec_rot(state, dir, mode, r, fast);
                assert(state@ == spec_op_apply(self.op, old(state)@));
            },
            Operation::BitTest(bit, r) => {
                exec_bit_test(state, bit, r);
                assert(state@ == spec_op_apply(self.op, old(state)@));
            },
            Operation::BitSet(bit, r) => {
                exec_bit_set(state, bit, r);
                assert(state@ == spec_op_apply(self.op, old(state)@));
            },
            Operation::BitRes(bit, r) => {
                exec_bit_res(state, bit, r);
                assert(state@ == spec_op_apply(self.op, old(state)@));
            },
        }
    }

    /// Run the instruction against the execution context, then charge this
    /// instruction's base cycle cost, so that no single instruction can
    /// forget to account for its time.
    pub fn execute(&self, state: &mut State)
        requires
            old(state).wf(),
            self.wf(),
        ensures
            final(state).wf(),
            final(state)@ == spec_execute(self.op, old(state)@),
    {
        self.execute_apply(state);
        let ghost mid = state@;
        state.cycles = state.cycles.wrapping_add(self.cycles);
        proof {
            assert(state@ =~= (StateV {
                cycles: spec_add_cycles(old(state)@.cycles, spec_op_cycles(self.op)),
                ..mid
            }));
            assert(state@ =~= spec_execute(self.op, old(state)@));
        }
    }
}


/// Canonical display name of an 8-bit operand slot.
pub open spec fn spec_reg8_name(r: Reg8) -> Seq<char> {
    match r {
        Reg8::B => "B"@,
        Reg8::C => "C"@,
        Reg8::D => "D"@,
        Reg8::E => "E"@,
        Reg8::H => "H"@,
        Reg8::L => "L"@,
        Reg8::MemHL => "(HL)"@,
        Reg8::A => "A"@,
    }
}

/// Canonical display name of a 16-bit register.
pub open spec fn spec_reg16_name(r: Reg16) -> Seq<char> {
    match r {
        Reg16::BC => "BC"@,
        Reg16::DE => "DE"@,
        Reg16::HL => "HL"@,
        Reg16::SP => "SP"@,
        Reg16::PC => "PC"@,
        Reg16::IX => "IX"@,
        Reg16::IY => "IY"@,
    }
}

pub(crate) fn reg8_name(r: Reg8) -> (n: &'static str)
    ensures
        n@ == spec_reg8_name(r),
{
    match r {
        Reg8::B => "B",
        Reg8::C => "C",
        Reg8::D => "D",
        Reg8::E => "E",
        Reg8::H => "H",
        Reg8::L => "L",
        Reg8::MemHL => "(HL)",
        Reg8::A => "A",
    }
}

pub(crate) fn reg16_name(r: Reg16) -> (n: &'static str)
    ensures
        n@ == spec_reg16_name(r),
{
    match r {
        Reg16::BC => "BC",
        Reg16::DE => "DE",
        Reg16::HL => "HL",
        Reg16::SP => "SP",
        Reg16::PC => "PC",
        Reg16::IX => "IX",
        Reg16::IY => "IY",
    }
}

/// Two name fragments joined into one display name.
pub(crate) fn cat2(a: &str, b: &str) -> (r: String)
    ensures
        r@ == a@ + b@,
{
    let mut s = a.to_owned();
    s.append(b);
    s
}

/// Three name fragments joined into one display name.
pub(crate) fn cat3(a: &str, b: &str, c: &str) -> (r: String)
    ensures
        r@ == a@ + b@ + c@,
{
    let mut s = a.to_owned();
    s.append(b);
    s.append(c);
    s
}

/// Four name fragments joined into one display name.
pub(crate) fn cat4(a: &str, b: &str, c: &str, d: &str) -> (r: String)
    ensures
        r@ == a@ + b@ + c@ + d@,
{
    let mut s = a.to_owned();
    s.append(b);
    s.append(c);
    s.append(d);
    s
}

/// The standard bit-field split of one opcode byte: x selects the broad
/// group, y and z the operands within it, and p/q re-split y for the
/// register-pair instructions.
#[derive(Clone, Copy, PartialEq, Eq, Structural, Debug)]
pub struct DecodingHelper {
    pub x: usize,
    pub y: usize,
    pub z: usize,
    pub p: usize,
    pub q: usize,
}

impl DecodingHelper {
    /// Split an opcode byte into its decode fields: x from bits 7-6, y from
    /// bits 5-3, z from bits 2-0, p from bits 5-4, q from bit 3.
    pub fn parts(code: u8) -> (d: DecodingHelper)
        ensures
            d.x == code >> 6,
            d.y == (code >> 3) & 7,
            d.z == code & 7,
            d.p == (code >> 4) & 3,
            d.q == (code >> 3) & 1,
            d.x < 4,
            d.y < 8,
            d.z < 8,
            d.p < 4,
            d.q < 2,
    {
        let d = DecodingHelper {
            x: (code >> 6) as usize,
            y: ((code >> 3) & 7) as usize,
            z: (code & 7) as usize,
            p: ((code >> 4) & 3) as usize,
            q: ((code >> 3) & 1) as usize,
        };
        assert(code >> 6 < 4 && (code >> 3) & 7 < 8 && code & 7 < 8 && (code >> 4) & 3 < 4 && (code
            >> 3) & 1 < 2) by (bit_vector);
        d
    }
}

/// The 8-bit operand slot a y/z decode field selects.
pub open spec fn spec_table_r(i: usize) -> Reg8
    recommends
        i < 8,
{
    if i == 0 {
        Reg8::B
    } else if i == 1 {
        Reg8::C
    } else if i == 2 {
        Reg8::D
    } else if i == 3 {
        Reg8::E
    } else if i == 4 {
        Reg8::H
    } else if i == 5 {
        Reg8::L
    } else if i == 6 {
        Reg8::MemHL
    } else {
        Reg8::A
    }
}

/// The register pair a p decode field selects.
pub open spec fn spec_table_rp(i: usize) -> Reg16
    recommends
        i < 4,
{
    if i == 0 {
        Reg16::BC
    } else if i == 1 {
        Reg16::DE
    } else if i == 2 {
        Reg16::HL
    } else {
        Reg16::SP
    }
}

/// Look up the 8-bit operand slot for a y/z decode field.
pub fn table_r(i: usize) -> (r: Reg8)
    requires
        i < 8,
    ensures
        r == spec_table_r(i),
{
    if i == 0 {
        Reg8::B
    } else if i == 1 {
        Reg8::C
    } else if i == 2 {
        Reg8::D
    } else if i == 3 {
        Reg8::E
    } else if i == 4 {
        Reg8::H
    } else if i == 5 {
        Reg8::L
    } else if i == 6 {
        Reg8::MemHL
    } else {
        Reg8::A
    }
}

/// Look up the register pair for a p decode field.
pub fn table_rp(i: usize) -> (r: Reg16)
    requires
        i < 4,
    ensures
        r == spec_table_rp(i),
{
    if i == 0 {
        Reg16::BC
    } else if i == 1 {
        Reg16::DE
    } else if i == 2 {
        Reg16::HL
    } else {
        Reg16::SP
    }
}

/// NOP: does nothing but consume its cycles.
pub fn build_nop() -> (o: Opcode)
    ensures
        o.wf(),
        o.op == Operation::Nop,
        o.bytes == 1,
        o.cycles == 4,
        o.name@ == "NOP"@,
{
    Opcode { name: "NOP".to_owned(), bytes: 1, cycles: 4, op: Operation::Nop }
}

/// LD r, n: load an 8-bit immediate into an operand slot; flags untouched.
/// The immediate renders as X in the name, its value being known only at
/// execution time.
pub fn build_ld_r_n(r: Reg8) -> (o: Opcode)
    ensures
        o.wf(),
        o.op == Operation::LdRN(r),
        o.bytes == 1,
        o.cycles == 7,
        o.name@ == "LD "@ + spec_reg8_name(r) + ", X"@,
{
    Opcode {
        name: cat3("LD ", reg8_name(r), ", X"),
        bytes: 1,
        cycles: 7,
        op: Operation::LdRN(r),
    }
}

/// LD r, r: copy one operand slot into another; flags untouched.
pub fn build_ld_r_r(dst: Reg8, src: Reg8) -> (o: Opcode)
    ensures
        o.wf(),
        o.op == Operation::LdRR(dst, src),
        o.bytes == 1,
        o.cycles == 7,
        o.name@ == "LD "@ + spec_reg8_name(dst) + ", "@ + spec_reg8_name(src),
{
    Opcode {
        name: cat4("LD ", reg8_name(dst), ", ", reg8_name(src)),
        bytes: 1,
        cycles: 7,
        op: Operation::LdRR(dst, src),
    }
}

/// LD rr, nn: load a 16-bit immediate into a register pair; flags
/// untouched. The immediate renders as XX in the name.
pub fn build_ld_rr_nn(rr: Reg16) -> (o: Opcode)
    ensures
        o.wf(),
        o.op == Operation::LdRrNn(rr),
        o.bytes == 1,
        o.cycles == 10,
        o.name@ == "LD "@ + spec_reg16_name(rr) + ", XX"@,
{
    Opcode {
        name: cat3("LD ", reg16_name(rr), ", XX"),
        bytes: 1,
        cycles: 10,
        op: Operation::LdRrNn(rr),
    }
}

} // verus!
