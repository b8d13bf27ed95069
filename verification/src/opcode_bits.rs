//! Builders for the rotate/shift and single-bit instructions, and the
//! flag-inert accumulator instructions CPL, SCF and CCF.

use vstd::prelude::*;

use crate::opcode::{
    cat2, cat3, cat4, Opcode, Operation, spec_op_apply, spec_reg8_name, spec_rot_val,
    spec_with_flags, reg8_name,
};
use crate::opcode::{ShiftDir, ShiftMode};
use crate::registers::{Flags, Reg8};
use crate::state::{spec_get_reg, spec_set_reg, StateV};

verus! {

/// Name of one bit position, for display names.
pub open spec fn spec_bit_name(bit: u8) -> Seq<char>
    recommends
        bit < 8,
{
    if bit == 0 {
        "0"@
    } else if bit == 1 {
        "1"@
    } else if bit == 2 {
        "2"@
    } else if bit == 3 {
        "3"@
    } else if bit == 4 {
        "4"@
    } else if bit == 5 {
        "5"@
    } else if bit == 6 {
        "6"@
    } else {
        "7"@
    }
}

fn bit_name(bit: u8) -> (n: &'static str)
    requires
        bit < 8,
    ensures
        n@ == spec_bit_name(bit),
{
    if bit == 0 {
        "0"
    } else if bit == 1 {
        "1"
    } else if bit == 2 {
        "2"
    } else if bit == 3 {
        "3"
    } else if bit == 4 {
        "4"
    } else if bit == 5 {
        "5"
    } else if bit == 6 {
        "6"
    } else {
        "7"
    }
}

/// Rotate/shift instruction over one operand slot: a direction crossed with
/// a mode, and a `fast` form for the accumulator that skips the S/Z/F5/F3
/// and parity refresh. The display name is the mnemonic handed in; the full
/// forms append the operand after a space, the fast forms append it
/// directly (RLC + A reads RLCA).
pub fn build_rot_r(r: Reg8, decor: (ShiftDir, ShiftMode, &str), fast: bool) -> (o: Opcode)
    ensures
        o.wf(),
        o.op == Operation::Rot(decor.0, decor.1, r, fast),
        o.bytes == 1,
        o.cycles == (if fast {
            4u64
        } else {
            8u64
        }),
        o.name@ == decor.2@ + (if fast {
            Seq::<char>::empty()
        } else {
            " "@
        }) + spec_reg8_name(r),
{
    let (dir, mode, name) = decor;
    let separator: &str = if fast {
        ""
    } else {
        " "
    };
    let full = cat3(name, separator, reg8_name(r));
    proof {
        reveal_strlit("");
        assert(""@ =~= Seq::<char>::empty());
    }
    Opcode {
        name: full,
        bytes: 1,
        cycles: if fast {
            4
        } else {
            8
        },
        op: Operation::Rot(dir, mode, r, fast),
    }
}

/// BIT: test one bit of an operand slot, setting Zero exactly when the
/// tested bit is 0, as the chip's AND with the bit mask does, and mutating
/// nothing else.
pub fn build_bit_r(bit: u8, r: Reg8) -> (o: Opcode)
    requires
        bit < 8,
    ensures
        o.wf(),
        o.op == Operation::BitTest(bit, r),
        o.bytes == 1,
        o.cycles == 8,
        o.name@ == "BIT "@ + spec_bit_name(bit) + ", "@ + spec_reg8_name(r),
{
    Opcode {
        name: cat4("BIT ", bit_name(bit), ", ", reg8_name(r)),
        bytes: 1,
        cycles: 8,
        op: Operation::BitTest(bit, r),
    }
}

/// SET: unconditionally force one bit of an operand slot on; flag-inert.
pub fn build_set_r(bit: u8, r: Reg8) -> (o: Opcode)
    requires
        bit < 8,
    ensures
        o.wf(),
        o.op == Operation::BitSet(bit, r),
        o.bytes == 1,
        o.cycles == 8,
        o.name@ == "SET "@ + spec_bit_name(bit) + ", "@ + spec_reg8_name(r),
{
    Opcode {
        name: cat4("SET ", bit_name(bit), ", ", reg8_name(r)),
        bytes: 1,
        cycles: 8,
        op: Operation::BitSet(bit, r),
    }
}

/// RES: unconditionally force one bit of an operand slot off; flag-inert.
pub fn build_res_r(bit: u8, r: Reg8) -> (o: Opcode)
    requires
        bit < 8,
    ensures
        o.wf(),
        o.op == Operation::BitRes(bit, r),
        o.bytes == 1,
        o.cycles == 8,
        o.name@ == "RES "@ + spec_bit_name(bit) + ", "@ + spec_reg8_name(r),
{
    Opcode {
        name: cat4("RES ", bit_name(bit), ", ", reg8_name(r)),
        bytes: 1,
        cycles: 8,
        op: Operation::BitRes(bit, r),
    }
}

/// CPL: complement the accumulator; sets H and N, leaves the rest alone.
pub fn build_cpl() -> (o: Opcode)
    ensures
        o.wf(),
        o.op == Operation::Cpl,
        o.bytes == 1,
        o.cycles == 4,
        o.name@ == "CPL"@,
{
    Opcode { name: "CPL".to_owned(), bytes: 1, cycles: 4, op: Operation::Cpl }
}

/// SCF: set the Carry flag, clearing H and N.
pub fn build_scf() -> (o: Opcode)
    ensures
        o.wf(),
        o.op == Operation::Scf,
        o.bytes == 1,
        o.cycles == 4,
        o.name@ == "SCF"@,
{
    Opcode { name: "SCF".to_owned(), bytes: 1, cycles: 4, op: Operation::Scf }
}

/// CCF: complement the Carry flag; Half-carry takes the prior Carry, and
/// N is cleared.
pub fn build_ccf() -> (o: Opcode)
    ensures
        o.wf(),
        o.op == Operation::Ccf,
        o.bytes == 1,
        o.cycles == 4,
        o.name@ == "CCF"@,
{
    Opcode { name: "CCF".to_owned(), bytes: 1, cycles: 4, op: Operation::Ccf }
}

/// Rotating a byte right through the wrap and then left through the wrap
/// returns it unchanged, whatever the Carry flag held before either step:
/// the wrapping rotate ignores the carry coming in.
pub proof fn lemma_rotate_carry_round_trip(v: u8, c1: bool, c2: bool)
    ensures
        spec_rot_val(
            ShiftDir::Left,
            ShiftMode::RotateCarry,
            spec_rot_val(ShiftDir::Right, ShiftMode::RotateCarry, v, c1),
            c2,
        ) == v,
{
    let w = spec_rot_val(ShiftDir::Right, ShiftMode::RotateCarry, v, c1);
    if v & 1 == 1 {
        assert(v & 1 == 1 ==> (v >> 1) | 0x80 >= 0x80) by (bit_vector);
        assert(v & 1 == 1 ==> ((((v >> 1) | 0x80) << 1) | 1) == v) by (bit_vector);
    } else {
        assert(v & 1 != 1 ==> (v >> 1) < 0x80) by (bit_vector);
        assert(v & 1 != 1 ==> ((v >> 1) << 1) == v) by (bit_vector);
    }
}

/// BIT never mutates the tested operand: its whole effect is the Zero flag.
pub proof fn lemma_bit_test_mutates_nothing_but_z(bit: u8, r: Reg8, s: StateV)
    requires
        bit < 8,
    ensures
        spec_op_apply(Operation::BitTest(bit, r), s) == spec_with_flags(
            s,
            Flags { z: spec_get_reg(s, r) & (1u8 << bit) == 0, ..s.reg.flags },
        ),
        spec_op_apply(Operation::BitTest(bit, r), s).mem == s.mem,
        spec_op_apply(Operation::BitTest(bit, r), s).reg.a == s.reg.a,
        spec_op_apply(Operation::BitTest(bit, r), s).reg.b == s.reg.b,
        spec_op_apply(Operation::BitTest(bit, r), s).reg.c == s.reg.c,
        spec_op_apply(Operation::BitTest(bit, r), s).reg.d == s.reg.d,
        spec_op_apply(Operation::BitTest(bit, r), s).reg.e == s.reg.e,
        spec_op_apply(Operation::BitTest(bit, r), s).reg.h == s.reg.h,
        spec_op_apply(Operation::BitTest(bit, r), s).reg.l == s.reg.l,
{
}

/// SET then RES of the same bit, on a byte whose bit was clear to begin
/// with, restores the original byte. (On a byte whose bit was set it cannot:
/// RES forces the bit off.)
pub proof fn lemma_set_then_res_restores(v: u8, bit: u8)
    requires
        bit < 8,
        v & (1u8 << bit) == 0,
    ensures
        (v | (1u8 << bit)) & !(1u8 << bit) == v,
{
    assert(bit < 8 && v & (1u8 << bit) == 0 ==> ((v | (1u8 << bit)) & !(1u8 << bit)) == v)
        by (bit_vector);
}

/// RES then SET of the same bit forces the bit on, regardless of what the
/// byte held before.
pub proof fn lemma_res_then_set_forces_on(v: u8, bit: u8)
    requires
        bit < 8,
    ensures
        (v & !(1u8 << bit)) | (1u8 << bit) == v | (1u8 << bit),
{
    assert(bit < 8 ==> ((v & !(1u8 << bit)) | (1u8 << bit)) == (v | (1u8 << bit)))
        by (bit_vector);
}

} // verus!
