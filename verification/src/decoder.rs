//! The decoder and the CPU stepper: a raw opcode byte is split into its
//! bit fields and mapped to the builder parameterization that produced the
//! matching `Opcode`; the stepper runs fetch-decode-execute. A byte with no
//! decoding is surfaced to the host as a fault rather than executed wrongly.

use vstd::prelude::*;

use crate::opcode::{
    build_ld_r_n, build_ld_r_r, build_ld_rr_nn, build_nop, DecodingHelper, Opcode, Operation,
    ShiftDir, ShiftMode, spec_execute, spec_reg16_name, spec_reg8_name, spec_table_r,
    spec_table_rp, table_r, table_rp,
};
use crate::opcode_bits::spec_bit_name;
use crate::opcode_arith::{build_add_hl_rr, build_daa, build_dec_r, build_inc_dec_rr, build_inc_r};
use crate::opcode_bits::{build_bit_r, build_ccf, build_cpl, build_res_r, build_rot_r, build_scf, build_set_r};
use crate::state::{spec_advance_pc, spec_fetched, State, StateV};

verus! {

/// The direction, mode and mnemonic of the rotate/shift family a y decode
/// field selects in the prefixed bit-instruction page.
pub open spec fn spec_rot_kind(y: usize) -> (ShiftDir, ShiftMode) {
    if y == 0 {
        (ShiftDir::Left, ShiftMode::RotateCarry)
    } else if y == 1 {
        (ShiftDir::Right, ShiftMode::RotateCarry)
    } else if y == 2 {
        (ShiftDir::Left, ShiftMode::Rotate)
    } else if y == 3 {
        (ShiftDir::Right, ShiftMode::Rotate)
    } else if y == 4 {
        (ShiftDir::Left, ShiftMode::Arithmetic)
    } else if y == 5 {
        (ShiftDir::Right, ShiftMode::Arithmetic)
    } else if y == 6 {
        (ShiftDir::Left, ShiftMode::Logical)
    } else {
        (ShiftDir::Right, ShiftMode::Logical)
    }
}

/// The mnemonic of one rotate/shift family, as the table names it.
pub open spec fn spec_rot_mnemonic(dir: ShiftDir, mode: ShiftMode) -> Seq<char> {
    match dir {
        ShiftDir::Left => match mode {
            ShiftMode::RotateCarry => "RLC"@,
            ShiftMode::Rotate => "RL"@,
            ShiftMode::Arithmetic => "SLA"@,
            ShiftMode::Logical => "SLL"@,
        },
        ShiftDir::Right => match mode {
            ShiftMode::RotateCarry => "RRC"@,
            ShiftMode::Rotate => "RR"@,
            ShiftMode::Arithmetic => "SRA"@,
            ShiftMode::Logical => "SRL"@,
        },
    }
}

/// The canonical display name of a table-built operation: mnemonic, space,
/// comma-separated operands, with X and XX standing for the immediates.
pub open spec fn spec_op_name(op: Operation) -> Seq<char> {
    match op {
        Operation::Nop => "NOP"@,
        Operation::AddHlRr(rr) => "ADD HL, "@ + spec_reg16_name(rr),
        Operation::AdcHlRr(rr) => "ADC HL, "@ + spec_reg16_name(rr),
        Operation::SbcHlRr(rr) => "SBC HL, "@ + spec_reg16_name(rr),
        Operation::LdRN(r) => "LD "@ + spec_reg8_name(r) + ", X"@,
        Operation::LdRR(dst, src) => "LD "@ + spec_reg8_name(dst) + ", "@ + spec_reg8_name(src),
        Operation::LdRrNn(rr) => "LD "@ + spec_reg16_name(rr) + ", XX"@,
        Operation::IncDecRr(rr, inc) => (if inc {
            "INC "@
        } else {
            "DEC "@
        }) + spec_reg16_name(rr),
        Operation::IncR(r) => "INC "@ + spec_reg8_name(r),
        Operation::DecR(r) => "DEC "@ + spec_reg8_name(r),
        Operation::Neg => "NEG"@,
        Operation::Daa => "DAA"@,
        Operation::Cpl => "CPL"@,
        Operation::Scf => "SCF"@,
        Operation::Ccf => "CCF"@,
        Operation::Rot(dir, mode, r, fast) => spec_rot_mnemonic(dir, mode) + (if fast {
            Seq::<char>::empty()
        } else {
            " "@
        }) + spec_reg8_name(r),
        Operation::BitTest(bit, r) => "BIT "@ + spec_bit_name(bit) + ", "@ + spec_reg8_name(r),
        Operation::BitSet(bit, r) => "SET "@ + spec_bit_name(bit) + ", "@ + spec_reg8_name(r),
        Operation::BitRes(bit, r) => "RES "@ + spec_bit_name(bit) + ", "@ + spec_reg8_name(r),
    }
}

/// The operation an unprefixed opcode byte decodes to, or nothing where
/// this core has no decoding for the byte (an unimplemented instruction is
/// a fault, never a guess).
pub open spec fn spec_decode(code: u8) -> Option<Operation> {
    let x = (code >> 6) as usize;
    let y = ((code >> 3) & 7) as usize;
    let z = (code & 7) as usize;
    let p = ((code >> 4) & 3) as usize;
    let q = ((code >> 3) & 1) as usize;
    if x == 0 {
        if z == 0 {
            if y == 0 {
                Some(Operation::Nop)
            } else {
                None
            }
        } else if z == 1 {
            if q == 0 {
                Some(Operation::LdRrNn(spec_table_rp(p)))
            } else {
                Some(Operation::AddHlRr(spec_table_rp(p)))
            }
        } else if z == 3 {
            Some(Operation::IncDecRr(spec_table_rp(p), q == 0))
        } else if z == 4 {
            Some(Operation::IncR(spec_table_r(y)))
        } else if z == 5 {
            Some(Operation::DecR(spec_table_r(y)))
        } else if z == 6 {
            Some(Operation::LdRN(spec_table_r(y)))
        } else if z == 7 {
            if y < 4 {
                Some(
                    Operation::Rot(spec_rot_kind(y).0, spec_rot_kind(y).1, crate::registers::Reg8::A, true),
                )
            } else if y == 4 {
                Some(Operation::Daa)
            } else if y == 5 {
                Some(Operation::Cpl)
            } else if y == 6 {
                Some(Operation::Scf)
            } else {
                Some(Operation::Ccf)
            }
        } else {
            None
        }
    } else if x == 1 {
        if y == 6 && z == 6 {
            None
        } else {
            Some(Operation::LdRR(spec_table_r(y), spec_table_r(z)))
        }
    } else {
        None
    }
}

/// The operation a byte after the bit-instruction prefix decodes to: the
/// prefixed page is total, every byte names an instruction.
pub open spec fn spec_decode_cb(code: u8) -> Operation {
    let x = (code >> 6) as usize;
    let y = ((code >> 3) & 7) as usize;
    let z = (code & 7) as usize;
    if x == 0 {
        Operation::Rot(spec_rot_kind(y).0, spec_rot_kind(y).1, spec_table_r(z), false)
    } else if x == 1 {
        Operation::BitTest(y as u8, spec_table_r(z))
    } else if x == 2 {
        Operation::BitRes(y as u8, spec_table_r(z))
    } else {
        Operation::BitSet(y as u8, spec_table_r(z))
    }
}

/// Decode one unprefixed opcode byte to its table entry, or `None` where
/// this core has no decoding for it.
pub fn decode(code: u8) -> (r: Option<Opcode>)
    ensures
        (r is Some) == (spec_decode(code) is Some),
        (r is Some ==> r->0.wf() && Some(r->0.op) == spec_decode(code)),
        (r is Some ==> r->0.name@ == spec_op_name(r->0.op) && r->0.bytes == 1),
{
    let d = DecodingHelper::parts(code);
    if d.x == 0 {
        if d.z == 0 {
            if d.y == 0 {
                Some(build_nop())
            } else {
                None
            }
        } else if d.z == 1 {
            if d.q == 0 {
                Some(build_ld_rr_nn(table_rp(d.p)))
            } else {
                Some(build_add_hl_rr(table_rp(d.p)))
            }
        } else if d.z == 3 {
            Some(build_inc_dec_rr(table_rp(d.p), d.q == 0))
        } else if d.z == 4 {
            Some(build_inc_r(table_r(d.y)))
        } else if d.z == 5 {
            Some(build_dec_r(table_r(d.y)))
        } else if d.z == 6 {
            Some(build_ld_r_n(table_r(d.y)))
        } else if d.z == 7 {
            if d.y == 0 {
                Some(build_rot_r(crate::registers::Reg8::A, (ShiftDir::Left, ShiftMode::RotateCarry, "RLC"), true))
            } else if d.y == 1 {
                Some(build_rot_r(crate::registers::Reg8::A, (ShiftDir::Right, ShiftMode::RotateCarry, "RRC"), true))
            } else if d.y == 2 {
                Some(build_rot_r(crate::registers::Reg8::A, (ShiftDir::Left, ShiftMode::Rotate, "RL"), true))
            } else if d.y == 3 {
                Some(build_rot_r(crate::registers::Reg8::A, (ShiftDir::Right, ShiftMode::Rotate, "RR"), true))
            } else if d.y == 4 {
                Some(build_daa())
            } else if d.y == 5 {
                Some(build_cpl())
            } else if d.y == 6 {
                Some(build_scf())
            } else {
                Some(build_ccf())
            }
        } else {
            None
        }
    } else if d.x == 1 {
        if d.y == 6 && d.z == 6 {
            None
        } else {
            Some(build_ld_r_r(table_r(d.y), table_r(d.z)))
        }
    } else {
        None
    }
}

fn rot_builder_cb(y: usize, z: usize) -> (o: Opcode)
    requires
        y < 8,
        z < 8,
    ensures
        o.wf(),
        o.op == (Operation::Rot(spec_rot_kind(y).0, spec_rot_kind(y).1, spec_table_r(z), false)),
        o.name@ == spec_op_name(o.op),
        o.bytes == 1,
{
    let r = table_r(z);
    if y == 0 {
        build_rot_r(r, (ShiftDir::Left, ShiftMode::RotateCarry, "RLC"), false)
    } else if y == 1 {
        build_rot_r(r, (ShiftDir::Right, ShiftMode::RotateCarry, "RRC"), false)
    } else if y == 2 {
        build_rot_r(r, (ShiftDir::Left, ShiftMode::Rotate, "RL"), false)
    } else if y == 3 {
        build_rot_r(r, (ShiftDir::Right, ShiftMode::Rotate, "RR"), false)
    } else if y == 4 {
        build_rot_r(r, (ShiftDir::Left, ShiftMode::Arithmetic, "SLA"), false)
    } else if y == 5 {
        build_rot_r(r, (ShiftDir::Right, ShiftMode::Arithmetic, "SRA"), false)
    } else if y == 6 {
        build_rot_r(r, (ShiftDir::Left, ShiftMode::Logical, "SLL"), false)
    } else {
        build_rot_r(r, (ShiftDir::Right, ShiftMode::Logical, "SRL"), false)
    }
}

/// Decode the byte after the bit-instruction prefix; that page is total.
pub fn decode_cb(code: u8) -> (r: Opcode)
    ensures
        r.wf(),
        r.op == spec_decode_cb(code),
        r.name@ == spec_op_name(r.op),
        r.bytes == 1,
{
    let d = DecodingHelper::parts(code);
    if d.x == 0 {
        rot_builder_cb(d.y, d.z)
    } else if d.x == 1 {
        build_bit_r(d.y as u8, table_r(d.z))
    } else if d.x == 2 {
        build_res_r(d.y as u8, table_r(d.z))
    } else {
        build_set_r(d.y as u8, table_r(d.z))
    }
}

/// The byte value of the bit-instruction prefix.
pub const CB_PREFIX: u8 = 0xCB;

/// The full effect of one fetch-decode-execute step on the context, or
/// `None` where the fetched byte has no decoding: then the context has only
/// consumed the opcode byte.
pub open spec fn spec_step(s: StateV) -> Option<StateV> {
    let code = spec_fetched(s);
    let s1 = spec_advance_pc(s);
    if code == CB_PREFIX {
        let code2 = spec_fetched(s1);
        let s2 = spec_advance_pc(s1);
        Some(spec_execute(spec_decode_cb(code2), s2))
    } else {
        match spec_decode(code) {
            Some(op) => Some(spec_execute(op, s1)),
            None => None,
        }
    }
}

/// One step of the CPU: fetch the byte at PC, decode it (following the
/// bit-instruction prefix through its second byte), execute the
/// instruction and charge its cycles. Returns false, with only the opcode
/// fetch consumed, where the byte has no decoding: executing a wrong
/// instruction would corrupt all later state invisibly, so the host must
/// see the fault.
pub fn step(state: &mut State) -> (ok: bool)
    requires
        old(state).wf(),
    ensures
        final(state).wf(),
        ok == (spec_step(old(state)@) is Some),
        (ok ==> Some(final(state)@) == spec_step(old(state)@)),
        (!ok ==> final(state)@ == spec_advance_pc(old(state)@)),
{
    let code = state.advance_pc();
    if code == CB_PREFIX {
        let code2 = state.advance_pc();
        let opcode = decode_cb(code2);
        opcode.execute(state);
        true
    } else {
        match decode(code) {
            Some(opcode) => {
                opcode.execute(state);
                true
            },
            None => false,
        }
    }
}

} // verus!
