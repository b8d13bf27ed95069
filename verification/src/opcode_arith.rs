//! Builders for the arithmetic instructions: the 16-bit add family on HL,
//! 8- and 16-bit increment/decrement, NEG and decimal adjust.

use vstd::prelude::*;

use crate::opcode::{cat2, Opcode, Operation, reg8_name, reg16_name, spec_reg16_name, spec_reg8_name};
use crate::registers::{Reg16, Reg8};

verus! {

/// ADD HL, rr: 16-bit add into HL; only C, H and N are touched.
pub fn build_add_hl_rr(rr: Reg16) -> (o: Opcode)
    ensures
        o.wf(),
        o.op == Operation::AddHlRr(rr),
        o.bytes == 1,
        o.cycles == 11,
        o.name@ == "ADD HL, "@ + spec_reg16_name(rr),
{
    Opcode {
        name: cat2("ADD HL, ", reg16_name(rr)),
        bytes: 1,
        cycles: 11,
        op: Operation::AddHlRr(rr),
    }
}

/// ADC HL, rr: 16-bit add with carry into HL; sets S, Z and Overflow too.
pub fn build_adc_hl_rr(rr: Reg16) -> (o: Opcode)
    ensures
        o.wf(),
        o.op == Operation::AdcHlRr(rr),
        o.bytes == 1,
        o.cycles == 15,
        o.name@ == "ADC HL, "@ + spec_reg16_name(rr),
{
    Opcode {
        name: cat2("ADC HL, ", reg16_name(rr)),
        bytes: 1,
        cycles: 15,
        op: Operation::AdcHlRr(rr),
    }
}

/// SBC HL, rr: 16-bit subtract with borrow from HL; sets S, Z and Overflow.
pub fn build_sbc_hl_rr(rr: Reg16) -> (o: Opcode)
    ensures
        o.wf(),
        o.op == Operation::SbcHlRr(rr),
        o.bytes == 1,
        o.cycles == 15,
        o.name@ == "SBC HL, "@ + spec_reg16_name(rr),
{
    Opcode {
        name: cat2("SBC HL, ", reg16_name(rr)),
        bytes: 1,
        cycles: 15,
        op: Operation::SbcHlRr(rr),
    }
}

/// INC r: 8-bit increment of an operand slot; every flag but Carry.
pub fn build_inc_r(r: Reg8) -> (o: Opcode)
    ensures
        o.wf(),
        o.op == Operation::IncR(r),
        o.bytes == 1,
        o.cycles == 4,
        o.name@ == "INC "@ + spec_reg8_name(r),
{
    Opcode { name: cat2("INC ", reg8_name(r)), bytes: 1, cycles: 4, op: Operation::IncR(r) }
}

/// DEC r: 8-bit decrement of an operand slot; every flag but Carry.
pub fn build_dec_r(r: Reg8) -> (o: Opcode)
    ensures
        o.wf(),
        o.op == Operation::DecR(r),
        o.bytes == 1,
        o.cycles == 4,
        o.name@ == "DEC "@ + spec_reg8_name(r),
{
    Opcode { name: cat2("DEC ", reg8_name(r)), bytes: 1, cycles: 4, op: Operation::DecR(r) }
}

/// INC rr / DEC rr: 16-bit increment or decrement; by the chip's design the
/// 16-bit forms never touch any flag.
pub fn build_inc_dec_rr(rr: Reg16, inc: bool) -> (o: Opcode)
    ensures
        o.wf(),
        o.op == Operation::IncDecRr(rr, inc),
        o.bytes == 1,
        o.cycles == 6,
        o.name@ == (if inc {
            "INC "@
        } else {
            "DEC "@
        }) + spec_reg16_name(rr),
{
    let mnemonic: &str = if inc {
        "INC "
    } else {
        "DEC "
    };
    Opcode {
        name: cat2(mnemonic, reg16_name(rr)),
        bytes: 1,
        cycles: 6,
        op: Operation::IncDecRr(rr, inc),
    }
}

/// NEG: negate the accumulator as a subtraction of A from 0, with the full
/// subtract flag set.
pub fn build_neg() -> (o: Opcode)
    ensures
        o.wf(),
        o.op == Operation::Neg,
        o.bytes == 1,
        o.cycles == 8,
        o.name@ == "NEG"@,
{
    Opcode { name: "NEG".to_owned(), bytes: 1, cycles: 8, op: Operation::Neg }
}

/// DAA: decimal-adjust the accumulator under the prior N, H and C flags.
pub fn build_daa() -> (o: Opcode)
    ensures
        o.wf(),
        o.op == Operation::Daa,
        o.bytes == 1,
        o.cycles == 4,
        o.name@ == "DAA"@,
{
    Opcode { name: "DAA".to_owned(), bytes: 1, cycles: 4, op: Operation::Daa }
}

} // verus!
