//! The execution context: the register file coupled with addressable memory
//! and the running cycle counter. It is the single mutable point of truth
//! while an instruction executes.

use vstd::prelude::*;

use crate::registers::{Reg16, Reg8, Registers, spec_get16, spec_get8, spec_set16, spec_set8};

verus! {

/// Number of addressable memory cells: the full 16-bit address space.
pub const MEM_SIZE: usize = 65536;

/// Mathematical view of an execution context: the register file, the memory
/// contents and the cycle counter.
#[verifier::ext_equal]
pub ghost struct StateV {
    pub reg: Registers,
    pub mem: Seq<u8>,
    pub cycles: u64,
}

/// The execution context. Memory covers the whole 16-bit address space, so
/// every address is in range and address arithmetic wraps instead of
/// faulting, as on the real chip.
pub struct State {
    pub reg: Registers,
    pub mem: Vec<u8>,
    pub cycles: u64,
}

impl View for State {
    type V = StateV;

    open spec fn view(&self) -> StateV {
        StateV { reg: self.reg, mem: self.mem@, cycles: self.cycles }
    }
}

/// The program counter advanced by one, wrapping at the end of the address
/// space.
pub open spec fn spec_pc_next(pc: u16) -> u16 {
    if pc == 0xFFFF {
        0
    } else {
        (pc + 1) as u16
    }
}

/// View of the context after one byte is fetched at PC: PC moves forward by
/// one; nothing else changes.
pub open spec fn spec_advance_pc(s: StateV) -> StateV {
    StateV { reg: Registers { pc: spec_pc_next(s.reg.pc), ..s.reg }, ..s }
}

/// The byte an `advance_pc` fetch returns: the memory cell PC points at.
pub open spec fn spec_fetched(s: StateV) -> u8 {
    s.mem[s.reg.pc as int]
}

/// View of the context after an 8-bit operand slot is written: a plain
/// register writes the register file, the `(HL)` pseudo-register writes the
/// memory cell addressed by HL.
pub open spec fn spec_set_reg(s: StateV, reg: Reg8, v: u8) -> StateV {
    if reg == Reg8::MemHL {
        StateV { mem: s.mem.update(spec_get16(s.reg, Reg16::HL) as int, v), ..s }
    } else {
        StateV { reg: spec_set8(s.reg, reg, v), ..s }
    }
}

/// The value of an 8-bit operand slot: a plain register, or the memory cell
/// addressed by HL for the `(HL)` pseudo-register.
pub open spec fn spec_get_reg(s: StateV, reg: Reg8) -> u8 {
    if reg == Reg8::MemHL {
        s.mem[spec_get16(s.reg, Reg16::HL) as int]
    } else {
        spec_get8(s.reg, reg)
    }
}

impl State {
    /// The context is well formed when memory covers the address space.
    pub open spec fn wf(&self) -> bool {
        self.mem@.len() == MEM_SIZE
    }

    /// A fresh context: cleared registers, zeroed memory, cycle counter at 0.
    pub fn new() -> (s: State)
        ensures
            s.wf(),
            s@.reg == crate::registers::spec_initial_registers(),
            s@.mem =~= Seq::new(MEM_SIZE as nat, |i: int| 0u8),
            s@.cycles == 0,
    {
        let mut mem: Vec<u8> = Vec::new();
        mem.resize(MEM_SIZE, 0u8);
        State { reg: Registers::new(), mem, cycles: 0 }
    }

    /// Read the memory cell at an address.
    pub fn peek(&self, address: u16) -> (v: u8)
        requires
            self.wf(),
        ensures
            v == self@.mem[address as int],
    {
        self.mem[address as usize]
    }

    /// Write the memory cell at an address.
    pub fn poke(&mut self, address: u16, value: u8)
        requires
            old(self).wf(),
        ensures
            final(self).wf(),
            final(self)@ == (StateV { mem: old(self)@.mem.update(address as int, value), ..old(self)@ }),
    {
        self.mem.set(address as usize, value);
    }

    /// Fetch the byte at PC and advance PC by one, wrapping at the end of
    /// the address space. Every immediate operand is read this way.
    pub fn advance_pc(&mut self) -> (v: u8)
        requires
            old(self).wf(),
        ensures
            final(self).wf(),
            v == spec_fetched(old(self)@),
            final(self)@ == spec_advance_pc(old(self)@),
    {
        let pc = self.reg.pc;
        let v = self.mem[pc as usize];
        self.reg.pc = if pc == 0xFFFF {
            0
        } else {
            pc + 1
        };
        assert(self@ =~= spec_advance_pc(old(self)@));
        v
    }

    /// Fetch a 16-bit immediate, low byte first, advancing PC by two.
    pub fn advance_immediate16(&mut self) -> (v: u16)
        requires
            old(self).wf(),
        ensures
            final(self).wf(),
            v == (spec_fetched(spec_advance_pc(old(self)@)) * 256 + spec_fetched(
                old(self)@,
            )) as u16,
            final(self)@ == spec_advance_pc(spec_advance_pc(old(self)@)),
    {
        let lo = self.advance_pc();
        let hi = self.advance_pc();
        hi as u16 * 256 + lo as u16
    }

    /// Read an 8-bit operand slot, resolving the `(HL)` pseudo-register
    /// through memory.
    pub fn get_reg(&self, reg: Reg8) -> (v: u8)
        requires
            self.wf(),
        ensures
            v == spec_get_reg(self@, reg),
    {
        if let Reg8::MemHL = reg {
            self.peek(self.reg.get16(Reg16::HL))
        } else {
            self.reg.get8(reg)
        }
    }

    /// Write an 8-bit operand slot, resolving the `(HL)` pseudo-register
    /// through memory.
    pub fn set_reg(&mut self, reg: Reg8, value: u8)
        requires
            old(self).wf(),
        ensures
            final(self).wf(),
            final(self)@ == spec_set_reg(old(self)@, reg, value),
    {
        if let Reg8::MemHL = reg {
            let address = self.reg.get16(Reg16::HL);
            self.poke(address, value);
        } else {
            self.reg.set8(reg, value);
            assert(self@ =~= spec_set_reg(old(self)@, reg, value));
        }
    }

    /// Read a 16-bit register.
    pub fn get_reg16(&self, reg: Reg16) -> (v: u16)
        ensures
            v == spec_get16(self@.reg, reg),
    {
        self.reg.get16(reg)
    }

    /// Write a 16-bit register.
    pub fn set_reg16(&mut self, reg: Reg16, value: u16)
        ensures
            final(self)@ == (StateV { reg: spec_set16(old(self)@.reg, reg, value), ..old(self)@ }),
            final(self).wf() == old(self).wf(),
    {
        self.reg.set16(reg, value);
        assert(self@ =~= (StateV { reg: spec_set16(old(self)@.reg, reg, value), ..old(self)@ }));
    }

    /// The 16-bit base value instructions operate on where HL (or, with an
    /// index prefix, IX or IY) is implied; this core runs without index
    /// prefixes, so the base is HL.
    pub fn get_index_value(&self) -> (v: u16)
        ensures
            v == spec_get16(self@.reg, Reg16::HL),
    {
        self.reg.get16(Reg16::HL)
    }
}

} // verus!
