//! The Z80 register file: 8-bit registers, 16-bit register pairs composed of
//! their 8-bit halves, and the processor flags with named accessors.

use vstd::prelude::*;

verus! {

/// Selector for an 8-bit operand slot. `MemHL` is the `(HL)` memory-indirect
/// pseudo-register: it names the byte addressed by HL and must never be read
/// or written as a plain register, so `Registers::get8`/`set8` refuse it and
/// every consumer goes through the execution context instead.
#[derive(Clone, Copy, PartialEq, Eq, Structural, Debug)]
pub enum Reg8 {
    B,
    C,
    D,
    E,
    H,
    L,
    MemHL,
    A,
}

/// Selector for a 16-bit register: the composed pairs BC/DE/HL, the stack
/// pointer, the program counter and the two index registers.
#[derive(Clone, Copy, PartialEq, Eq, Structural, Debug)]
pub enum Reg16 {
    BC,
    DE,
    HL,
    SP,
    PC,
    IX,
    IY,
}

/// One bit of processor status. S, Z, H, P and C carry meaning; F5 and F3
/// only echo bits 5 and 3 of a result; N records whether the last arithmetic
/// operation was a subtraction, which the decimal-adjust instruction reads.
#[derive(Clone, Copy, PartialEq, Eq, Structural, Debug)]
pub enum Flag {
    C,
    N,
    P,
    F3,
    H,
    F5,
    Z,
    S,
}

/// The flag register, one named field per bit.
#[derive(Clone, Copy, PartialEq, Eq, Structural, Debug)]
pub struct Flags {
    pub c: bool,
    pub n: bool,
    pub p: bool,
    pub f3: bool,
    pub h: bool,
    pub f5: bool,
    pub z: bool,
    pub s: bool,
}

/// The register file. BC, DE and HL are exactly the concatenation of their
/// 8-bit halves: the halves are the storage and the 16-bit views are
/// composed on demand, so aliasing holds by construction.
#[derive(Clone, Copy, PartialEq, Eq, Structural, Debug)]
pub struct Registers {
    pub a: u8,
    pub b: u8,
    pub c: u8,
    pub d: u8,
    pub e: u8,
    pub h: u8,
    pub l: u8,
    pub sp: u16,
    pub pc: u16,
    pub ix: u16,
    pub iy: u16,
    pub flags: Flags,
}

/// The value of one flag.
pub open spec fn spec_get_flag(f: Flags, flag: Flag) -> bool {
    match flag {
        Flag::C => f.c,
        Flag::N => f.n,
        Flag::P => f.p,
        Flag::F3 => f.f3,
        Flag::H => f.h,
        Flag::F5 => f.f5,
        Flag::Z => f.z,
        Flag::S => f.s,
    }
}

/// The flag register after one flag is set to `value`.
pub open spec fn spec_put_flag(f: Flags, flag: Flag, value: bool) -> Flags {
    match flag {
        Flag::C => Flags { c: value, ..f },
        Flag::N => Flags { n: value, ..f },
        Flag::P => Flags { p: value, ..f },
        Flag::F3 => Flags { f3: value, ..f },
        Flag::H => Flags { h: value, ..f },
        Flag::F5 => Flags { f5: value, ..f },
        Flag::Z => Flags { z: value, ..f },
        Flag::S => Flags { s: value, ..f },
    }
}

/// The value of an 8-bit register. Not defined for the `(HL)` pseudo-register.
pub open spec fn spec_get8(r: Registers, reg: Reg8) -> u8
    recommends
        reg != Reg8::MemHL,
{
    match reg {
        Reg8::B => r.b,
        Reg8::C => r.c,
        Reg8::D => r.d,
        Reg8::E => r.e,
        Reg8::H => r.h,
        Reg8::L => r.l,
        Reg8::MemHL => 0,
        Reg8::A => r.a,
    }
}

/// The register file after an 8-bit register is written.
pub open spec fn spec_set8(r: Registers, reg: Reg8, v: u8) -> Registers
    recommends
        reg != Reg8::MemHL,
{
    match reg {
        Reg8::B => Registers { b: v, ..r },
        Reg8::C => Registers { c: v, ..r },
        Reg8::D => Registers { d: v, ..r },
        Reg8::E => Registers { e: v, ..r },
        Reg8::H => Registers { h: v, ..r },
        Reg8::L => Registers { l: v, ..r },
        Reg8::MemHL => r,
        Reg8::A => Registers { a: v, ..r },
    }
}

/// The value of a 16-bit register: a composed pair is high half times 256
/// plus low half.
pub open spec fn spec_get16(r: Registers, reg: Reg16) -> u16 {
    match reg {
        Reg16::BC => (r.b * 256 + r.c) as u16,
        Reg16::DE => (r.d * 256 + r.e) as u16,
        Reg16::HL => (r.h * 256 + r.l) as u16,
        Reg16::SP => r.sp,
        Reg16::PC => r.pc,
        Reg16::IX => r.ix,
        Reg16::IY => r.iy,
    }
}

/// The register file after a 16-bit register is written: a composed pair
/// stores the high byte in its high half and the low byte in its low half.
pub open spec fn spec_set16(r: Registers, reg: Reg16, v: u16) -> Registers {
    match reg {
        Reg16::BC => Registers { b: (v / 256) as u8, c: (v % 256) as u8, ..r },
        Reg16::DE => Registers { d: (v / 256) as u8, e: (v % 256) as u8, ..r },
        Reg16::HL => Registers { h: (v / 256) as u8, l: (v % 256) as u8, ..r },
        Reg16::SP => Registers { sp: v, ..r },
        Reg16::PC => Registers { pc: v, ..r },
        Reg16::IX => Registers { ix: v, ..r },
        Reg16::IY => Registers { iy: v, ..r },
    }
}

/// S/Z/F5/F3 refreshed from a result byte: Sign is bit 7, Zero is result==0,
/// F5 and F3 mirror bits 5 and 3 of the result.
pub open spec fn spec_sz53(f: Flags, v: u8) -> Flags {
    Flags {
        s: v >= 0x80,
        z: v == 0,
        f5: (v / 32) % 2 == 1,
        f3: (v / 8) % 2 == 1,
        ..f
    }
}

/// Even population parity of a byte: true when the number of set bits is even.
pub open spec fn spec_parity_even(v: u8) -> bool {
    (v % 2 + (v / 2) % 2 + (v / 4) % 2 + (v / 8) % 2 + (v / 16) % 2 + (v / 32) % 2 + (v / 64) % 2
        + (v / 128) % 2) % 2 == 0
}

/// A register file with every register and flag cleared.
pub open spec fn spec_initial_registers() -> Registers {
    Registers {
        a: 0u8,
        b: 0u8,
        c: 0u8,
        d: 0u8,
        e: 0u8,
        h: 0u8,
        l: 0u8,
        sp: 0u16,
        pc: 0u16,
        ix: 0u16,
        iy: 0u16,
        flags: Flags {
            c: false,
            n: false,
            p: false,
            f3: false,
            h: false,
            f5: false,
            z: false,
            s: false,
        },
    }
}

/// A 16-bit pair and its 8-bit halves are the same storage: writing the
/// pair is observable through the halves, and writing the high half is
/// observable through the pair with the low half untouched. Stated for HL;
/// BC and DE behave the same way by the same definitions.
pub proof fn lemma_pair_aliasing(r: Registers, v: u16, hi: u8)
    ensures
        spec_get8(spec_set16(r, Reg16::HL, v), Reg8::H) == v / 256,
        spec_get8(spec_set16(r, Reg16::HL, v), Reg8::L) == v % 256,
        spec_get16(spec_set8(r, Reg8::H, hi), Reg16::HL) == hi * 256 + r.l,
        spec_get16(spec_set8(r, Reg8::L, hi), Reg16::HL) == r.h * 256 + hi,
{
}

impl Registers {
    /// A register file with every register and flag cleared.
    pub fn new() -> (r: Registers)
        ensures
            r == spec_initial_registers(),
    {
        Registers {
            a: 0,
            b: 0,
            c: 0,
            d: 0,
            e: 0,
            h: 0,
            l: 0,
            sp: 0,
            pc: 0,
            ix: 0,
            iy: 0,
            flags: Flags {
                c: false,
                n: false,
                p: false,
                f3: false,
                h: false,
                f5: false,
                z: false,
                s: false,
            },
        }
    }

    /// Read an 8-bit register. The `(HL)` pseudo-register has no storage
    /// here; the execution context resolves it through memory.
    pub fn get8(&self, reg: Reg8) -> (v: u8)
        requires
            reg != Reg8::MemHL,
        ensures
            v == spec_get8(*self, reg),
    {
        match reg {
            Reg8::B => self.b,
            Reg8::C => self.c,
            Reg8::D => self.d,
            Reg8::E => self.e,
            Reg8::H => self.h,
            Reg8::L => self.l,
            Reg8::MemHL => 0,
            Reg8::A => self.a,
        }
    }

    /// Write an 8-bit register.
    pub fn set8(&mut self, reg: Reg8, v: u8)
        requires
            reg != Reg8::MemHL,
        ensures
            *final(self) == spec_set8(*old(self), reg, v),
    {
        match reg {
            Reg8::B => self.b = v,
            Reg8::C => self.c = v,
            Reg8::D => self.d = v,
            Reg8::E => self.e = v,
            Reg8::H => self.h = v,
            Reg8::L => self.l = v,
            Reg8::MemHL => (),
            Reg8::A => self.a = v,
        }
    }

    /// Read a 16-bit register; a composed pair is read from its two halves.
    pub fn get16(&self, reg: Reg16) -> (v: u16)
        ensures
            v == spec_get16(*self, reg),
    {
        match reg {
            Reg16::BC => self.b as u16 * 256 + self.c as u16,
            Reg16::DE => self.d as u16 * 256 + self.e as u16,
            Reg16::HL => self.h as u16 * 256 + self.l as u16,
            Reg16::SP => self.sp,
            Reg16::PC => self.pc,
            Reg16::IX => self.ix,
            Reg16::IY => self.iy,
        }
    }

    /// Write a 16-bit register; a composed pair is split into its two halves,
    /// so the write is observable through `get8` on H and L (and conversely).
    pub fn set16(&mut self, reg: Reg16, v: u16)
        ensures
            *final(self) == spec_set16(*old(self), reg, v),
    {
        match reg {
            Reg16::BC => {
                self.b = (v / 256) as u8;
                self.c = (v % 256) as u8;
            },
            Reg16::DE => {
                self.d = (v / 256) as u8;
                self.e = (v % 256) as u8;
            },
            Reg16::HL => {
                self.h = (v / 256) as u8;
                self.l = (v % 256) as u8;
            },
            Reg16::SP => self.sp = v,
            Reg16::PC => self.pc = v,
            Reg16::IX => self.ix = v,
            Reg16::IY => self.iy = v,
        }
    }

    /// Shorthand for the accumulator.
    pub fn get_a(&self) -> (v: u8)
        ensures
            v == self.a,
    {
        self.a
    }

    /// Shorthand for writing the accumulator.
    pub fn set_a(&mut self, v: u8)
        ensures
            *final(self) == (Registers { a: v, ..*old(self) }),
    {
        self.a = v;
    }

    /// Read one flag.
    pub fn get_flag(&self, flag: Flag) -> (v: bool)
        ensures
            v == spec_get_flag(self.flags, flag),
    {
        match flag {
            Flag::C => self.flags.c,
            Flag::N => self.flags.n,
            Flag::P => self.flags.p,
            Flag::F3 => self.flags.f3,
            Flag::H => self.flags.h,
            Flag::F5 => self.flags.f5,
            Flag::Z => self.flags.z,
            Flag::S => self.flags.s,
        }
    }

    /// Set or clear one flag from a boolean, so flag-computing code is
    /// branch-free at the call site.
    pub fn put_flag(&mut self, flag: Flag, value: bool)
        ensures
            *final(self) == (Registers {
                flags: spec_put_flag(old(self).flags, flag, value),
                ..*old(self)
            }),
    {
        match flag {
            Flag::C => self.flags.c = value,
            Flag::N => self.flags.n = value,
            Flag::P => self.flags.p = value,
            Flag::F3 => self.flags.f3 = value,
            Flag::H => self.flags.h = value,
            Flag::F5 => self.flags.f5 = value,
            Flag::Z => self.flags.z = value,
            Flag::S => self.flags.s = value,
        }
    }

    /// Set one flag.
    pub fn set_flag(&mut self, flag: Flag)
        ensures
            *final(self) == (Registers {
                flags: spec_put_flag(old(self).flags, flag, true),
                ..*old(self)
            }),
    {
        self.put_flag(flag, true);
    }

    /// Clear one flag.
    pub fn clear_flag(&mut self, flag: Flag)
        ensures
            *final(self) == (Registers {
                flags: spec_put_flag(old(self).flags, flag, false),
                ..*old(self)
            }),
    {
        self.put_flag(flag, false);
    }

    /// Refresh S, Z, F5 and F3 from a result byte.
    pub fn update_sz53_flags(&mut self, v: u8)
        ensures
            *final(self) == (Registers { flags: spec_sz53(old(self).flags, v), ..*old(self) }),
    {
        self.flags.s = v >= 0x80;
        self.flags.z = v == 0;
        self.flags.f5 = (v / 32) % 2 == 1;
        self.flags.f3 = (v / 8) % 2 == 1;
    }

    /// Set Parity from the population parity of a byte: an even number of
    /// set bits sets the flag.
    pub fn update_p_flag(&mut self, v: u8)
        ensures
            *final(self) == (Registers {
                flags: Flags { p: spec_parity_even(v), ..old(self).flags },
                ..*old(self)
            }),
    {
        let ones: u8 = v % 2 + (v / 2) % 2 + (v / 4) % 2 + (v / 8) % 2 + (v / 16) % 2 + (v / 32)
            % 2 + (v / 64) % 2 + (v / 128) % 2;
        self.flags.p = ones % 2 == 0;
    }

    /// Refresh S, Z, F5, F3 and Parity together from a result byte.
    pub fn update_sz53p_flags(&mut self, v: u8)
        ensures
            *final(self) == (Registers {
                flags: Flags { p: spec_parity_even(v), ..spec_sz53(old(self).flags, v) },
                ..*old(self)
            }),
    {
        self.update_sz53_flags(v);
        self.update_p_flag(v);
    }
}

} // verus!
