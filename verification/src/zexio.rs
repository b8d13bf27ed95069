//! The conformance-harness BDOS call surface. The computation — which
//! bytes a "write string" call emits for a given context — lives here,
//! verified; the host performs the actual console output.

use vstd::prelude::*;

use crate::registers::{Reg16, Reg8, spec_get16};
use crate::state::{MEM_SIZE, spec_pc_next, State};

verus! {

/// The byte that terminates a BDOS string.
pub const STRING_TERMINATOR: u8 = 0x24;

/// The BDOS function number of "write string".
pub const BDOS_WRITESTR: u8 = 9;

/// The bytes a "write string" call emits: the memory bytes from `addr` on,
/// wrapping around the top of the address space, up to but excluding the
/// first `$` terminator; at most one pass over the address space.
pub open spec fn spec_writestr_bytes(mem: Seq<u8>, addr: u16, fuel: nat) -> Seq<u8>
    decreases fuel,
{
    if fuel == 0 {
        Seq::empty()
    } else if mem[addr as int] == STRING_TERMINATOR {
        Seq::empty()
    } else {
        seq![mem[addr as int]] + spec_writestr_bytes(mem, spec_pc_next(addr), (fuel - 1) as nat)
    }
}

/// The I/O-port collaborator used by the conformance harness: it answers
/// port reads by interpreting them as BDOS calls.
pub struct ZexIo {}

impl ZexIo {
    /// The bytes of the string a BDOS "write string" call prints: DE points
    /// at the buffer, and output stops at the `$` terminator (or after one
    /// full pass over memory, since addresses wrap).
    pub fn bdos_c_writestr(state: &State) -> (out: Vec<u8>)
        requires
            state.wf(),
        ensures
            out@ == spec_writestr_bytes(
                state@.mem,
                spec_get16(state@.reg, Reg16::DE),
                MEM_SIZE as nat,
            ),
    {
        let ghost start = spec_get16(state@.reg, Reg16::DE);
        let mut address = state.reg.get16(Reg16::DE);
        let mut out: Vec<u8> = Vec::new();
        let mut fuel: usize = MEM_SIZE;
        let mut stop = false;
        while fuel > 0 && !stop
            invariant
                state.wf(),
                fuel <= MEM_SIZE,
                (!stop ==> spec_writestr_bytes(state@.mem, start, MEM_SIZE as nat) == out@
                    + spec_writestr_bytes(state@.mem, address, fuel as nat)),
                (stop ==> spec_writestr_bytes(state@.mem, start, MEM_SIZE as nat) == out@),
            decreases fuel,
        {
            let ch = state.peek(address);
            if ch == STRING_TERMINATOR {
                stop = true;
            } else {
                out.push(ch);
                address = if address == 0xFFFF {
                    0
                } else {
                    address + 1
                };
            }
            fuel = fuel - 1;
        }
        out
    }

    /// Interpret one BDOS call against the context: function 9 in register
    /// C is "write string" and yields the bytes to print; any other
    /// function is unimplemented and yields nothing, which the harness
    /// treats as fatal.
    pub fn bdos(state: &State) -> (r: Option<Vec<u8>>)
        requires
            state.wf(),
        ensures
            (r is Some) == (state@.reg.c == BDOS_WRITESTR),
            (r is Some ==> r->0@ == spec_writestr_bytes(
                state@.mem,
                spec_get16(state@.reg, Reg16::DE),
                MEM_SIZE as nat,
            )),
    {
        let f = state.reg.get8(Reg8::C);
        if f == BDOS_WRITESTR {
            Some(ZexIo::bdos_c_writestr(state))
        } else {
            None
        }
    }
}

} // verus!
