//! Retiring one instruction: fetch, decode, execute, interrupt check.
use vstd::prelude::*;
use crate::address::spec_fetch;
use crate::cpu::{spec_illegal_instruction, Cpu};
use crate::generic::spec_decode_generic;
use crate::interrupt::spec_check_interrupts;
use crate::literal::{spec_clb, spec_din, spec_dot, spec_dxs, spec_ixs, spec_llb};
use crate::memory::{machine, Machine, Memory};
use crate::memref::spec_decode_mem_reference;
use crate::register::spec_decode_register;
use crate::shift::{spec_decode_shift_arith, spec_decode_shift_logical};
use crate::skip::spec_decode_skip;

verus! {

/// The instruction in hand is executed. A non-zero high digit of the
/// instruction register makes it a memory reference; otherwise the
/// instruction register names the group, and anything above 0x0A is
/// illegal.
pub open spec fn spec_dispatch(c: Cpu, mem: Seq<i16>) -> Machine {
    if c.inr & 0xf0 != 0 {
        spec_decode_mem_reference(c, mem)
    } else {
        Machine {
            cpu: if c.inr == 0x00 {
                spec_decode_generic(c, mem)
            } else if c.inr == 0x01 {
                spec_decode_register(c)
            } else if c.inr == 0x02 {
                spec_din(c)
            } else if c.inr == 0x03 {
                spec_dot(c)
            } else if c.inr == 0x04 {
                spec_ixs(c)
            } else if c.inr == 0x05 {
                spec_dxs(c)
            } else if c.inr == 0x06 {
                spec_llb(c)
            } else if c.inr == 0x07 {
                spec_clb(c)
            } else if c.inr == 0x08 {
                spec_decode_skip(c)
            } else if c.inr == 0x09 {
                spec_decode_shift_arith(c)
            } else if c.inr == 0x0A {
                spec_decode_shift_logical(c)
            } else {
                spec_illegal_instruction(c)
            },
            mem,
        }
    }
}

/// One instruction retires: it is fetched and executed, and then the
/// interrupt controller has its turn.
#[verifier::opaque]
pub open spec fn spec_decode(s: Machine) -> Machine {
    let done = spec_dispatch(spec_fetch(s.cpu, s.mem), s.mem);
    spec_check_interrupts(done.cpu, done.mem)
}

impl Cpu {
    /// Retires one instruction: fetch, decode, execute, interrupt check.
    pub fn decode(&mut self, memory: &mut Memory)
        ensures
            machine(*final(self), *final(memory)) == spec_decode(
                machine(*old(self), *old(memory)),
            ),
    {
        proof {
            reveal(spec_decode);
        }
        self.fetch(memory);
        if (self.inr & 0xf0) != 0 {
            self.decode_mem_reference(memory);
        } else {
            match self.inr {
                0x00 => self.decode_generic(memory),
                0x01 => self.decode_register(),
                0x02 => self.decode_din(),
                0x03 => self.decode_dot(),
                0x04 => self.decode_ixs(),
                0x05 => self.decode_dxs(),
                0x06 => self.decode_llb(),
                0x07 => self.decode_clb(),
                0x08 => self.decode_skip(),
                0x09 => self.decode_shift_arith(),
                0x0A => self.decode_shift_logical(),
                _ => self.illegal_instruction(),
            }
        }
        self.check_interrupts(memory);
    }
}

} // verus!
