//! The register group, instruction register 0x01.
use vstd::prelude::*;
use crate::cpu::{spec_illegal_instruction, Cpu};
use crate::word::wrap16;

verus! {

/// CLR: the accumulator is cleared.
pub open spec fn spec_clr(c: Cpu) -> Cpu {
    Cpu { acr: 0, ..c }
}

/// CMP: the accumulator is negated; the most negative word is its own
/// negative.
pub open spec fn spec_cmp(c: Cpu) -> Cpu {
    Cpu { acr: wrap16(-c.acr), ..c }
}

/// INV: every bit of the accumulator is inverted.
pub open spec fn spec_inv(c: Cpu) -> Cpu {
    Cpu { acr: !c.acr, ..c }
}

/// CAX: the accumulator is copied to the index register.
pub open spec fn spec_cax(c: Cpu) -> Cpu {
    Cpu { ixr: c.acr, ..c }
}

/// CXA: the index register is copied to the accumulator.
pub open spec fn spec_cxa(c: Cpu) -> Cpu {
    Cpu { acr: c.ixr, ..c }
}

/// The register group: the second digit from the right selects.
pub open spec fn spec_decode_register(c: Cpu) -> Cpu {
    let digit2 = c.mbr & 0x00f0;
    if digit2 == 0x0010 {
        spec_clr(c)
    } else if digit2 == 0x0020 {
        spec_cmp(c)
    } else if digit2 == 0x0030 {
        spec_inv(c)
    } else if digit2 == 0x0040 {
        spec_cax(c)
    } else if digit2 == 0x0050 {
        spec_cxa(c)
    } else {
        spec_illegal_instruction(c)
    }
}

impl Cpu {
    /// Executes the instruction of the register group that MBR holds.
    pub fn decode_register(&mut self)
        ensures
            *final(self) == spec_decode_register(*old(self)),
    {
        let digit2 = self.mbr & 0x00f0;
        match digit2 {
            0x0010 => self.clr(),
            0x0020 => self.cmp(),
            0x0030 => self.inv(),
            0x0040 => self.cax(),
            0x0050 => self.cxa(),
            _ => self.illegal_instruction(),
        }
    }

    /// Clear accumulator.
    pub fn clr(&mut self)
        ensures
            *final(self) == spec_clr(*old(self)),
    {
        self.acr = 0;
    }

    /// Complement accumulator.
    pub fn cmp(&mut self)
        ensures
            *final(self) == spec_cmp(*old(self)),
    {
        self.acr = 0i16.wrapping_sub(self.acr);
    }

    /// Invert accumulator.
    pub fn inv(&mut self)
        ensures
            *final(self) == spec_inv(*old(self)),
    {
        self.acr = !self.acr;
    }

    /// Copy accumulator to index.
    pub fn cax(&mut self)
        ensures
            *final(self) == spec_cax(*old(self)),
    {
        self.ixr = self.acr;
    }

    /// Copy index to accumulator.
    pub fn cxa(&mut self)
        ensures
            *final(self) == spec_cxa(*old(self)),
    {
        self.acr = self.ixr;
    }
}

} // verus!
