//! The skip group, instruction register 0x08: each instruction steps over
//! the next one when its condition holds.
use vstd::prelude::*;
use crate::cpu::{spec_illegal_instruction, spec_not_implemented, Cpu};
use crate::status::{flag_set, ADFEQL, ADFNEG, ADFOVF};
use crate::word::lemma_parity;

verus! {

/// The processor with the program counter one further, within 16 bits.
pub open spec fn skipped(c: Cpu) -> Cpu {
    Cpu { pcr: ((c.pcr + 1) % 0x1_0000) as u16, ..c }
}

/// The processor after a skip instruction whose condition is `taken`.
pub open spec fn skip_if(c: Cpu, taken: bool) -> Cpu {
    if taken {
        skipped(c)
    } else {
        c
    }
}

/// SAZ: skip if the accumulator is zero.
pub open spec fn spec_saz(c: Cpu) -> Cpu {
    skip_if(c, c.acr == 0)
}

/// SAP: skip if the accumulator is not negative.
pub open spec fn spec_sap(c: Cpu) -> Cpu {
    skip_if(c, c.acr >= 0)
}

/// SAM: skip if the accumulator is negative.
pub open spec fn spec_sam(c: Cpu) -> Cpu {
    skip_if(c, c.acr < 0)
}

/// SAO: skip if the accumulator is odd.
pub open spec fn spec_sao(c: Cpu) -> Cpu {
    skip_if(c, c.acr % 2 != 0)
}

/// SLS: skip if the last compare found less.
pub open spec fn spec_sls(c: Cpu) -> Cpu {
    skip_if(c, flag_set(c.status, ADFNEG))
}

/// SXE: skip if the index register is even.
pub open spec fn spec_sxe(c: Cpu) -> Cpu {
    skip_if(c, c.ixr % 2 == 0)
}

/// SEQ: skip if EQL is clear.
pub open spec fn spec_seq(c: Cpu) -> Cpu {
    skip_if(c, !flag_set(c.status, ADFEQL))
}

/// SNE: skip if EQL is set.
pub open spec fn spec_sne(c: Cpu) -> Cpu {
    skip_if(c, flag_set(c.status, ADFEQL))
}

/// SGR: skip if the last compare found greater: neither NEG nor EQL.
pub open spec fn spec_sgr(c: Cpu) -> Cpu {
    skip_if(c, !flag_set(c.status, ADFEQL) && !flag_set(c.status, ADFNEG))
}

/// SLE: skip if the last compare found less or equal.
pub open spec fn spec_sle(c: Cpu) -> Cpu {
    skip_if(c, flag_set(c.status, ADFEQL) || flag_set(c.status, ADFNEG))
}

/// SNO: skip if there was no overflow.
pub open spec fn spec_sno(c: Cpu) -> Cpu {
    skip_if(c, !flag_set(c.status, ADFOVF))
}

/// The skip group: the second digit from the right selects. The five skips
/// on sense switches stop the machine: no switches are attached.
pub open spec fn spec_decode_skip(c: Cpu) -> Cpu {
    let digit2 = c.mbr & 0x00f0;
    if digit2 == 0x0000 {
        spec_saz(c)
    } else if digit2 == 0x0010 {
        spec_sap(c)
    } else if digit2 == 0x0020 {
        spec_sam(c)
    } else if digit2 == 0x0030 {
        spec_sao(c)
    } else if digit2 == 0x0040 {
        spec_sls(c)
    } else if digit2 == 0x0050 {
        spec_sxe(c)
    } else if digit2 == 0x0060 {
        spec_seq(c)
    } else if digit2 == 0x0070 {
        spec_sne(c)
    } else if digit2 == 0x0080 {
        spec_sgr(c)
    } else if digit2 == 0x0090 {
        spec_sle(c)
    } else if digit2 == 0x00A0 {
        spec_sno(c)
    } else if digit2 == 0x00B0 || digit2 == 0x00C0 || digit2 == 0x00D0 || digit2 == 0x00E0
        || digit2 == 0x00F0 {
        spec_not_implemented(c)
    } else {
        spec_illegal_instruction(c)
    }
}

impl Cpu {
    /// Executes the instruction of the skip group that MBR holds.
    pub fn decode_skip(&mut self)
        ensures
            *final(self) == spec_decode_skip(*old(self)),
    {
        let digit2 = self.mbr & 0x00f0;
        match digit2 {
            0x0000 => self.saz(),
            0x0010 => self.sap(),
            0x0020 => self.sam(),
            0x0030 => self.sao(),
            0x0040 => self.sls(),
            0x0050 => self.sxe(),
            0x0060 => self.seq(),
            0x0070 => self.sne(),
            0x0080 => self.sgr(),
            0x0090 => self.sle(),
            0x00A0 => self.sno(),
            0x00B0 => self.sse(),
            0x00C0 => self.ss0(),
            0x00D0 => self.ss1(),
            0x00E0 => self.ss2(),
            0x00F0 => self.ss3(),
            _ => self.illegal_instruction(),
        }
    }

    /// Steps over the next instruction.
    pub fn skip(&mut self)
        ensures
            *final(self) == skipped(*old(self)),
    {
        self.pcr = self.pcr.wrapping_add(1);
    }

    /// Skip if accumulator zero.
    pub fn saz(&mut self)
        ensures
            *final(self) == spec_saz(*old(self)),
    {
        if self.acr == 0 {
            self.skip();
        }
    }

    /// Skip if accumulator positive or zero.
    pub fn sap(&mut self)
        ensures
            *final(self) == spec_sap(*old(self)),
    {
        if self.acr >= 0 {
            self.skip();
        }
    }

    /// Skip if accumulator negative.
    pub fn sam(&mut self)
        ensures
            *final(self) == spec_sam(*old(self)),
    {
        if self.acr < 0 {
            self.skip();
        }
    }

    /// Skip if accumulator odd.
    pub fn sao(&mut self)
        ensures
            *final(self) == spec_sao(*old(self)),
    {
        proof {
            lemma_parity(self.acr);
        }
        if self.acr & 1 > 0 {
            self.skip();
        }
    }

    /// Skip if compare found less.
    pub fn sls(&mut self)
        ensures
            *final(self) == spec_sls(*old(self)),
    {
        if self.status & ADFNEG != 0 {
            self.skip();
        }
    }

    /// Skip if index even.
    pub fn sxe(&mut self)
        ensures
            *final(self) == spec_sxe(*old(self)),
    {
        proof {
            lemma_parity(self.ixr);
        }
        if self.ixr & 1 == 0 {
            self.skip();
        }
    }

    /// Skip if EQL is clear.
    pub fn seq(&mut self)
        ensures
            *final(self) == spec_seq(*old(self)),
    {
        if self.status & ADFEQL == 0 {
            self.skip();
        }
    }

    /// Skip if EQL is set.
    pub fn sne(&mut self)
        ensures
            *final(self) == spec_sne(*old(self)),
    {
        if self.status & ADFEQL != 0 {
            self.skip();
        }
    }

    /// Skip if compare found greater.
    pub fn sgr(&mut self)
        ensures
            *final(self) == spec_sgr(*old(self)),
    {
        if (self.status & ADFEQL == 0) && (self.status & ADFNEG == 0) {
            self.skip();
        }
    }

    /// Skip if compare found less or equal.
    pub fn sle(&mut self)
        ensures
            *final(self) == spec_sle(*old(self)),
    {
        if (self.status & ADFEQL != 0) || (self.status & ADFNEG != 0) {
            self.skip();
        }
    }

    /// Skip if no overflow.
    pub fn sno(&mut self)
        ensures
            *final(self) == spec_sno(*old(self)),
    {
        if self.status & ADFOVF == 0 {
            self.skip();
        }
    }

    /// Skip on the external sense switch.
    pub fn sse(&mut self)
        ensures
            *final(self) == spec_not_implemented(*old(self)),
    {
        self.not_implemented();
    }

    /// Skip on sense switch 0.
    pub fn ss0(&mut self)
        ensures
            *final(self) == spec_not_implemented(*old(self)),
    {
        self.not_implemented();
    }

    /// Skip on sense switch 1.
    pub fn ss1(&mut self)
        ensures
            *final(self) == spec_not_implemented(*old(self)),
    {
        self.not_implemented();
    }

    /// Skip on sense switch 2.
    pub fn ss2(&mut self)
        ensures
            *final(self) == spec_not_implemented(*old(self)),
    {
        self.not_implemented();
    }

    /// Skip on sense switch 3.
    pub fn ss3(&mut self)
        ensures
            *final(self) == spec_not_implemented(*old(self)),
    {
        self.not_implemented();
    }
}

} // verus!
