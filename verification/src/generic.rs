//! The generic group, instruction register 0x00: halt, interrupt control,
//! addressing mode and the extension field.
use vstd::prelude::*;
use crate::cpu::{level_bit, spec_illegal_instruction, Cpu, Fault, Mode};
use crate::memory::{vector_base, Memory, VECTOR_STATUS};
use crate::status::{ADFGBL, EXR_BYTE_MASK};
use crate::word::{bits, lemma_field_widths, to_bits, to_word, word};

verus! {

/// The interrupt level that an instruction word names in its last digit.
pub open spec fn level_field(mbr: u16) -> int {
    (mbr & 0x000F) as int
}

/// HALT: the machine stops, with the program counter back on the HALT
/// itself, one short (within 15 bits) of where fetch left it.
pub open spec fn spec_halt(c: Cpu) -> Cpu {
    Cpu { mode: Mode::HALT, fault: Fault::Clean, pcr: ((c.pcr + 0x7FFF) % 0x8000) as u16, ..c }
}

/// INRET: the level is no longer active, and status and program counter
/// come back from its vector.
pub open spec fn spec_inret(c: Cpu, mem: Seq<i16>) -> Cpu {
    let level = level_field(c.mbr);
    Cpu {
        int_act: c.int_act & !level_bit(level),
        status: bits(mem[vector_base(level) + 2]),
        pcr: bits(mem[vector_base(level)]),
        ..c
    }
}

/// ENB: the level is enabled.
pub open spec fn spec_enb(c: Cpu) -> Cpu {
    Cpu { int_enb: c.int_enb | level_bit(level_field(c.mbr)), ..c }
}

/// DSB: the level is disabled, and whatever was requested or active on it
/// is forgotten.
pub open spec fn spec_dsb(c: Cpu) -> Cpu {
    let bit = level_bit(level_field(c.mbr));
    Cpu { int_enb: c.int_enb & !bit, int_act: c.int_act & !bit, int_req: c.int_req & !bit, ..c }
}

/// SLM: local addressing.
pub open spec fn spec_slm(c: Cpu) -> Cpu {
    Cpu { status: c.status & !ADFGBL, ..c }
}

/// SGM: global addressing.
pub open spec fn spec_sgm(c: Cpu) -> Cpu {
    Cpu { status: c.status | ADFGBL, ..c }
}

/// CEX: the extension field replaces the top five bits of the index
/// register.
pub open spec fn spec_cex(c: Cpu) -> Cpu {
    Cpu { ixr: word((bits(c.ixr) & !EXR_BYTE_MASK) | (c.status & EXR_BYTE_MASK)), ..c }
}

/// CXE: the top five bits of the index register replace the extension
/// field.
pub open spec fn spec_cxe(c: Cpu) -> Cpu {
    Cpu { status: (c.status & !EXR_BYTE_MASK) | (bits(c.ixr) & EXR_BYTE_MASK), ..c }
}

/// SML: the last digit of the instruction becomes the extension, in the
/// lower half of memory.
pub open spec fn spec_sml(c: Cpu) -> Cpu {
    Cpu { status: (c.status & !EXR_BYTE_MASK) | ((c.mbr & 0x000F) << 11), ..c }
}

/// SMU: as SML, in the upper half of memory: the top bit of the status
/// register is set as well.
pub open spec fn spec_smu(c: Cpu) -> Cpu {
    Cpu { status: ((c.status & !EXR_BYTE_MASK) | 0x8000) | ((c.mbr & 0x000F) << 11), ..c }
}

/// MSK: interrupts are masked.
pub open spec fn spec_msk(c: Cpu) -> Cpu {
    Cpu { int_masked: true, ..c }
}

/// UNM: interrupts are let through.
pub open spec fn spec_unm(c: Cpu) -> Cpu {
    Cpu { int_masked: false, ..c }
}

/// The generic group: the second digit from the right selects.
pub open spec fn spec_decode_generic(c: Cpu, mem: Seq<i16>) -> Cpu {
    let digit2 = c.mbr & 0x00f0;
    if digit2 == 0x0000 {
        spec_halt(c)
    } else if digit2 == 0x0010 {
        spec_inret(c, mem)
    } else if digit2 == 0x0020 {
        spec_enb(c)
    } else if digit2 == 0x0030 {
        spec_dsb(c)
    } else if digit2 == 0x0040 {
        spec_slm(c)
    } else if digit2 == 0x0050 {
        spec_sgm(c)
    } else if digit2 == 0x0060 {
        spec_cex(c)
    } else if digit2 == 0x0070 {
        spec_cxe(c)
    } else if digit2 == 0x0080 {
        spec_sml(c)
    } else if digit2 == 0x0090 {
        spec_smu(c)
    } else if digit2 == 0x00A0 {
        spec_msk(c)
    } else if digit2 == 0x00B0 {
        spec_unm(c)
    } else {
        spec_illegal_instruction(c)
    }
}

impl Cpu {
    /// Executes the instruction of the generic group that MBR holds.
    pub fn decode_generic(&mut self, memory: &mut Memory)
        ensures
            *final(self) == spec_decode_generic(*old(self), old(memory)@),
            *final(memory) == *old(memory),
    {
        let digit2 = self.mbr & 0x00f0;
        if digit2 == 0 {
            self.mode = Mode::HALT;
            self.fault = Fault::Clean;
            self.pcr = ((self.pcr % 0x8000) + 0x7FFF) % 0x8000;
            return ;
        }
        match digit2 {
            0x0010 => self.inret(memory),
            0x0020 => self.enb(),
            0x0030 => self.dsb(),
            0x0040 => self.slm(),
            0x0050 => self.sgm(),
            0x0060 => self.cex(),
            0x0070 => self.cxe(),
            0x0080 => self.sml(),
            0x0090 => self.smu(),
            0x00A0 => self.msk(),
            0x00B0 => self.unm(),
            _ => self.illegal_instruction(),
        }
    }

    /// Interrupt return.
    pub fn inret(&mut self, memory: &mut Memory)
        ensures
            *final(self) == spec_inret(*old(self), old(memory)@),
            *final(memory) == *old(memory),
    {
        proof {
            lemma_field_widths(self.mbr);
        }
        let level = self.mbr & 0x000F;
        let base: usize = (level * 4) as usize;
        self.int_act = self.int_act & !(0x0001u16 << level);
        self.status = to_bits(memory.core[base + VECTOR_STATUS]);
        self.pcr = to_bits(memory.core[base]);
    }

    /// Interrupt enable.
    pub fn enb(&mut self)
        ensures
            *final(self) == spec_enb(*old(self)),
    {
        proof {
            lemma_field_widths(self.mbr);
        }
        let level = self.mbr & 0x000F;
        self.int_enb = self.int_enb | (0x0001u16 << level);
    }

    /// Interrupt disable.
    pub fn dsb(&mut self)
        ensures
            *final(self) == spec_dsb(*old(self)),
    {
        proof {
            lemma_field_widths(self.mbr);
        }
        let level = self.mbr & 0x000F;
        self.int_enb = self.int_enb & !(0x0001u16 << level);
        self.int_act = self.int_act & !(0x0001u16 << level);
        self.int_req = self.int_req & !(0x0001u16 << level);
    }

    /// Set local mode.
    pub fn slm(&mut self)
        ensures
            *final(self) == spec_slm(*old(self)),
    {
        self.status = self.status & !ADFGBL;
    }

    /// Set global mode.
    pub fn sgm(&mut self)
        ensures
            *final(self) == spec_sgm(*old(self)),
    {
        self.status = self.status | ADFGBL;
    }

    /// Copy extension to index.
    pub fn cex(&mut self)
        ensures
            *final(self) == spec_cex(*old(self)),
    {
        self.ixr = to_word((to_bits(self.ixr) & !EXR_BYTE_MASK) | (self.status & EXR_BYTE_MASK));
    }

    /// Copy index to extension.
    pub fn cxe(&mut self)
        ensures
            *final(self) == spec_cxe(*old(self)),
    {
        self.status = (self.status & !EXR_BYTE_MASK) | (to_bits(self.ixr) & EXR_BYTE_MASK);
    }

    /// Set memory lower.
    pub fn sml(&mut self)
        ensures
            *final(self) == spec_sml(*old(self)),
    {
        self.status = (self.status & !EXR_BYTE_MASK) | ((self.mbr & 0x000F) << 11);
    }

    /// Set memory upper.
    pub fn smu(&mut self)
        ensures
            *final(self) == spec_smu(*old(self)),
    {
        self.status = ((self.status & !EXR_BYTE_MASK) | 0x8000) | ((self.mbr & 0x000F) << 11);
    }

    /// Mask interrupts.
    pub fn msk(&mut self)
        ensures
            *final(self) == spec_msk(*old(self)),
    {
        self.int_masked = true;
    }

    /// Unmask interrupts.
    pub fn unm(&mut self)
        ensures
            *final(self) == spec_unm(*old(self)),
    {
        self.int_masked = false;
    }
}

} // verus!
