//! Direct input and output, and the index and literal instructions:
//! instruction registers 0x02 to 0x07. The low byte of the instruction
//! word is the operand.
use vstd::prelude::*;
use crate::cpu::Cpu;
use crate::skip::skip_if;
use crate::status::{compared, ADFEQL, ADFNEG};
use crate::word::{
    get_right_byte, lemma_field_widths, right_byte, signed_byte, to_signed_byte, to_word, word,
    wrap16,
};

verus! {

/// The low byte of an instruction word, as a number from 0 to 255.
pub open spec fn literal(mbr: u16) -> u16 {
    mbr & 0x00FF
}

/// DIN: no channel is attached; the instruction retires and changes
/// nothing.
pub open spec fn spec_din(c: Cpu) -> Cpu {
    c
}

/// DOT: no channel is attached; the instruction retires and changes
/// nothing.
pub open spec fn spec_dot(c: Cpu) -> Cpu {
    c
}

/// IXS: the literal is added to the index register; skip if the result is
/// not negative.
pub open spec fn spec_ixs(c: Cpu) -> Cpu {
    let ixr = wrap16(c.ixr + literal(c.mbr));
    skip_if(Cpu { ixr, ..c }, ixr >= 0)
}

/// DXS: the literal is subtracted from the index register; skip if the
/// result is negative.
pub open spec fn spec_dxs(c: Cpu) -> Cpu {
    let ixr = wrap16(c.ixr - literal(c.mbr));
    skip_if(Cpu { ixr, ..c }, ixr < 0)
}

/// LLB: the literal is merged into the accumulator by inclusive or.
pub open spec fn spec_llb(c: Cpu) -> Cpu {
    Cpu { acr: c.acr | word(literal(c.mbr)), ..c }
}

/// CLB: the low byte of the accumulator is compared with the literal, both
/// as signed 8-bit numbers.
pub open spec fn spec_clb(c: Cpu) -> Cpu {
    Cpu {
        status: compared(
            c.status & !(ADFEQL | ADFNEG),
            signed_byte(right_byte(c.acr)) as int,
            signed_byte(literal(c.mbr) as u8) as int,
        ),
        ..c
    }
}

impl Cpu {
    /// Executes the direct input instruction that MBR holds. The processor
    /// has no device of its own: the instruction retires and every register
    /// stays as it is.
    pub fn decode_din(&mut self)
        ensures
            *final(self) == spec_din(*old(self)),
    {
        self.din();
    }

    /// Executes the direct output instruction that MBR holds. The processor
    /// has no device of its own: the instruction retires and every register
    /// stays as it is.
    pub fn decode_dot(&mut self)
        ensures
            *final(self) == spec_dot(*old(self)),
    {
        self.dot();
    }

    /// Executes the IXS instruction that MBR holds.
    pub fn decode_ixs(&mut self)
        ensures
            *final(self) == spec_ixs(*old(self)),
    {
        self.ixs();
    }

    /// Executes the DXS instruction that MBR holds.
    pub fn decode_dxs(&mut self)
        ensures
            *final(self) == spec_dxs(*old(self)),
    {
        self.dxs();
    }

    /// Executes the LLB instruction that MBR holds.
    pub fn decode_llb(&mut self)
        ensures
            *final(self) == spec_llb(*old(self)),
    {
        self.llb();
    }

    /// Executes the CLB instruction that MBR holds.
    pub fn decode_clb(&mut self)
        ensures
            *final(self) == spec_clb(*old(self)),
    {
        self.clb();
    }

    /// Direct input: nothing is attached, nothing changes.
    pub fn din(&mut self)
        ensures
            *final(self) == spec_din(*old(self)),
    {
    }

    /// Direct output: nothing is attached, nothing changes.
    pub fn dot(&mut self)
        ensures
            *final(self) == spec_dot(*old(self)),
    {
    }

    /// Increment index and skip if not negative.
    pub fn ixs(&mut self)
        ensures
            *final(self) == spec_ixs(*old(self)),
    {
        proof {
            lemma_field_widths(self.mbr);
        }
        self.ixr = self.ixr.wrapping_add((self.mbr & 0x00FF) as i16);
        if self.ixr >= 0 {
            self.skip();
        }
    }

    /// Decrement index and skip if negative.
    pub fn dxs(&mut self)
        ensures
            *final(self) == spec_dxs(*old(self)),
    {
        proof {
            lemma_field_widths(self.mbr);
        }
        self.ixr = self.ixr.wrapping_sub((self.mbr & 0x00FF) as i16);
        if self.ixr < 0 {
            self.skip();
        }
    }

    /// Load literal byte.
    pub fn llb(&mut self)
        ensures
            *final(self) == spec_llb(*old(self)),
    {
        self.acr = self.acr | to_word(self.mbr & 0x00FF);
    }

    /// Compare literal byte.
    pub fn clb(&mut self)
        ensures
            *final(self) == spec_clb(*old(self)),
    {
        let ours = to_signed_byte(get_right_byte(self.acr));
        let byte = to_signed_byte((self.mbr & 0x00FF) as u8);
        self.status = self.status & !(ADFEQL | ADFNEG);
        if ours < byte {
            self.status = self.status | ADFNEG;
        } else if ours == byte {
            self.status = self.status | ADFEQL;
        }
    }
}

} // verus!
