//! Fetch and address formation.
//!
//! A memory-reference instruction carries an 11-bit displacement and an
//! indexing flag. The extension field of the status register supplies the
//! high-order bits of the address; an indexed reference adds the index
//! register, and in global mode leaves the extension out.
use vstd::prelude::*;
use crate::cpu::{ByteSelect, Cpu};
use crate::memory::Memory;
use crate::status::{
    with_page, ADFGBL, DISPLACEMENT_MASK, EXR_BYTE_MASK, EXR_WORD_MASK, INDEX_FLAG,
};
use crate::word::{
    bits, lemma_field_widths, offset_byte_address, offset_word_address, to_bits,
};

verus! {

/// The instruction word asks for indexing.
pub open spec fn is_indexed(mbr: u16) -> bool {
    mbr & INDEX_FLAG != 0
}

/// The status register selects global addressing.
pub open spec fn is_global(status: u16) -> bool {
    status & ADFGBL != 0
}

/// The effective word address of the instruction word `mbr`, always below
/// 32768.
pub open spec fn spec_word_address(mbr: u16, status: u16, ixr: i16) -> u16 {
    let paged = (mbr & DISPLACEMENT_MASK) | (status & (EXR_WORD_MASK >> 1));
    if is_indexed(mbr) {
        let base = if is_global(status) {
            paged & DISPLACEMENT_MASK
        } else {
            paged
        };
        ((base + ixr) % 0x8000) as u16
    } else {
        paged
    }
}

/// The effective byte address of the instruction word `mbr`: twice a word
/// address, plus one for the right byte.
pub open spec fn spec_byte_address(mbr: u16, status: u16, ixr: i16) -> u16 {
    if is_indexed(mbr) {
        let base = if is_global(status) {
            mbr & DISPLACEMENT_MASK
        } else {
            (mbr & DISPLACEMENT_MASK) | (status & EXR_BYTE_MASK)
        };
        ((base + ixr) % 0x1_0000) as u16
    } else {
        (mbr & DISPLACEMENT_MASK) | (status & EXR_BYTE_MASK)
    }
}

/// The byte that the instruction word `mbr` addresses: bit 0 of the
/// instruction when it is not indexed, else the parity of the byte address.
pub open spec fn spec_byte_select(mbr: u16, status: u16, ixr: i16) -> ByteSelect {
    let selector = if is_indexed(mbr) {
        spec_byte_address(mbr, status, ixr) & 0x0001
    } else {
        mbr & 0x0001
    };
    if selector == 0 {
        ByteSelect::LEFT
    } else {
        ByteSelect::RIGHT
    }
}

/// The word that holds the addressed byte.
pub open spec fn spec_byte_word_address(mbr: u16, status: u16, ixr: i16) -> u16 {
    spec_byte_address(mbr, status, ixr) >> 1
}

/// Fetch: the word at the program counter becomes the instruction, and the
/// program counter moves on, both within 15 bits.
pub open spec fn spec_fetch(c: Cpu, mem: Seq<i16>) -> Cpu {
    let mar = c.pcr % 0x8000;
    let mbr = bits(mem[mar as int]);
    Cpu {
        mar: mar as usize,
        mbr,
        inr: ((mbr >> 8) & 0x00FF) as u8,
        pcr: ((c.pcr + 1) % 0x8000) as u16,
        ..c
    }
}

/// The processor with the effective word address in the memory address
/// register.
pub open spec fn spec_compute_word_address(c: Cpu) -> Cpu {
    Cpu { mar: spec_word_address(c.mbr, c.status, c.ixr) as usize, ..c }
}

/// The processor with the address of the word that holds the addressed
/// byte in the memory address register.
pub open spec fn spec_compute_byte_address(c: Cpu) -> Cpu {
    Cpu { mar: spec_byte_word_address(c.mbr, c.status, c.ixr) as usize, ..c }
}

/// The page of the program counter becomes the extension field.
pub open spec fn spec_copy_pcr_to_exr(c: Cpu) -> Cpu {
    Cpu { status: with_page(c.pcr, c.status), ..c }
}

/// The operand of a word instruction: the word at its effective address.
pub open spec fn word_operand(c: Cpu, mem: Seq<i16>) -> i16 {
    mem[spec_word_address(c.mbr, c.status, c.ixr) as int]
}

/// Every effective address lies inside memory.
pub proof fn lemma_address_in_memory(mbr: u16, status: u16, ixr: i16)
    ensures
        spec_word_address(mbr, status, ixr) < 0x8000,
        spec_byte_word_address(mbr, status, ixr) < 0x8000,
{
    let s: u16 = spec_byte_address(mbr, status, ixr);
    assert(((mbr & 0x07FF) | (status & (0xF000u16 >> 1))) < 0x8000 && (s >> 1) < 0x8000)
        by (bit_vector);
}

impl Cpu {
    /// Fetches the next instruction into MBR and INR and advances the program
    /// counter.
    pub fn fetch(&mut self, memory: &mut Memory)
        ensures
            *final(self) == spec_fetch(*old(self), old(memory)@),
            final(self).inr == (bits(old(memory)@[(old(self).pcr % 0x8000) as int]) >> 8) & 0x00FF,
            final(self).pcr == (old(self).pcr + 1) % 0x8000,
            *final(memory) == *old(memory),
    {
        self.mar = (self.pcr % 0x8000) as usize;
        let instruction: u16 = to_bits(memory.core[self.mar]);
        proof {
            lemma_field_widths(instruction);
        }
        self.mbr = instruction;
        self.inr = ((instruction >> 8) & 0x00FF) as u8;
        self.pcr = (self.pcr % 0x8000 + 1) % 0x8000;
    }

    /// Forms the effective word address in MAR.
    pub fn compute_word_address(&mut self)
        ensures
            *final(self) == spec_compute_word_address(*old(self)),
            final(self).mar < 32768,
    {
        proof {
            lemma_address_in_memory(self.mbr, self.status, self.ixr);
        }
        let mut address: u16 = (self.mbr & DISPLACEMENT_MASK) | (self.status & (EXR_WORD_MASK >> 1));
        if (self.mbr & INDEX_FLAG) != 0 {
            if (self.status & ADFGBL) != 0 {
                address = address & DISPLACEMENT_MASK;
            }
            address = offset_word_address(address, self.ixr);
        }
        self.mar = address as usize;
    }

    /// Forms the effective byte address: the word's address in MAR, the
    /// half of the word as the result.
    pub fn compute_byte_address(&mut self) -> (select: ByteSelect)
        ensures
            *final(self) == spec_compute_byte_address(*old(self)),
            select == spec_byte_select(old(self).mbr, old(self).status, old(self).ixr),
            final(self).mar < 32768,
    {
        proof {
            lemma_address_in_memory(self.mbr, self.status, self.ixr);
        }
        let mut address: u16 = self.mbr & DISPLACEMENT_MASK;
        let selector: u16;
        if (self.mbr & INDEX_FLAG) == 0 {
            address = address | (self.status & EXR_BYTE_MASK);
            selector = self.mbr & 0x0001;
        } else {
            if (self.status & ADFGBL) == 0 {
                address = address | (self.status & EXR_BYTE_MASK);
            }
            address = offset_byte_address(address, self.ixr);
            selector = address & 0x0001;
        }
        self.mar = (address >> 1) as usize;
        if selector == 0 {
            ByteSelect::LEFT
        } else {
            ByteSelect::RIGHT
        }
    }

    /// Copies the page of the program counter to the extension field.
    pub fn copy_pcr_to_exr(&mut self)
        ensures
            *final(self) == spec_copy_pcr_to_exr(*old(self)),
    {
        self.status = ((self.pcr << 1) & EXR_BYTE_MASK) | (self.status & !EXR_BYTE_MASK);
    }
}

} // verus!
