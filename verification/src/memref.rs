//! The memory-reference instructions, opcodes 0x10 to 0xF0.
use vstd::prelude::*;
use crate::address::{
    spec_byte_select, spec_byte_word_address, spec_compute_word_address, spec_copy_pcr_to_exr,
    spec_word_address,
};
use crate::cpu::{spec_illegal_instruction, ByteSelect, Cpu};
use crate::memory::{machine, Machine, Memory};
use crate::status::{compared, ADFEQL, ADFGBL, ADFNEG, ADFOVF};
use crate::word::{
    get_left_byte, get_right_byte, left_byte, pack, pack_bytes, right_byte, signed_byte,
    to_signed_byte, to_word, word, wrap16,
};

verus! {

/// The left or the right byte of a word.
pub open spec fn selected_byte(w: i16, select: ByteSelect) -> u8 {
    match select {
        ByteSelect::LEFT => left_byte(w),
        ByteSelect::RIGHT => right_byte(w),
    }
}

/// The word `w` with the selected byte replaced by `b`.
pub open spec fn with_byte(w: i16, select: ByteSelect, b: u8) -> i16 {
    match select {
        ByteSelect::LEFT => pack(b, right_byte(w)),
        ByteSelect::RIGHT => pack(left_byte(w), b),
    }
}

/// JMP: control passes to the effective address.
pub open spec fn spec_jmp(c: Cpu) -> Cpu {
    let a = spec_word_address(c.mbr, c.status, c.ixr);
    Cpu { mar: a as usize, pcr: a, ..c }
}

/// JSX: the return address goes to the index register, control passes to
/// the effective address, and addressing becomes global.
pub open spec fn spec_jsx(c: Cpu) -> Cpu {
    let a = spec_word_address(c.mbr, c.status, c.ixr);
    Cpu { mar: a as usize, ixr: word(c.pcr), pcr: a, status: c.status | ADFGBL, ..c }
}

/// STB: the low byte of the accumulator replaces the addressed byte.
pub open spec fn spec_stb(c: Cpu, mem: Seq<i16>) -> Machine {
    let a = spec_byte_word_address(c.mbr, c.status, c.ixr);
    let select = spec_byte_select(c.mbr, c.status, c.ixr);
    Machine {
        cpu: Cpu { mar: a as usize, ..c },
        mem: mem.update(a as int, with_byte(mem[a as int], select, right_byte(c.acr))),
    }
}

/// CMB: the low byte of the accumulator is compared with the addressed
/// byte, both as signed 8-bit numbers. GBL and NEG are cleared first; EQL
/// is only ever set.
pub open spec fn spec_cmb(c: Cpu, mem: Seq<i16>) -> Cpu {
    let a = spec_byte_word_address(c.mbr, c.status, c.ixr);
    let select = spec_byte_select(c.mbr, c.status, c.ixr);
    Cpu {
        mar: a as usize,
        status: compared(
            c.status & !(ADFGBL | ADFNEG),
            signed_byte(right_byte(c.acr)) as int,
            signed_byte(selected_byte(mem[a as int], select)) as int,
        ),
        ..c
    }
}

/// LDB: the addressed byte becomes the accumulator, with a zero high byte.
pub open spec fn spec_ldb(c: Cpu, mem: Seq<i16>) -> Cpu {
    let a = spec_byte_word_address(c.mbr, c.status, c.ixr);
    let select = spec_byte_select(c.mbr, c.status, c.ixr);
    Cpu { mar: a as usize, acr: pack(0, selected_byte(mem[a as int], select)), ..c }
}

/// STX: the index register is stored.
pub open spec fn spec_stx(c: Cpu, mem: Seq<i16>) -> Machine {
    let a = spec_word_address(c.mbr, c.status, c.ixr);
    Machine { cpu: Cpu { mar: a as usize, ..c }, mem: mem.update(a as int, c.ixr) }
}

/// STW: the accumulator is stored.
pub open spec fn spec_stw(c: Cpu, mem: Seq<i16>) -> Machine {
    let a = spec_word_address(c.mbr, c.status, c.ixr);
    Machine { cpu: Cpu { mar: a as usize, ..c }, mem: mem.update(a as int, c.acr) }
}

/// LDW: the accumulator is loaded.
pub open spec fn spec_ldw(c: Cpu, mem: Seq<i16>) -> Cpu {
    let a = spec_word_address(c.mbr, c.status, c.ixr);
    Cpu { mar: a as usize, acr: mem[a as int], ..c }
}

/// LDX: the index register is loaded.
pub open spec fn spec_ldx(c: Cpu, mem: Seq<i16>) -> Cpu {
    let a = spec_word_address(c.mbr, c.status, c.ixr);
    Cpu { mar: a as usize, ixr: mem[a as int], ..c }
}

/// The accumulator and status after an addition or subtraction whose exact
/// result is `exact`: the result itself with OVF clear if it fits in a
/// word, else its low sixteen bits with OVF set.
pub open spec fn arithmetic_result(c: Cpu, exact: int) -> Cpu {
    if i16::MIN <= exact <= i16::MAX {
        Cpu { acr: exact as i16, status: c.status & !ADFOVF, ..c }
    } else {
        Cpu { acr: wrap16(exact), status: c.status | ADFOVF, ..c }
    }
}

/// ADD: the operand is added to the accumulator.
pub open spec fn spec_add(c: Cpu, mem: Seq<i16>) -> Cpu {
    let a = spec_word_address(c.mbr, c.status, c.ixr);
    arithmetic_result(Cpu { mar: a as usize, ..c }, c.acr + mem[a as int])
}

/// SUB: the operand is subtracted from the accumulator.
pub open spec fn spec_sub(c: Cpu, mem: Seq<i16>) -> Cpu {
    let a = spec_word_address(c.mbr, c.status, c.ixr);
    arithmetic_result(Cpu { mar: a as usize, ..c }, c.acr - mem[a as int])
}

/// ORI: inclusive or of the operand into the accumulator.
pub open spec fn spec_ori(c: Cpu, mem: Seq<i16>) -> Cpu {
    let a = spec_word_address(c.mbr, c.status, c.ixr);
    Cpu { mar: a as usize, acr: mem[a as int] | c.acr, ..c }
}

/// ORE: exclusive or of the operand into the accumulator.
pub open spec fn spec_ore(c: Cpu, mem: Seq<i16>) -> Cpu {
    let a = spec_word_address(c.mbr, c.status, c.ixr);
    Cpu { mar: a as usize, acr: mem[a as int] ^ c.acr, ..c }
}

/// AND: logical and of the operand into the accumulator.
pub open spec fn spec_and(c: Cpu, mem: Seq<i16>) -> Cpu {
    let a = spec_word_address(c.mbr, c.status, c.ixr);
    Cpu { mar: a as usize, acr: mem[a as int] & c.acr, ..c }
}

/// CMW: the accumulator is compared with the operand, as signed words.
pub open spec fn spec_cmw(c: Cpu, mem: Seq<i16>) -> Cpu {
    let a = spec_word_address(c.mbr, c.status, c.ixr);
    Cpu {
        mar: a as usize,
        status: compared(c.status & !(ADFEQL | ADFNEG), c.acr as int, mem[a as int] as int),
        ..c
    }
}

/// A memory-reference instruction: the high digit of the instruction
/// register selects it, and afterwards the page of the program counter is
/// copied to the extension field.
pub open spec fn spec_decode_mem_reference(c: Cpu, mem: Seq<i16>) -> Machine {
    let op = c.inr & 0xf0;
    let done = if op == 0x10 {
        Machine { cpu: spec_jmp(c), mem }
    } else if op == 0x20 {
        Machine { cpu: spec_jsx(c), mem }
    } else if op == 0x30 {
        spec_stb(c, mem)
    } else if op == 0x40 {
        Machine { cpu: spec_cmb(c, mem), mem }
    } else if op == 0x50 {
        Machine { cpu: spec_ldb(c, mem), mem }
    } else if op == 0x60 {
        spec_stx(c, mem)
    } else if op == 0x70 {
        spec_stw(c, mem)
    } else if op == 0x80 {
        Machine { cpu: spec_ldw(c, mem), mem }
    } else if op == 0x90 {
        Machine { cpu: spec_ldx(c, mem), mem }
    } else if op == 0xA0 {
        Machine { cpu: spec_add(c, mem), mem }
    } else if op == 0xB0 {
        Machine { cpu: spec_sub(c, mem), mem }
    } else if op == 0xC0 {
        Machine { cpu: spec_ori(c, mem), mem }
    } else if op == 0xD0 {
        Machine { cpu: spec_ore(c, mem), mem }
    } else if op == 0xE0 {
        Machine { cpu: spec_and(c, mem), mem }
    } else if op == 0xF0 {
        Machine { cpu: spec_cmw(c, mem), mem }
    } else {
        Machine { cpu: spec_illegal_instruction(spec_compute_word_address(c)), mem }
    };
    Machine { cpu: spec_copy_pcr_to_exr(done.cpu), mem: done.mem }
}

impl Cpu {
    /// Executes the memory-reference instruction that INR and MBR hold.
    pub fn decode_mem_reference(&mut self, memory: &mut Memory)
        ensures
            machine(*final(self), *final(memory)) == spec_decode_mem_reference(
                *old(self),
                old(memory)@,
            ),
    {
        self.compute_word_address();
        match self.inr & 0xf0 {
            0x10 => self.jmp(),
            0x20 => self.jsx(),
            0x30 => self.stb(memory),
            0x40 => self.cmb(memory),
            0x50 => self.ldb(memory),
            0x60 => self.stx(memory),
            0x70 => self.stw(memory),
            0x80 => self.ldw(memory),
            0x90 => self.ldx(memory),
            0xA0 => self.add(memory),
            0xB0 => self.sub(memory),
            0xC0 => self.ori(memory),
            0xD0 => self.ore(memory),
            0xE0 => self.and(memory),
            0xF0 => self.cmw(memory),
            _ => self.illegal_instruction(),
        }
        self.copy_pcr_to_exr();
    }

    /// Jump.
    pub fn jmp(&mut self)
        ensures
            *final(self) == spec_jmp(*old(self)),
    {
        self.compute_word_address();
        self.pcr = self.mar as u16;
    }

    /// Jump and store index.
    pub fn jsx(&mut self)
        ensures
            *final(self) == spec_jsx(*old(self)),
    {
        self.compute_word_address();
        self.ixr = to_word(self.pcr);
        self.pcr = self.mar as u16;
        self.status = self.status | ADFGBL;
    }

    /// Store byte.
    pub fn stb(&mut self, memory: &mut Memory)
        ensures
            machine(*final(self), *final(memory)) == spec_stb(*old(self), old(memory)@),
    {
        let select = self.compute_byte_address();
        let memory_word = memory.core[self.mar];
        let byte = get_right_byte(self.acr);
        let stored = match select {
            ByteSelect::LEFT => pack_bytes(byte, get_right_byte(memory_word)),
            ByteSelect::RIGHT => pack_bytes(get_left_byte(memory_word), byte),
        };
        memory.core[self.mar] = stored;
    }

    /// Compare memory byte.
    pub fn cmb(&mut self, memory: &mut Memory)
        ensures
            *final(self) == spec_cmb(*old(self), old(memory)@),
            *final(memory) == *old(memory),
    {
        let select = self.compute_byte_address();
        let memory_word = memory.core[self.mar];
        let byte = match select {
            ByteSelect::LEFT => get_left_byte(memory_word),
            ByteSelect::RIGHT => get_right_byte(memory_word),
        };
        let ours = to_signed_byte(get_right_byte(self.acr));
        let theirs = to_signed_byte(byte);
        self.status = self.status & !(ADFGBL | ADFNEG);
        if ours < theirs {
            self.status = self.status | ADFNEG;
        } else if ours == theirs {
            self.status = self.status | ADFEQL;
        }
    }

    /// Load byte.
    pub fn ldb(&mut self, memory: &mut Memory)
        ensures
            *final(self) == spec_ldb(*old(self), old(memory)@),
            *final(memory) == *old(memory),
    {
        let select = self.compute_byte_address();
        let memory_word = memory.core[self.mar];
        let byte = match select {
            ByteSelect::LEFT => get_left_byte(memory_word),
            ByteSelect::RIGHT => get_right_byte(memory_word),
        };
        self.acr = pack_bytes(0, byte);
    }

    /// Store index.
    pub fn stx(&mut self, memory: &mut Memory)
        ensures
            machine(*final(self), *final(memory)) == spec_stx(*old(self), old(memory)@),
    {
        self.compute_word_address();
        memory.core[self.mar] = self.ixr;
    }

    /// Store word.
    pub fn stw(&mut self, memory: &mut Memory)
        ensures
            machine(*final(self), *final(memory)) == spec_stw(*old(self), old(memory)@),
    {
        self.compute_word_address();
        memory.core[self.mar] = self.acr;
    }

    /// Load word.
    pub fn ldw(&mut self, memory: &mut Memory)
        ensures
            *final(self) == spec_ldw(*old(self), old(memory)@),
            *final(memory) == *old(memory),
    {
        self.compute_word_address();
        self.acr = memory.core[self.mar];
    }

    /// Load index.
    pub fn ldx(&mut self, memory: &mut Memory)
        ensures
            *final(self) == spec_ldx(*old(self), old(memory)@),
            *final(memory) == *old(memory),
    {
        self.compute_word_address();
        self.ixr = memory.core[self.mar];
    }

    /// Add.
    pub fn add(&mut self, memory: &mut Memory)
        ensures
            *final(self) == spec_add(*old(self), old(memory)@),
            *final(memory) == *old(memory),
    {
        self.compute_word_address();
        let operand = memory.core[self.mar];
        match self.acr.checked_add(operand) {
            Some(value) => {
                self.acr = value;
                self.status = self.status & !ADFOVF;
            },
            None => {
                self.status = self.status | ADFOVF;
                self.acr = self.acr.wrapping_add(operand);
            },
        }
    }

    /// Subtract.
    pub fn sub(&mut self, memory: &mut Memory)
        ensures
            *final(self) == spec_sub(*old(self), old(memory)@),
            *final(memory) == *old(memory),
    {
        self.compute_word_address();
        let operand = memory.core[self.mar];
        match self.acr.checked_sub(operand) {
            Some(value) => {
                self.acr = value;
                self.status = self.status & !ADFOVF;
            },
            None => {
                self.status = self.status | ADFOVF;
                self.acr = self.acr.wrapping_sub(operand);
            },
        }
    }

    /// Inclusive or.
    pub fn ori(&mut self, memory: &mut Memory)
        ensures
            *final(self) == spec_ori(*old(self), old(memory)@),
            *final(memory) == *old(memory),
    {
        self.compute_word_address();
        self.acr = memory.core[self.mar] | self.acr;
    }

    /// Exclusive or.
    pub fn ore(&mut self, memory: &mut Memory)
        ensures
            *final(self) == spec_ore(*old(self), old(memory)@),
            *final(memory) == *old(memory),
    {
        self.compute_word_address();
        self.acr = memory.core[self.mar] ^ self.acr;
    }

    /// Logical and.
    pub fn and(&mut self, memory: &mut Memory)
        ensures
            *final(self) == spec_and(*old(self), old(memory)@),
            *final(memory) == *old(memory),
    {
        self.compute_word_address();
        self.acr = memory.core[self.mar] & self.acr;
    }

    /// Compare word.
    pub fn cmw(&mut self, memory: &mut Memory)
        ensures
            *final(self) == spec_cmw(*old(self), old(memory)@),
            *final(memory) == *old(memory),
    {
        self.compute_word_address();
        let operand = memory.core[self.mar];
        self.status = self.status & !(ADFEQL | ADFNEG);
        if self.acr < operand {
            self.status = self.status | ADFNEG;
        } else if self.acr == operand {
            self.status = self.status | ADFEQL;
        }
    }
}

} // verus!
