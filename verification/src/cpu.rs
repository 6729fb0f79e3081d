//! The registers of the processor.
use vstd::prelude::*;

verus! {

/// The execution mode latch.
#[allow(non_camel_case_types)]
#[derive(Clone, Copy, Debug, PartialEq, Eq, Structural)]
pub enum Mode {
    HALT,
    RUN,
    STEP,
}

/// Which half of a word a byte instruction addresses.
#[allow(non_camel_case_types)]
#[derive(Clone, Copy, Debug, PartialEq, Eq, Structural)]
pub enum ByteSelect {
    /// The high byte, at an even byte address.
    LEFT,
    /// The low byte, at an odd byte address.
    RIGHT,
}

/// Why the machine last stopped of its own accord.
#[derive(Clone, Copy, Debug, PartialEq, Eq, Structural)]
pub enum Fault {
    /// It has not stopped, or it stopped at a HALT instruction.
    Clean,
    /// The instruction word fetched encodes no instruction.
    IllegalInstruction,
    /// The instruction asks for a device that is not attached.
    NotImplemented,
}

/// The processor: its registers, the interrupt controller and the mode
/// latch.
#[derive(Clone, Copy, Debug, PartialEq, Eq, Structural)]
pub struct Cpu {
    /// Execution mode latch.
    pub mode: Mode,
    /// Accumulator.
    pub acr: i16,
    /// Index register; also the low half of the double-length accumulator.
    pub ixr: i16,
    /// Status register.
    pub status: u16,
    /// Program counter; its low 15 bits address memory.
    pub pcr: u16,
    /// Memory buffer register: the instruction word being executed.
    pub mbr: u16,
    /// Memory address register.
    pub mar: usize,
    /// Instruction register: the high byte of the instruction word.
    pub inr: u8,
    /// Interrupt requests, one bit for each level; bit 15 is the highest.
    pub int_req: u16,
    /// Interrupt levels that were entered and have not returned.
    pub int_act: u16,
    /// Interrupt levels that are enabled.
    pub int_enb: u16,
    /// Interrupt mask flip-flop.
    pub int_masked: bool,
    /// Cause of the last halt.
    pub fault: Fault,
}

/// A level's bit in the three interrupt registers.
pub open spec fn level_bit(level: int) -> u16 {
    1u16 << level
}

/// The processor as it is switched on.
pub open spec fn spec_new() -> Cpu {
    Cpu {
        mode: Mode::HALT,
        acr: 0,
        ixr: 0,
        status: 0,
        pcr: 0,
        mbr: 0,
        mar: 0,
        inr: 0,
        int_req: 0,
        int_act: 0,
        int_enb: 0,
        int_masked: false,
        fault: Fault::Clean,
    }
}

/// The processor stopped on a word that encodes no instruction.
pub open spec fn spec_illegal_instruction(c: Cpu) -> Cpu {
    Cpu { mode: Mode::HALT, fault: Fault::IllegalInstruction, ..c }
}

/// The processor stopped on an instruction for a device that is not there.
pub open spec fn spec_not_implemented(c: Cpu) -> Cpu {
    Cpu { mode: Mode::HALT, fault: Fault::NotImplemented, ..c }
}

/// The processor with a request latched on `level`.
pub open spec fn spec_raise(c: Cpu, level: int) -> Cpu {
    Cpu { int_req: c.int_req | level_bit(level), ..c }
}

impl Cpu {
    /// The processor as it is switched on: halted, every register zero.
    pub fn new() -> (c: Cpu)
        ensures
            c == spec_new(),
    {
        Cpu {
            mode: Mode::HALT,
            acr: 0,
            ixr: 0,
            status: 0,
            pcr: 0,
            mbr: 0,
            mar: 0,
            inr: 0,
            int_req: 0,
            int_act: 0,
            int_enb: 0,
            int_masked: false,
            fault: Fault::Clean,
        }
    }

    /// Stops the machine on a word that encodes no instruction.
    pub fn illegal_instruction(&mut self)
        ensures
            *final(self) == spec_illegal_instruction(*old(self)),
    {
        self.mode = Mode::HALT;
        self.fault = Fault::IllegalInstruction;
    }

    /// Stops the machine on an instruction for a device that is not attached.
    pub fn not_implemented(&mut self)
        ensures
            *final(self) == spec_not_implemented(*old(self)),
    {
        self.mode = Mode::HALT;
        self.fault = Fault::NotImplemented;
    }

    /// Latches an interrupt request, as a device does between instructions.
    pub fn raise(&mut self, level: i32)
        requires
            0 <= level < 16,
        ensures
            *final(self) == spec_raise(*old(self), level as int),
    {
        self.int_req = self.int_req | (0x0001u16 << level);
    }
}

} // verus!
