//! Instruction-set interpreter for the Raytheon 703, a 16-bit minicomputer
//! with 32K words of core memory, one accumulator, one index register and
//! sixteen levels of priority interrupt.
//!
//! Every instruction has a specification function that gives the machine
//! after it as a value, and an executable method that is proved to compute
//! that value.
pub mod status;
pub mod word;
pub mod cpu;
pub mod memory;
pub mod address;
pub mod memref;
pub mod generic;
pub mod register;
pub mod literal;
pub mod skip;
pub mod interrupt;
pub mod shift;
pub mod decode;
pub mod run;
pub mod laws;

pub use cpu::{ByteSelect, Cpu, Fault, Mode};
pub use memory::{Memory, IMAGE_BYTES};
pub use run::{Burst, Stop};
pub use status::{
    ADFEQL, ADFGBL, ADFNEG, ADFOVF, EXR_BYTE_MASK, EXR_WORD_MASK, MAX_INST, MEMORY_WORDS,
};
