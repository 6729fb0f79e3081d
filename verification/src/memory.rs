//! Core memory: 32,768 signed 16-bit words.
//!
//! The lowest 64 words hold the interrupt vectors, four words for each
//! level: the saved program counter, the handler's address, the saved
//! status, and one unused word.
//!
//! A memory image is a snapshot of memory as 65,536 bytes, two to the word,
//! the high byte first.
use vstd::prelude::*;
use crate::cpu::Cpu;
use crate::status::MEMORY_WORDS;
use crate::word::{
    get_left_byte, get_right_byte, left_byte, lemma_pack_inverse, pack, pack_bytes, right_byte,
};

verus! {

/// Number of bytes in a memory image.
pub const IMAGE_BYTES: usize = 65536;

/// Offset, in a vector, of the address of the handler.
pub const VECTOR_LINK: usize = 1;

/// Offset, in a vector, of the saved status.
pub const VECTOR_STATUS: usize = 2;

/// Core memory.
pub struct Memory {
    pub core: [i16; 32768],
}

impl View for Memory {
    type V = Seq<i16>;

    open spec fn view(&self) -> Seq<i16> {
        self.core@
    }
}

/// The whole machine as a value: the registers and the contents of memory.
pub struct Machine {
    pub cpu: Cpu,
    pub mem: Seq<i16>,
}

/// The machine made of a processor and a memory.
pub open spec fn machine(cpu: Cpu, memory: Memory) -> Machine {
    Machine { cpu, mem: memory@ }
}

/// Address of the first of the four vector words of an interrupt level.
pub open spec fn vector_base(level: int) -> int {
    4 * level
}

/// The contents of memory that an image holds.
pub open spec fn spec_from_image(image: Seq<u8>) -> Seq<i16> {
    Seq::new(32768, |i: int| pack(image[2 * i], image[2 * i + 1]))
}

/// The image of the contents of memory.
pub open spec fn spec_to_image(mem: Seq<i16>) -> Seq<u8> {
    Seq::new(
        65536,
        |k: int|
            if k % 2 == 0 {
                left_byte(mem[k / 2])
            } else {
                right_byte(mem[k / 2])
            },
    )
}

/// Writing an image and reading it back loses nothing, either way round.
pub proof fn law_image_round_trip(mem: Seq<i16>, image: Seq<u8>)
    ensures
        mem.len() == 32768 ==> spec_from_image(spec_to_image(mem)) == mem,
        image.len() == 65536 ==> spec_to_image(spec_from_image(image)) == image,
{
    if mem.len() == 32768 {
        assert forall|i: int| 0 <= i < 32768 implies spec_from_image(spec_to_image(mem))[i]
            == mem[i] by {
            lemma_pack_inverse(mem[i], 0, 0);
        }
        assert(spec_from_image(spec_to_image(mem)) =~= mem);
    }
    if image.len() == 65536 {
        assert forall|k: int| 0 <= k < 65536 implies spec_to_image(spec_from_image(image))[k]
            == image[k] by {
            let i = k / 2;
            lemma_pack_inverse(0, image[2 * i], image[2 * i + 1]);
        }
        assert(spec_to_image(spec_from_image(image)) =~= image);
    }
}

impl Memory {
    /// A memory of zeros.
    pub fn new() -> (m: Memory)
        ensures
            m@.len() == 32768,
            forall|i: int| 0 <= i < 32768 ==> m@[i] == 0,
    {
        Memory { core: [0i16; 32768] }
    }

    /// The memory that an image holds, if the image has the right size.
    pub fn from_image(image: &[u8]) -> (loaded: Option<Memory>)
        ensures
            loaded is Some <==> image@.len() == IMAGE_BYTES,
            loaded matches Some(memory) ==> memory@ == spec_from_image(image@),
    {
        if image.len() != IMAGE_BYTES {
            return None;
        }
        let mut memory = Memory::new();
        let mut addr: usize = 0;
        while addr < MEMORY_WORDS
            invariant
                addr <= MEMORY_WORDS,
                image@.len() == IMAGE_BYTES,
                forall|i: int|
                    0 <= i < addr ==> #[trigger] memory@[i] == pack(
                        image@[2 * i],
                        image@[2 * i + 1],
                    ),
            decreases MEMORY_WORDS - addr,
        {
            memory.write(addr, pack_bytes(image[2 * addr], image[2 * addr + 1]));
            addr += 1;
        }
        assert(memory@ =~= spec_from_image(image@));
        Some(memory)
    }

    /// The image of this memory.
    pub fn to_image(&self) -> (image: Vec<u8>)
        ensures
            image@ == spec_to_image(self@),
    {
        let mut image: Vec<u8> = Vec::new();
        let mut addr: usize = 0;
        while addr < MEMORY_WORDS
            invariant
                addr <= MEMORY_WORDS,
                image@.len() == 2 * addr,
                forall|k: int| 0 <= k < 2 * addr ==> #[trigger] image@[k] == spec_to_image(self@)[k],
            decreases MEMORY_WORDS - addr,
        {
            let w = self.core[addr];
            image.push(get_left_byte(w));
            image.push(get_right_byte(w));
            addr += 1;
        }
        assert(image@ =~= spec_to_image(self@));
        image
    }

    /// The word at `addr`.
    pub fn read(&self, addr: usize) -> (w: i16)
        requires
            addr < MEMORY_WORDS,
        ensures
            w == self@[addr as int],
    {
        self.core[addr]
    }

    /// Stores `w` at `addr`.
    pub fn write(&mut self, addr: usize, w: i16)
        requires
            addr < MEMORY_WORDS,
        ensures
            final(self)@ == old(self)@.update(addr as int, w),
    {
        self.core[addr] = w;
    }
}

} // verus!
