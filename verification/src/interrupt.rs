//! The priority interrupt controller.
//!
//! Sixteen levels, level 15 the highest. A level is taken at an instruction
//! boundary when it is requested and enabled, interrupts are not masked,
//! and no higher level is active.
use vstd::prelude::*;
use crate::cpu::{level_bit, Cpu};
use crate::memory::{machine, vector_base, Machine, Memory, VECTOR_LINK, VECTOR_STATUS};
use crate::status::ADFGBL;
use crate::word::{bits, to_bits, to_word, word};

verus! {

/// The bit of `level` is set in the interrupt register `map`.
pub open spec fn has_level(map: u16, level: int) -> bool {
    map & level_bit(level) != 0
}

/// `level` may interrupt: it is enabled and requested, interrupts are not
/// masked, and no higher level is active.
pub open spec fn eligible(c: Cpu, level: int) -> bool {
    &&& 0 <= level < 16
    &&& !c.int_masked
    &&& has_level(c.int_enb, level)
    &&& has_level(c.int_req, level)
    &&& forall|higher: int| level < higher < 16 ==> !has_level(c.int_act, higher)
}

/// `level` is the highest level that may interrupt.
pub open spec fn is_pending(c: Cpu, level: int) -> bool {
    &&& eligible(c, level)
    &&& forall|higher: int| level < higher < 16 ==> !eligible(c, higher)
}

/// The level that interrupts at the next boundary, if any does.
pub open spec fn pending_level(c: Cpu) -> Option<int> {
    if exists|level: int| is_pending(c, level) {
        Some(choose|level: int| is_pending(c, level))
    } else {
        None
    }
}

/// Entry to `level`: the level becomes active and its request is dropped;
/// program counter and status are saved in its vector; addressing becomes
/// global; control passes to the handler named in the vector.
pub open spec fn spec_process_interrupt(c: Cpu, mem: Seq<i16>, level: int) -> Machine {
    let base = vector_base(level);
    Machine {
        cpu: Cpu {
            int_act: c.int_act | level_bit(level),
            int_req: c.int_req & !level_bit(level),
            status: c.status | ADFGBL,
            pcr: bits(mem[base + 1]),
            ..c
        },
        mem: mem.update(base, word(c.pcr)).update(base + 2, word(c.status)),
    }
}

/// The interrupt check at an instruction boundary: the pending level, if
/// there is one, is entered.
pub open spec fn spec_check_interrupts(c: Cpu, mem: Seq<i16>) -> Machine {
    match pending_level(c) {
        Some(level) => spec_process_interrupt(c, mem, level),
        None => Machine { cpu: c, mem },
    }
}

/// At most one level is pending, and `pending_level` names it.
pub proof fn lemma_pending_level(c: Cpu, level: int)
    ensures
        is_pending(c, level) <==> pending_level(c) == Some(level),
        (forall|l: int| !eligible(c, l)) ==> pending_level(c) is None,
{
    if is_pending(c, level) {
        let chosen = choose|l: int| is_pending(c, l);
        assert(is_pending(c, chosen));
        if chosen < level {
            assert(!eligible(c, level));
        }
        if level < chosen {
            assert(!eligible(c, chosen));
        }
    }
}

/// An empty interrupt register holds no level.
pub proof fn lemma_no_level(bit: u16)
    ensures
        0u16 & bit == 0,
{
    assert(0u16 & bit == 0) by (bit_vector);
}

impl Cpu {
    /// Enters the pending interrupt level, if there is one.
    pub fn check_interrupts(&mut self, memory: &mut Memory)
        ensures
            machine(*final(self), *final(memory)) == spec_check_interrupts(
                *old(self),
                old(memory)@,
            ),
    {
        if self.int_masked || (self.int_enb == 0) || (self.int_req == 0) {
            proof {
                assert forall|l: int| !eligible(*self, l) by {
                    lemma_no_level(level_bit(l));
                }
                lemma_pending_level(*self, 0);
            }
            return ;
        }
        let mut level: i32 = 15;
        while level >= 0
            invariant
                -1 <= level <= 15,
                *self == *old(self),
                *memory == *old(memory),
                !self.int_masked,
                forall|higher: int|
                    level < higher < 16 ==> !has_level(self.int_act, higher) && !(has_level(
                        self.int_req,
                        higher,
                    ) && has_level(self.int_enb, higher)),
            decreases level + 1,
        {
            let bit: u16 = 0x0001u16 << level;
            if (self.int_req & bit != 0) && (self.int_enb & bit != 0) {
                proof {
                    assert(is_pending(*self, level as int));
                    lemma_pending_level(*self, level as int);
                }
                self.process_interrupt(memory, level);
                return ;
            }
            if self.int_act & bit != 0 {
                proof {
                    assert forall|l: int| !eligible(*self, l) by {
                        if 0 <= l < level {
                            assert(has_level(self.int_act, level as int));
                        }
                    }
                    lemma_pending_level(*self, 0);
                }
                return ;
            }
            level -= 1;
        }
        proof {
            assert forall|l: int| !eligible(*self, l) by {}
            lemma_pending_level(*self, 0);
        }
    }

    /// Enters the interrupt level `level`.
    pub fn process_interrupt(&mut self, memory: &mut Memory, level: i32)
        requires
            0 <= level < 16,
        ensures
            machine(*final(self), *final(memory)) == spec_process_interrupt(
                *old(self),
                old(memory)@,
                level as int,
            ),
    {
        self.int_act = self.int_act | (0x0001u16 << level);
        self.int_req = self.int_req & !(0x0001u16 << level);
        let base: usize = (level * 4) as usize;
        memory.core[base] = to_word(self.pcr);
        memory.core[base + VECTOR_STATUS] = to_word(self.status);
        self.status = self.status | ADFGBL;
        self.pcr = to_bits(memory.core[base + VECTOR_LINK]);
    }
}

} // verus!
