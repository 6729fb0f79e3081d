//! The executor: bursts of instructions under the mode latch.
use vstd::prelude::*;
use crate::cpu::{Cpu, Mode};
use crate::decode::spec_decode;
use crate::memory::{machine, Machine, Memory};
use crate::status::MAX_INST;

verus! {

/// Why a burst ended.
#[derive(Clone, Copy, Debug, PartialEq, Eq, Structural)]
pub enum Stop {
    /// The executor found the machine halted; the register trace is due.
    Halted,
    /// The one instruction of single-step mode has retired.
    Stepped,
    /// The burst has used up its instructions; the machine is still
    /// running.
    Yielded,
}

/// What a burst did.
#[derive(Clone, Copy, Debug, PartialEq, Eq, Structural)]
pub struct Burst {
    pub stop: Stop,
    /// Number of instructions retired.
    pub retired: i32,
}

/// A burst as a value: the machine it leaves, why it ended and how many
/// instructions it retired.
pub struct Outcome {
    pub machine: Machine,
    pub stop: Stop,
    pub retired: int,
}

/// A burst of at most `budget` instructions. A halted machine does
/// nothing; in single-step mode one instruction retires; a running machine
/// retires instructions until it halts or the budget is used up.
pub open spec fn spec_run(s: Machine, budget: nat) -> Outcome
    decreases budget,
{
    if s.cpu.mode == Mode::HALT {
        Outcome { machine: s, stop: Stop::Halted, retired: 0 }
    } else if budget == 0 {
        Outcome { machine: s, stop: Stop::Yielded, retired: 0 }
    } else if s.cpu.mode == Mode::STEP {
        Outcome { machine: spec_decode(s), stop: Stop::Stepped, retired: 1 }
    } else {
        let rest = spec_run(spec_decode(s), (budget - 1) as nat);
        Outcome { retired: rest.retired + 1, ..rest }
    }
}

/// One call of the executor: a burst of at most `MAX_INST` instructions.
pub open spec fn spec_execute(s: Machine) -> Outcome {
    spec_run(s, MAX_INST as nat)
}

/// A burst retires no more instructions than its budget. It ends as halted
/// only with the machine halted, and as yielded only with the budget used
/// up and the machine not halted.
pub proof fn law_burst_is_bounded(s: Machine, budget: nat)
    ensures
        0 <= spec_run(s, budget).retired <= budget,
        spec_run(s, budget).stop == Stop::Halted ==> spec_run(s, budget).machine.cpu.mode
            == Mode::HALT,
        spec_run(s, budget).stop == Stop::Yielded ==> spec_run(s, budget).retired == budget
            && spec_run(s, budget).machine.cpu.mode != Mode::HALT,
    decreases budget,
{
    if s.cpu.mode == Mode::RUN && budget > 0 {
        law_burst_is_bounded(spec_decode(s), (budget - 1) as nat);
    }
}

impl Cpu {
    /// Runs one burst and says how it ended. The caller emits the register
    /// trace when the burst ends with `Stop::Halted`.
    pub fn execute(&mut self, memory: &mut Memory) -> (burst: Burst)
        ensures
            machine(*final(self), *final(memory)) == spec_execute(
                machine(*old(self), *old(memory)),
            ).machine,
            burst.stop == spec_execute(machine(*old(self), *old(memory))).stop,
            burst.retired == spec_execute(machine(*old(self), *old(memory))).retired,
    {
        let mut inst_counter: i32 = 0;
        loop
            invariant
                0 <= inst_counter <= MAX_INST,
                spec_execute(machine(*old(self), *old(memory))).machine == spec_run(
                    machine(*self, *memory),
                    (MAX_INST - inst_counter) as nat,
                ).machine,
                spec_execute(machine(*old(self), *old(memory))).stop == spec_run(
                    machine(*self, *memory),
                    (MAX_INST - inst_counter) as nat,
                ).stop,
                spec_execute(machine(*old(self), *old(memory))).retired == spec_run(
                    machine(*self, *memory),
                    (MAX_INST - inst_counter) as nat,
                ).retired + inst_counter,
            decreases MAX_INST - inst_counter,
        {
            match self.mode {
                Mode::HALT => {
                    return Burst { stop: Stop::Halted, retired: inst_counter };
                },
                Mode::STEP => {
                    if inst_counter == MAX_INST {
                        return Burst { stop: Stop::Yielded, retired: inst_counter };
                    }
                    self.decode(memory);
                    return Burst { stop: Stop::Stepped, retired: inst_counter + 1 };
                },
                Mode::RUN => {
                    if inst_counter == MAX_INST {
                        return Burst { stop: Stop::Yielded, retired: inst_counter };
                    }
                    self.decode(memory);
                },
            }
            inst_counter += 1;
        }
    }
}

} // verus!
