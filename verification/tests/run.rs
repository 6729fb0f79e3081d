use rustheon::{Cpu, Fault, Memory, Mode, Stop, MAX_INST};

#[test]
fn halted_machine_retires_nothing() {
    let mut cpu = Cpu::new();
    let mut memory = Memory::new();
    memory.write(0, 0x0110);
    cpu.acr = 5;
    let burst = cpu.execute(&mut memory);
    assert_eq!(burst.stop, Stop::Halted);
    assert_eq!(burst.retired, 0);
    assert_eq!(cpu.acr, 5);
    assert_eq!(cpu.pcr, 0);
}

#[test]
fn step_mode_retires_exactly_one_instruction() {
    let mut cpu = Cpu::new();
    let mut memory = Memory::new();
    memory.write(0, 0x0110);
    memory.write(1, 0x0130);
    cpu.acr = 5;
    cpu.mode = Mode::STEP;
    let burst = cpu.execute(&mut memory);
    assert_eq!(burst.stop, Stop::Stepped);
    assert_eq!(burst.retired, 1);
    assert_eq!(cpu.acr, 0);
    assert_eq!(cpu.pcr, 1);
    assert_eq!(cpu.mode, Mode::STEP);
    let burst = cpu.execute(&mut memory);
    assert_eq!(burst.stop, Stop::Stepped);
    assert_eq!(cpu.acr, -1);
    assert_eq!(cpu.pcr, 2);
}

#[test]
fn run_mode_runs_to_the_halt() {
    let mut cpu = Cpu::new();
    let mut memory = Memory::new();
    memory.write(0, 0x8010u16 as i16);
    memory.write(1, 0xA011u16 as i16);
    memory.write(2, 0x7012);
    memory.write(3, 0x0000);
    memory.write(0x10, 5);
    memory.write(0x11, 7);
    cpu.mode = Mode::RUN;
    let burst = cpu.execute(&mut memory);
    assert_eq!(burst.stop, Stop::Halted);
    assert_eq!(burst.retired, 4);
    assert_eq!(memory.read(0x12), 12);
    assert_eq!(cpu.acr, 12);
    assert_eq!(cpu.pcr, 3);
    assert_eq!(cpu.mode, Mode::HALT);
    assert_eq!(cpu.fault, Fault::Clean);
}

#[test]
fn run_mode_counts_a_loop_down() {
    let mut cpu = Cpu::new();
    let mut memory = Memory::new();
    memory.write(0, 0x0501);
    memory.write(1, 0x1000);
    memory.write(2, 0x0000);
    cpu.ixr = 3;
    cpu.mode = Mode::RUN;
    let burst = cpu.execute(&mut memory);
    assert_eq!(burst.stop, Stop::Halted);
    assert_eq!(burst.retired, 8);
    assert_eq!(cpu.ixr, -1);
    assert_eq!(cpu.pcr, 2);
}

#[test]
fn run_mode_yields_after_a_thousand_instructions() {
    let mut cpu = Cpu::new();
    let mut memory = Memory::new();
    memory.write(0, 0x0401);
    memory.write(1, 0x1000);
    memory.write(2, 0x1000);
    cpu.mode = Mode::RUN;
    let burst = cpu.execute(&mut memory);
    assert_eq!(MAX_INST, 1000);
    assert_eq!(burst.stop, Stop::Yielded);
    assert_eq!(burst.retired, 1000);
    assert_eq!(cpu.mode, Mode::RUN);
    assert_eq!(cpu.ixr, 500);
    assert_eq!(cpu.pcr, 0);
    let burst = cpu.execute(&mut memory);
    assert_eq!(burst.stop, Stop::Yielded);
    assert_eq!(burst.retired, 1000);
    assert_eq!(cpu.ixr, 1000);
}

#[test]
fn illegal_instruction_ends_the_run() {
    let mut cpu = Cpu::new();
    let mut memory = Memory::new();
    memory.write(0, 0x0110);
    memory.write(1, 0x0F00);
    memory.write(2, 0x0120);
    cpu.mode = Mode::RUN;
    let burst = cpu.execute(&mut memory);
    assert_eq!(burst.stop, Stop::Halted);
    assert_eq!(burst.retired, 2);
    assert_eq!(cpu.mode, Mode::HALT);
    assert_eq!(cpu.fault, Fault::IllegalInstruction);
    assert_eq!(cpu.pcr, 2);
}

#[test]
fn sense_switch_skip_ends_the_run() {
    let mut cpu = Cpu::new();
    let mut memory = Memory::new();
    memory.write(0, 0x08B0);
    cpu.mode = Mode::RUN;
    let burst = cpu.execute(&mut memory);
    assert_eq!(burst.stop, Stop::Halted);
    assert_eq!(burst.retired, 1);
    assert_eq!(cpu.fault, Fault::NotImplemented);
    assert_eq!(cpu.pcr, 1);
}

#[test]
fn step_that_halts_is_reported_as_a_step() {
    let mut cpu = Cpu::new();
    let mut memory = Memory::new();
    cpu.mode = Mode::STEP;
    let burst = cpu.execute(&mut memory);
    assert_eq!(burst.stop, Stop::Stepped);
    assert_eq!(burst.retired, 1);
    assert_eq!(cpu.mode, Mode::HALT);
    let burst = cpu.execute(&mut memory);
    assert_eq!(burst.stop, Stop::Halted);
    assert_eq!(burst.retired, 0);
}
