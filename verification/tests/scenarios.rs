use rustheon::{Cpu, Fault, Memory, Mode, Stop, ADFGBL, ADFOVF};

#[test]
fn halt_in_run_mode_retires_one_instruction() {
    let mut cpu = Cpu::new();
    let mut memory = Memory::new();
    memory.write(0, 0x0000);
    cpu.mode = Mode::RUN;
    let burst = cpu.execute(&mut memory);
    assert_eq!(burst.stop, Stop::Halted);
    assert_eq!(burst.retired, 1);
    assert_eq!(cpu.mode, Mode::HALT);
    assert_eq!(cpu.pcr, 0);
    assert_eq!(cpu.fault, Fault::Clean);
}

#[test]
fn add_without_overflow() {
    let mut cpu = Cpu::new();
    let mut memory = Memory::new();
    memory.write(0, 0xA001u16 as i16);
    memory.write(1, 0x0002);
    cpu.acr = 3;
    cpu.mode = Mode::STEP;
    let burst = cpu.execute(&mut memory);
    assert_eq!(burst.stop, Stop::Stepped);
    assert_eq!(burst.retired, 1);
    assert_eq!(cpu.acr, 5);
    assert_eq!(cpu.status & ADFOVF, 0);
    assert_eq!(cpu.pcr, 1);
}

#[test]
fn ixs_skips_when_index_becomes_non_negative() {
    let mut cpu = Cpu::new();
    let mut memory = Memory::new();
    memory.write(0, 0x04FF);
    cpu.ixr = -200;
    cpu.mode = Mode::STEP;
    cpu.execute(&mut memory);
    assert_eq!(cpu.ixr, 55);
    assert_eq!(cpu.pcr, 2);
}

#[test]
fn add_with_overflow_wraps_and_sets_ovf() {
    let mut cpu = Cpu::new();
    let mut memory = Memory::new();
    memory.write(0, 0xA001u16 as i16);
    memory.write(1, 0x0001);
    cpu.acr = 0x7FFF;
    cpu.mode = Mode::STEP;
    cpu.execute(&mut memory);
    assert_eq!(cpu.acr, 0x8000u16 as i16);
    assert_eq!(cpu.status & ADFOVF, ADFOVF);
    assert_eq!(cpu.pcr, 1);
}

#[test]
fn interrupt_on_level_five_and_return() {
    let mut cpu = Cpu::new();
    let mut memory = Memory::new();
    // A skip that is not taken, at address 0x40, then the handler at 0x100
    // returns at once.
    memory.write(0x40, 0x0820);
    memory.write(20, 0);
    memory.write(21, 0x100);
    memory.write(22, 0);
    memory.write(0x100, 0x0015);
    cpu.pcr = 0x40;
    cpu.status = 0x4200;
    cpu.int_enb = 1 << 5;
    cpu.raise(5);
    assert_eq!(cpu.int_req, 1 << 5);
    cpu.decode(&mut memory);
    assert_eq!(cpu.pcr, 0x100);
    assert_eq!(memory.read(20), 0x41);
    assert_eq!(memory.read(22), 0x4200);
    assert_eq!(cpu.int_act, 1 << 5);
    assert_eq!(cpu.int_req, 0);
    assert_eq!(cpu.status, 0x4200 | ADFGBL);
    cpu.decode(&mut memory);
    assert_eq!(cpu.pcr, 0x41);
    assert_eq!(cpu.status, 0x4200);
    assert_eq!(cpu.int_act, 0);
}

#[test]
fn stb_left_stores_low_byte_of_accumulator() {
    let mut cpu = Cpu::new();
    let mut memory = Memory::new();
    // Byte address 0x30 is the left byte of word 0x18.
    memory.write(0, 0x3030);
    memory.write(0x18, 0x0000);
    cpu.acr = 0x55FF;
    cpu.mode = Mode::STEP;
    cpu.execute(&mut memory);
    assert_eq!(memory.read(0x18), 0xFF00u16 as i16);
    assert_eq!(cpu.mar, 0x18);
    assert_eq!(cpu.acr, 0x55FF);
}

#[test]
fn stb_displacement_is_a_byte_address() {
    let mut cpu = Cpu::new();
    let mut memory = Memory::new();
    // Displacement 0x18 is byte 0x18: the left byte of word 0x0C.
    memory.write(0, 0x3018);
    cpu.acr = 0x55FF;
    cpu.mode = Mode::STEP;
    cpu.execute(&mut memory);
    assert_eq!(memory.read(0x0C), 0xFF00u16 as i16);
    assert_eq!(memory.read(0x18), 0x0000);
    assert_eq!(cpu.mar, 0x0C);
}

#[test]
fn sla_into_the_sign_bit_overflows() {
    let mut cpu = Cpu::new();
    cpu.acr = 0x4000;
    cpu.mbr = 0x0911;
    cpu.sla();
    assert_eq!(cpu.acr, 0x8000u16 as i16);
    assert_eq!(cpu.status & ADFOVF, ADFOVF);
}

#[test]
fn indexed_byte_store_with_index_one_hits_right_byte_of_word_zero() {
    let mut cpu = Cpu::new();
    let mut memory = Memory::new();
    memory.write(0, 0x1234);
    cpu.acr = 0x00AB;
    cpu.ixr = 1;
    cpu.mbr = 0x3800;
    cpu.stb(&mut memory);
    assert_eq!(memory.read(0), 0x12AB);
    assert_eq!(cpu.mar, 0);
}

#[test]
fn add_of_largest_word_and_one() {
    let mut cpu = Cpu::new();
    let mut memory = Memory::new();
    memory.write(7, 1);
    cpu.acr = 0x7FFF;
    cpu.mbr = 0xA007;
    cpu.add(&mut memory);
    assert_eq!(cpu.acr, 0x8000u16 as i16);
    assert_eq!(cpu.status & ADFOVF, ADFOVF);
}
