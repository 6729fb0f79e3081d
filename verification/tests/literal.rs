use rustheon::{Cpu, Memory, Mode, ADFEQL, ADFNEG, ADFOVF};

#[test]
fn ixs_does_not_skip_while_index_is_negative() {
    let mut cpu = Cpu::new();
    cpu.mbr = 0x0405;
    cpu.ixr = -10;
    cpu.pcr = 7;
    cpu.ixs();
    assert_eq!(cpu.ixr, -5);
    assert_eq!(cpu.pcr, 7);
}

#[test]
fn ixs_skips_on_zero() {
    let mut cpu = Cpu::new();
    cpu.mbr = 0x0405;
    cpu.ixr = -5;
    cpu.pcr = 7;
    cpu.ixs();
    assert_eq!(cpu.ixr, 0);
    assert_eq!(cpu.pcr, 8);
}

#[test]
fn ixs_wraps_past_largest_word() {
    let mut cpu = Cpu::new();
    cpu.mbr = 0x04FF;
    cpu.ixr = 32767;
    cpu.pcr = 7;
    cpu.ixs();
    assert_eq!(cpu.ixr, -32514);
    assert_eq!(cpu.pcr, 7);
}

#[test]
fn dxs_skips_when_index_becomes_negative() {
    let mut cpu = Cpu::new();
    cpu.mbr = 0x0503;
    cpu.ixr = 2;
    cpu.pcr = 7;
    cpu.dxs();
    assert_eq!(cpu.ixr, -1);
    assert_eq!(cpu.pcr, 8);
}

#[test]
fn dxs_does_not_skip_on_zero() {
    let mut cpu = Cpu::new();
    cpu.mbr = 0x0503;
    cpu.ixr = 3;
    cpu.pcr = 7;
    cpu.dxs();
    assert_eq!(cpu.ixr, 0);
    assert_eq!(cpu.pcr, 7);
}

#[test]
fn dxs_wraps_past_most_negative_word() {
    let mut cpu = Cpu::new();
    cpu.mbr = 0x05FF;
    cpu.ixr = -32768;
    cpu.pcr = 7;
    cpu.dxs();
    assert_eq!(cpu.ixr, 32513);
    assert_eq!(cpu.pcr, 7);
}

#[test]
fn llb_merges_without_clearing() {
    let mut cpu = Cpu::new();
    cpu.mbr = 0x06F0;
    cpu.acr = 0x120F;
    cpu.llb();
    assert_eq!(cpu.acr, 0x12FF);
}

#[test]
fn clb_less_equal_greater() {
    let mut cpu = Cpu::new();
    cpu.mbr = 0x0710;
    cpu.acr = 0x550F;
    cpu.status = ADFEQL | ADFOVF;
    cpu.clb();
    assert_eq!(cpu.status, ADFNEG | ADFOVF);
    cpu.acr = 0x5510;
    cpu.clb();
    assert_eq!(cpu.status, ADFEQL | ADFOVF);
    cpu.acr = 0x5511;
    cpu.clb();
    assert_eq!(cpu.status, ADFOVF);
}

#[test]
fn clb_compares_as_signed_bytes() {
    let mut cpu = Cpu::new();
    cpu.mbr = 0x07FF;
    cpu.acr = 0x0001;
    cpu.clb();
    // 1 is greater than -1.
    assert_eq!(cpu.status, 0);
    cpu.mbr = 0x0701;
    cpu.acr = 0x00FF;
    cpu.clb();
    assert_eq!(cpu.status, ADFNEG);
}

#[test]
fn din_and_dot_retire_without_effect() {
    let mut cpu = Cpu::new();
    let mut memory = Memory::new();
    memory.write(0, 0x0205);
    memory.write(1, 0x0305);
    cpu.acr = 9;
    cpu.mode = Mode::RUN;
    cpu.decode(&mut memory);
    assert_eq!(cpu.pcr, 1);
    assert_eq!(cpu.acr, 9);
    assert_eq!(cpu.mode, Mode::RUN);
    cpu.decode(&mut memory);
    assert_eq!(cpu.pcr, 2);
    assert_eq!(cpu.acr, 9);
    assert_eq!(cpu.mode, Mode::RUN);
    let before = cpu;
    cpu.din();
    cpu.dot();
    cpu.decode_din();
    cpu.decode_dot();
    assert_eq!(cpu, before);
}

#[test]
fn index_and_literal_instructions_decode_by_instruction_register() {
    let mut cpu = Cpu::new();
    let mut memory = Memory::new();
    memory.write(0, 0x0403);
    memory.write(2, 0x0501);
    memory.write(3, 0x0634);
    memory.write(4, 0x0734);
    cpu.decode(&mut memory);
    assert_eq!(cpu.ixr, 3);
    assert_eq!(cpu.pcr, 2);
    cpu.decode(&mut memory);
    assert_eq!(cpu.ixr, 2);
    assert_eq!(cpu.pcr, 3);
    cpu.decode(&mut memory);
    assert_eq!(cpu.acr, 0x34);
    cpu.decode(&mut memory);
    assert_eq!(cpu.status, ADFEQL);
    assert_eq!(cpu.pcr, 5);
}
