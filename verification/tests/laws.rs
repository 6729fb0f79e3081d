use rustheon::{Cpu, Memory, ADFOVF};

#[test]
fn sla_multiplies_by_a_power_of_two() {
    let mut cpu = Cpu::new();
    cpu.acr = -3;
    cpu.mbr = 0x0914;
    cpu.sla();
    assert_eq!(cpu.acr, -48);
    assert_eq!(cpu.status, 0);
    cpu.acr = 1023;
    cpu.mbr = 0x0915;
    cpu.sla();
    assert_eq!(cpu.acr, 32736);
    assert_eq!(cpu.status, 0);
    cpu.acr = -1024;
    cpu.mbr = 0x0915;
    cpu.sla();
    assert_eq!(cpu.acr, -32768);
    assert_eq!(cpu.status, 0);
}

#[test]
fn sla_sets_ovf_exactly_when_the_product_does_not_fit() {
    let mut cpu = Cpu::new();
    // 1234 * 32 = 39488 = 65536 - 26048
    cpu.acr = 1234;
    cpu.mbr = 0x0915;
    cpu.sla();
    assert_eq!(cpu.acr, -26048);
    assert_eq!(cpu.status, ADFOVF);
    // -1025 * 32 = -32800 = -65536 + 32736
    cpu.acr = -1025;
    cpu.mbr = 0x0915;
    cpu.sla();
    assert_eq!(cpu.acr, 32736);
    assert_eq!(cpu.status, ADFOVF);
    // 1 * 2^15 = 32768 does not fit
    cpu.acr = 1;
    cpu.mbr = 0x091F;
    cpu.sla();
    assert_eq!(cpu.acr, -32768);
    assert_eq!(cpu.status, ADFOVF);
    // -1 * 2^15 = -32768 fits
    cpu.acr = -1;
    cpu.mbr = 0x091F;
    cpu.sla();
    assert_eq!(cpu.acr, -32768);
    assert_eq!(cpu.status, 0);
}

#[test]
fn slad_multiplies_the_double_word() {
    let mut cpu = Cpu::new();
    // 0x0001_8000 * 4 = 0x0006_0000
    cpu.acr = 1;
    cpu.ixr = 0x8000u16 as i16;
    cpu.mbr = 0x0932;
    cpu.slad();
    assert_eq!(cpu.acr, 6);
    assert_eq!(cpu.ixr, 0);
    assert_eq!(cpu.status, 0);
    // -1 * 2^15 = -32768 = 0xFFFF_8000
    cpu.acr = -1;
    cpu.ixr = -1;
    cpu.mbr = 0x093F;
    cpu.slad();
    assert_eq!(cpu.acr, -1);
    assert_eq!(cpu.ixr, 0x8000u16 as i16);
    assert_eq!(cpu.status, 0);
    // 0x0001_0000 * 2^15 = 2^31 does not fit
    cpu.acr = 1;
    cpu.ixr = 0;
    cpu.mbr = 0x093F;
    cpu.slad();
    assert_eq!(cpu.acr, -32768);
    assert_eq!(cpu.ixr, 0);
    assert_eq!(cpu.status, ADFOVF);
}

#[test]
fn rotating_there_and_back_restores_the_registers() {
    let mut cpu = Cpu::new();
    cpu.acr = 0xA5C3u16 as i16;
    cpu.ixr = 0x0F1E;
    let before = cpu;
    cpu.mbr = 0x0A5B;
    cpu.slc();
    assert_eq!(cpu.acr, 0x1D2E);
    cpu.mbr = 0x0A4B;
    cpu.src();
    assert_eq!(cpu.acr, before.acr);
    cpu.mbr = 0x0A6D;
    cpu.srcd();
    cpu.mbr = 0x0A7D;
    cpu.slcd();
    assert_eq!(cpu.acr, before.acr);
    assert_eq!(cpu.ixr, before.ixr);
}

#[test]
fn cxe_then_cex_leaves_the_index_alone() {
    let mut cpu = Cpu::new();
    cpu.status = 0x5780;
    cpu.ixr = 0xC5A5u16 as i16;
    cpu.cxe();
    assert_eq!(cpu.status, 0xC780);
    cpu.cex();
    assert_eq!(cpu.ixr, 0xC5A5u16 as i16);
}

#[test]
fn instructions_leave_foreign_status_bits_alone() {
    let mut cpu = Cpu::new();
    let mut memory = Memory::new();
    memory.write(0, 0xA010u16 as i16);
    memory.write(1, 0xF010u16 as i16);
    memory.write(2, 0x0710);
    memory.write(3, 0x0911);
    memory.write(4, 0x0040);
    memory.write(5, 0x0085);
    memory.write(0x10, 0x7FFF);
    cpu.status = 0x007F;
    cpu.acr = 0x4000;
    // ADD overflows: OVF only (the extension is already that of page 0).
    cpu.decode(&mut memory);
    assert_eq!(cpu.status, 0x017F);
    // CMW: -16385 is less: NEG only.
    cpu.decode(&mut memory);
    assert_eq!(cpu.status, 0x057F);
    // CLB: low byte 0xFF is -1, less than 16: NEG stays, nothing else.
    cpu.decode(&mut memory);
    assert_eq!(cpu.status, 0x057F);
    // SLA by one of 0xBFFF overflows: OVF stays set.
    cpu.decode(&mut memory);
    assert_eq!(cpu.status, 0x057F);
    // SLM: GBL was clear.
    cpu.decode(&mut memory);
    assert_eq!(cpu.status, 0x057F);
    // SML 5: the extension only.
    cpu.decode(&mut memory);
    assert_eq!(cpu.status, 0x2D7F);
}

#[test]
fn address_register_stays_in_memory() {
    let mut cpu = Cpu::new();
    let mut memory = Memory::new();
    memory.write(0, 0x8FFFu16 as i16);
    cpu.status = 0xF800;
    cpu.ixr = 32767;
    cpu.decode(&mut memory);
    assert!(cpu.mar < 32768);
    assert_eq!(cpu.mar, 0x7FFE);
    cpu.pcr = 0;
    cpu.status = 0xF880;
    memory.write(0, 0x5FFF);
    cpu.decode(&mut memory);
    assert!(cpu.mar < 32768);
}

#[test]
fn right_shifts_divide_rounding_down() {
    let mut cpu = Cpu::new();
    cpu.acr = -7;
    cpu.mbr = 0x0901;
    cpu.sra();
    assert_eq!(cpu.acr, -4);
    cpu.acr = 7;
    cpu.sra();
    assert_eq!(cpu.acr, 3);
    cpu.acr = -1;
    cpu.ixr = 0xFFEFu16 as i16;
    cpu.mbr = 0x0924;
    cpu.srad();
    assert_eq!(cpu.acr, -1);
    assert_eq!(cpu.ixr, -2);
    cpu.acr = -1;
    cpu.mbr = 0x0A04;
    cpu.srl();
    assert_eq!(cpu.acr, 0x0FFF);
    cpu.acr = -1;
    cpu.ixr = 0;
    cpu.mbr = 0x0A2C;
    cpu.srld();
    assert_eq!(cpu.acr, 0x000F);
    assert_eq!(cpu.ixr, 0xFFF0u16 as i16);
}

#[test]
fn logical_left_shift_leaves_the_same_bits_as_arithmetic() {
    let mut logical = Cpu::new();
    logical.acr = 0x5A5A;
    logical.ixr = 0x1234;
    logical.status = ADFOVF;
    let mut arithmetic = logical;
    logical.mbr = 0x0A13;
    logical.sll();
    arithmetic.mbr = 0x0913;
    arithmetic.sla();
    assert_eq!(logical.acr, arithmetic.acr);
    assert_eq!(logical.acr, 0xD2D0u16 as i16);
    assert_eq!(logical.status, ADFOVF);
    assert_eq!(arithmetic.status, ADFOVF);
    logical.mbr = 0x0A33;
    logical.slld();
    arithmetic.mbr = 0x0933;
    arithmetic.slad();
    assert_eq!(logical.acr, arithmetic.acr);
    assert_eq!(logical.ixr, arithmetic.ixr);
}
