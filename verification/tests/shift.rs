use rustheon::{Cpu, Fault, Mode, ADFEQL, ADFOVF};

#[test]
fn sra_keeps_the_sign() {
    let mut cpu = Cpu::new();
    cpu.acr = -8;
    cpu.mbr = 0x0902;
    cpu.sra();
    assert_eq!(cpu.acr, -2);
    cpu.acr = 0x4000;
    cpu.mbr = 0x090E;
    cpu.sra();
    assert_eq!(cpu.acr, 1);
    cpu.acr = -1;
    cpu.mbr = 0x090F;
    cpu.sra();
    assert_eq!(cpu.acr, -1);
}

#[test]
fn sla_without_overflow_clears_ovf() {
    let mut cpu = Cpu::new();
    cpu.acr = 3;
    cpu.mbr = 0x0912;
    cpu.status = ADFOVF | ADFEQL;
    cpu.sla();
    assert_eq!(cpu.acr, 12);
    assert_eq!(cpu.status, ADFEQL);
}

#[test]
fn sla_by_zero_only_clears_ovf() {
    let mut cpu = Cpu::new();
    cpu.acr = 0x4321;
    cpu.ixr = 0x1111;
    cpu.mbr = 0x0910;
    cpu.status = ADFOVF | ADFEQL;
    cpu.sla();
    assert_eq!(cpu.acr, 0x4321);
    assert_eq!(cpu.ixr, 0x1111);
    assert_eq!(cpu.status, ADFEQL);
}

#[test]
fn sla_of_negative_number_without_overflow() {
    let mut cpu = Cpu::new();
    cpu.acr = -1;
    cpu.mbr = 0x0913;
    cpu.sla();
    assert_eq!(cpu.acr, -8);
    assert_eq!(cpu.status, 0);
}

#[test]
fn sla_overflow_in_a_later_step() {
    let mut cpu = Cpu::new();
    cpu.acr = 0x2000;
    cpu.mbr = 0x0912;
    cpu.sla();
    assert_eq!(cpu.acr, 0x8000u16 as i16);
    assert_eq!(cpu.status, ADFOVF);
}

#[test]
fn sla_overflow_is_kept_through_later_steps() {
    let mut cpu = Cpu::new();
    cpu.acr = 0x4000;
    cpu.mbr = 0x0913;
    cpu.sla();
    assert_eq!(cpu.acr, 0);
    assert_eq!(cpu.status, ADFOVF);
}

#[test]
fn srad_shifts_accumulator_into_index() {
    let mut cpu = Cpu::new();
    cpu.acr = 0x0001;
    cpu.ixr = 0x0000;
    cpu.mbr = 0x0924;
    cpu.srad();
    assert_eq!(cpu.acr, 0);
    assert_eq!(cpu.ixr, 0x1000);
}

#[test]
fn srad_keeps_the_sign() {
    let mut cpu = Cpu::new();
    cpu.acr = -1;
    cpu.ixr = 0;
    cpu.mbr = 0x0928;
    cpu.srad();
    assert_eq!(cpu.acr, -1);
    assert_eq!(cpu.ixr, 0xFF00u16 as i16);
}

#[test]
fn slad_carries_from_index_into_accumulator() {
    let mut cpu = Cpu::new();
    cpu.acr = 0;
    cpu.ixr = 0x8000u16 as i16;
    cpu.mbr = 0x0931;
    cpu.status = ADFOVF;
    cpu.slad();
    assert_eq!(cpu.acr, 1);
    assert_eq!(cpu.ixr, 0);
    assert_eq!(cpu.status, 0);
}

#[test]
fn slad_into_the_sign_bit_overflows() {
    let mut cpu = Cpu::new();
    cpu.acr = 0x4000;
    cpu.ixr = 0x0001;
    cpu.mbr = 0x0931;
    cpu.slad();
    assert_eq!(cpu.acr, 0x8000u16 as i16);
    assert_eq!(cpu.ixr, 0x0002);
    assert_eq!(cpu.status, ADFOVF);
}

#[test]
fn slad_by_zero_only_clears_ovf() {
    let mut cpu = Cpu::new();
    cpu.acr = 0x4321;
    cpu.ixr = 0x8765u16 as i16;
    cpu.mbr = 0x0930;
    cpu.status = ADFOVF | ADFEQL;
    cpu.slad();
    assert_eq!(cpu.acr, 0x4321);
    assert_eq!(cpu.ixr, 0x8765u16 as i16);
    assert_eq!(cpu.status, ADFEQL);
}

#[test]
fn srl_and_sll_bring_zeros_in() {
    let mut cpu = Cpu::new();
    cpu.acr = 0x8000u16 as i16;
    cpu.mbr = 0x0A0F;
    cpu.srl();
    assert_eq!(cpu.acr, 1);
    cpu.mbr = 0x0A1F;
    cpu.sll();
    assert_eq!(cpu.acr, 0x8000u16 as i16);
    cpu.acr = 0x8001u16 as i16;
    cpu.mbr = 0x0A11;
    cpu.sll();
    assert_eq!(cpu.acr, 2);
}

#[test]
fn srld_and_slld_shift_the_double_word() {
    let mut cpu = Cpu::new();
    cpu.acr = 0x8000u16 as i16;
    cpu.ixr = 0x0001;
    cpu.mbr = 0x0A21;
    cpu.srld();
    assert_eq!(cpu.acr, 0x4000);
    assert_eq!(cpu.ixr, 0);
    cpu.acr = 0x0001;
    cpu.ixr = 0x8000u16 as i16;
    cpu.mbr = 0x0A31;
    cpu.slld();
    assert_eq!(cpu.acr, 3);
    assert_eq!(cpu.ixr, 0);
}

#[test]
fn src_and_slc_rotate_the_accumulator() {
    let mut cpu = Cpu::new();
    cpu.acr = 0x0001;
    cpu.mbr = 0x0A41;
    cpu.src();
    assert_eq!(cpu.acr, 0x8000u16 as i16);
    cpu.acr = 0x8001u16 as i16;
    cpu.mbr = 0x0A51;
    cpu.slc();
    assert_eq!(cpu.acr, 0x0003);
    cpu.acr = 0x1234;
    cpu.mbr = 0x0A44;
    cpu.src();
    assert_eq!(cpu.acr, 0x4123);
    cpu.acr = 0x1234;
    cpu.mbr = 0x0A54;
    cpu.slc();
    assert_eq!(cpu.acr, 0x2341);
    cpu.mbr = 0x0A50;
    cpu.slc();
    assert_eq!(cpu.acr, 0x2341);
}

#[test]
fn srcd_and_slcd_rotate_the_double_word() {
    let mut cpu = Cpu::new();
    cpu.acr = 0x1234;
    cpu.ixr = 0x5678;
    cpu.mbr = 0x0A64;
    cpu.srcd();
    assert_eq!(cpu.acr, 0x8123u16 as i16);
    assert_eq!(cpu.ixr, 0x4567);
    cpu.acr = 0x1234;
    cpu.ixr = 0x5678;
    cpu.mbr = 0x0A74;
    cpu.slcd();
    assert_eq!(cpu.acr, 0x2345);
    assert_eq!(cpu.ixr, 0x6781);
    cpu.mbr = 0x0A60;
    cpu.srcd();
    assert_eq!(cpu.acr, 0x2345);
    assert_eq!(cpu.ixr, 0x6781);
}

#[test]
fn left_byte_logical_shifts() {
    let mut cpu = Cpu::new();
    cpu.acr = 0xF0ABu16 as i16;
    cpu.mbr = 0x0A84;
    cpu.srll();
    assert_eq!(cpu.acr, 0x0FAB);
    cpu.mbr = 0x0A94;
    cpu.slll();
    assert_eq!(cpu.acr, 0xF0ABu16 as i16);
    cpu.mbr = 0x0A91;
    cpu.slll();
    assert_eq!(cpu.acr, 0xE0ABu16 as i16);
}

#[test]
fn right_byte_logical_shifts() {
    let mut cpu = Cpu::new();
    cpu.acr = 0xABF0u16 as i16;
    cpu.mbr = 0x0AA4;
    cpu.srlr();
    assert_eq!(cpu.acr, 0xAB0Fu16 as i16);
    cpu.mbr = 0x0AB4;
    cpu.sllr();
    assert_eq!(cpu.acr, 0xABF0u16 as i16);
    cpu.mbr = 0x0AB1;
    cpu.sllr();
    assert_eq!(cpu.acr, 0xABE0u16 as i16);
}

#[test]
fn byte_shift_by_eight_or_more_leaves_nothing() {
    let mut cpu = Cpu::new();
    cpu.acr = 0xF0ABu16 as i16;
    cpu.mbr = 0x0A88;
    cpu.srll();
    assert_eq!(cpu.acr, 0x00AB);
    cpu.acr = 0xF0ABu16 as i16;
    cpu.mbr = 0x0A9F;
    cpu.slll();
    assert_eq!(cpu.acr, 0x00AB);
    cpu.acr = 0xF0ABu16 as i16;
    cpu.mbr = 0x0AA9;
    cpu.srlr();
    assert_eq!(cpu.acr, 0xF000u16 as i16);
    cpu.acr = 0xF0ABu16 as i16;
    cpu.mbr = 0x0AB8;
    cpu.sllr();
    assert_eq!(cpu.acr, 0xF000u16 as i16);
}

#[test]
fn left_byte_rotations() {
    let mut cpu = Cpu::new();
    cpu.acr = 0x81ABu16 as i16;
    cpu.mbr = 0x0AC1;
    cpu.srcl();
    assert_eq!(cpu.acr, 0xC0ABu16 as i16);
    cpu.acr = 0x81ABu16 as i16;
    cpu.mbr = 0x0AD1;
    cpu.slcl();
    assert_eq!(cpu.acr, 0x03AB);
    cpu.acr = 0x81ABu16 as i16;
    cpu.mbr = 0x0AC9;
    cpu.srcl();
    assert_eq!(cpu.acr, 0xC0ABu16 as i16);
    cpu.acr = 0x81ABu16 as i16;
    cpu.mbr = 0x0AC8;
    cpu.srcl();
    assert_eq!(cpu.acr, 0x81ABu16 as i16);
}

#[test]
fn right_byte_rotations() {
    let mut cpu = Cpu::new();
    cpu.acr = 0xAB81u16 as i16;
    cpu.mbr = 0x0AE1;
    cpu.srcr();
    assert_eq!(cpu.acr, 0xABC0u16 as i16);
    cpu.acr = 0xAB81u16 as i16;
    cpu.mbr = 0x0AF1;
    cpu.slcr();
    assert_eq!(cpu.acr, 0xAB03u16 as i16);
    cpu.acr = 0xAB81u16 as i16;
    cpu.mbr = 0x0AFC;
    cpu.slcr();
    assert_eq!(cpu.acr, 0xAB18u16 as i16);
    cpu.acr = 0xAB81u16 as i16;
    cpu.mbr = 0x0AF0;
    cpu.slcr();
    assert_eq!(cpu.acr, 0xAB81u16 as i16);
}

#[test]
fn arithmetic_shifts_decode_by_second_digit() {
    let mut cpu = Cpu::new();
    cpu.acr = 3;
    cpu.mbr = 0x0912;
    cpu.decode_shift_arith();
    assert_eq!(cpu.acr, 12);
    cpu.mbr = 0x0901;
    cpu.decode_shift_arith();
    assert_eq!(cpu.acr, 6);
    cpu.ixr = 0;
    cpu.mbr = 0x0921;
    cpu.decode_shift_arith();
    assert_eq!(cpu.acr, 3);
    assert_eq!(cpu.ixr, 0);
    cpu.mbr = 0x0931;
    cpu.decode_shift_arith();
    assert_eq!(cpu.acr, 6);
    cpu.mode = Mode::RUN;
    cpu.mbr = 0x0941;
    cpu.decode_shift_arith();
    assert_eq!(cpu.acr, 6);
    assert_eq!(cpu.mode, Mode::HALT);
    assert_eq!(cpu.fault, Fault::IllegalInstruction);
}

#[test]
fn logical_shifts_decode_by_second_digit() {
    let mut cpu = Cpu::new();
    cpu.acr = 0x1234;
    cpu.ixr = 0x5678;
    cpu.mbr = 0x0A04;
    cpu.decode_shift_logical();
    assert_eq!(cpu.acr, 0x0123);
    cpu.mbr = 0x0A14;
    cpu.decode_shift_logical();
    assert_eq!(cpu.acr, 0x1230);
    cpu.mbr = 0x0A24;
    cpu.decode_shift_logical();
    assert_eq!(cpu.acr, 0x0123);
    assert_eq!(cpu.ixr, 0x0567);
    cpu.mbr = 0x0A34;
    cpu.decode_shift_logical();
    assert_eq!(cpu.acr, 0x1230);
    assert_eq!(cpu.ixr, 0x5670);
    cpu.mbr = 0x0A44;
    cpu.decode_shift_logical();
    assert_eq!(cpu.acr, 0x0123);
    cpu.mbr = 0x0A54;
    cpu.decode_shift_logical();
    assert_eq!(cpu.acr, 0x1230);
    cpu.mbr = 0x0A64;
    cpu.decode_shift_logical();
    assert_eq!(cpu.acr, 0x0123);
    assert_eq!(cpu.ixr, 0x0567);
    cpu.mbr = 0x0A74;
    cpu.decode_shift_logical();
    assert_eq!(cpu.acr, 0x1230);
    assert_eq!(cpu.ixr, 0x5670);
    cpu.mbr = 0x0A84;
    cpu.decode_shift_logical();
    assert_eq!(cpu.acr, 0x0130);
    cpu.mbr = 0x0A94;
    cpu.decode_shift_logical();
    assert_eq!(cpu.acr, 0x1030);
    cpu.mbr = 0x0AA4;
    cpu.decode_shift_logical();
    assert_eq!(cpu.acr, 0x1003);
    cpu.mbr = 0x0AB4;
    cpu.decode_shift_logical();
    assert_eq!(cpu.acr, 0x1030);
    cpu.mbr = 0x0AC4;
    cpu.decode_shift_logical();
    assert_eq!(cpu.acr, 0x0130);
    cpu.mbr = 0x0AD4;
    cpu.decode_shift_logical();
    assert_eq!(cpu.acr, 0x1030);
    cpu.mbr = 0x0AE4;
    cpu.decode_shift_logical();
    assert_eq!(cpu.acr, 0x1003);
    cpu.mbr = 0x0AF4;
    cpu.decode_shift_logical();
    assert_eq!(cpu.acr, 0x1030);
}
