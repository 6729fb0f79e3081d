//! Laws of the instruction set: what holds of every state, and how the
//! instructions relate to one another.
use vstd::arithmetic::power2::pow2;
use vstd::prelude::*;
use crate::address::{
    is_global, is_indexed, lemma_address_in_memory, spec_byte_address, spec_fetch,
    spec_word_address, word_operand,
};
use crate::cpu::{Cpu, Fault, Mode};
use crate::decode::{spec_decode, spec_dispatch};
use crate::generic::{level_field, spec_cex, spec_cxe, spec_inret};
use crate::interrupt::{
    eligible, has_level, lemma_pending_level, pending_level, spec_process_interrupt,
};
use crate::literal::{literal, spec_dxs, spec_ixs};
use crate::memory::{vector_base, Machine};
use crate::memref::{
    spec_add, spec_cmb, spec_cmw, spec_decode_mem_reference, spec_jmp, spec_jsx, spec_sub,
};
use crate::register::spec_cmp;
use crate::shift::{
    double_value, join, lemma_double_value, lemma_quotient, lemma_shift_left16,
    lemma_shift_left32, lemma_shift_right, rotate_left16, rotate_left32, rotate_right16,
    rotate_right32, shift_count, spec_decode_shift_arith, spec_decode_shift_logical, spec_sla,
    spec_slad, spec_slc, spec_slcd, spec_sll, spec_slld, spec_sra, spec_srad, spec_src, spec_srcd,
    spec_srl, spec_srld,
};
use crate::status::{
    changed_within, flag_set, lemma_flag_algebra, lemma_status_rewrites,
    lemma_status_rewrites_with_page, with_page, ADFEQL, ADFGBL, ADFNEG, ADFOVF,
    DISPLACEMENT_MASK, EXR_BYTE_MASK, INDEX_FLAG,
};
use crate::word::{
    bits, left_byte, lemma_bits_value, lemma_bits_word_inverse, lemma_field_widths,
    lemma_pack_inverse, lemma_wrap16_keeps_low_bits, right_byte, wrap16, wrap32,
};

verus! {

/// An address that is not indexed is the displacement within the page
/// that the extension field names: a page of 2048 words out of 16 for a
/// word, a page of 2048 bytes out of 32 for a byte.
pub proof fn law_addresses_are_paged(mbr: u16, status: u16, ixr: i16)
    requires
        !is_indexed(mbr),
    ensures
        spec_word_address(mbr, status, ixr) == mbr % 2048 + 2048 * ((status / 2048) % 16),
        spec_byte_address(mbr, status, ixr) == mbr % 2048 + 2048 * (status / 2048),
{
    assert((mbr & 0x07FF) | (status & (0xF000u16 >> 1)) == mbr % 2048 + 2048 * ((status / 2048)
        % 16) && (mbr & 0x07FF) | (status & 0xF800) == mbr % 2048 + 2048 * (status / 2048))
        by (bit_vector);
}

/// An indexed address in global mode is displacement plus index, within
/// memory; in local mode the page comes on top.
pub proof fn law_indexed_addresses(mbr: u16, status: u16, ixr: i16)
    requires
        is_indexed(mbr),
    ensures
        is_global(status) ==> spec_word_address(mbr, status, ixr) == (mbr % 2048 + ixr) % 0x8000,
        is_global(status) ==> spec_byte_address(mbr, status, ixr) == (mbr % 2048 + ixr) % 0x1_0000,
        !is_global(status) ==> spec_word_address(mbr, status, ixr) == (mbr % 2048 + 2048 * ((status
            / 2048) % 16) + ixr) % 0x8000,
        !is_global(status) ==> spec_byte_address(mbr, status, ixr) == (mbr % 2048 + 2048 * (status
            / 2048) + ixr) % 0x1_0000,
{
    assert((mbr & 0x07FF) | (status & (0xF000u16 >> 1)) == mbr % 2048 + 2048 * ((status / 2048)
        % 16) && (mbr & 0x07FF) | (status & 0xF800) == mbr % 2048 + 2048 * (status / 2048) && ((mbr
        & 0x07FF) | (status & (0xF000u16 >> 1))) & 0x07FF == mbr % 2048 && mbr & 0x07FF == mbr
        % 2048) by (bit_vector);
}

/// Addition and subtraction are exact whenever the exact result fits in a
/// word, and then clear OVF; otherwise they keep the low sixteen bits of
/// the exact result and set OVF.
pub proof fn law_add_sub_overflow(c: Cpu, mem: Seq<i16>)
    ensures
        ({
            let operand = word_operand(c, mem);
            let sum = c.acr + operand;
            let difference = c.acr - operand;
            &&& i16::MIN <= sum <= i16::MAX ==> spec_add(c, mem).acr == sum && !flag_set(
                spec_add(c, mem).status,
                ADFOVF,
            )
            &&& !(i16::MIN <= sum <= i16::MAX) ==> spec_add(c, mem).acr == wrap16(sum) && flag_set(
                spec_add(c, mem).status,
                ADFOVF,
            )
            &&& i16::MIN <= difference <= i16::MAX ==> spec_sub(c, mem).acr == difference
                && !flag_set(spec_sub(c, mem).status, ADFOVF)
            &&& !(i16::MIN <= difference <= i16::MAX) ==> spec_sub(c, mem).acr == wrap16(
                difference,
            ) && flag_set(spec_sub(c, mem).status, ADFOVF)
        }),
{
    lemma_flag_algebra(c.status, ADFOVF);
}

/// CXE followed by CEX leaves the index register as it was: its top five
/// bits come back from the extension field, and the rest was never touched.
pub proof fn law_cxe_cex_restores_index(c: Cpu)
    ensures
        spec_cex(spec_cxe(c)).ixr == c.ixr,
{
    let b = bits(c.ixr);
    let s = c.status;
    assert((b & !0xF800u16) | (((s & !0xF800u16) | (b & 0xF800u16)) & 0xF800u16) == b)
        by (bit_vector);
    lemma_bits_word_inverse(c.ixr, 0);
}

/// JSX and an indexed JMP with displacement zero are call and return: as
/// long as the index register and global mode are as JSX left them, the
/// JMP passes control to the instruction after the JSX.
pub proof fn law_jsx_jmp_returns(call: Cpu, ret: Cpu)
    requires
        ret.ixr == spec_jsx(call).ixr,
        is_global(ret.status),
        ret.mbr & INDEX_FLAG != 0,
        ret.mbr & DISPLACEMENT_MASK == 0,
    ensures
        is_global(spec_jsx(call).status),
        spec_jmp(ret).pcr == call.pcr % 0x8000,
{
    let m = ret.mbr;
    let s = ret.status;
    assert(m & 0x07FF == 0 ==> ((m & 0x07FF) | (s & (0xF000u16 >> 1))) & 0x07FF == 0)
        by (bit_vector);
    lemma_bits_value(0, call.pcr);
    lemma_flag_algebra(call.status, ADFGBL);
}

/// Entry to an interrupt level and INRET for that level are inverse on
/// program counter and status: as long as the two save words of the vector
/// are untouched in between, INRET brings both back bit for bit, and the
/// level is no longer active.
pub proof fn law_interrupt_return_restores(
    c: Cpu,
    mem: Seq<i16>,
    level: int,
    handler: Cpu,
    later: Seq<i16>,
)
    requires
        0 <= level < 16,
        mem.len() == 32768,
        level_field(handler.mbr) == level,
        later[vector_base(level)] == spec_process_interrupt(c, mem, level).mem[vector_base(level)],
        later[vector_base(level) + 2] == spec_process_interrupt(c, mem, level).mem[vector_base(
            level,
        ) + 2],
    ensures
        spec_inret(handler, later).pcr == c.pcr,
        spec_inret(handler, later).status == c.status,
        !has_level(spec_inret(handler, later).int_act, level),
{
    lemma_bits_word_inverse(0, c.pcr);
    lemma_bits_word_inverse(0, c.status);
    let act = handler.int_act;
    let l = level as u16;
    assert(1u16 << level == 1u16 << l);
    assert((act & !(1u16 << l)) & (1u16 << l) == 0) by (bit_vector);
}

/// A shift by zero changes neither the accumulator nor the index register,
/// whichever shift it is; SLA and SLAD still clear OVF.
pub proof fn law_shift_by_zero(c: Cpu)
    requires
        shift_count(c.mbr) == 0,
    ensures
        spec_decode_shift_arith(c).acr == c.acr,
        spec_decode_shift_arith(c).ixr == c.ixr,
        spec_decode_shift_logical(c).acr == c.acr,
        spec_decode_shift_logical(c).ixr == c.ixr,
        spec_sla(c) == (Cpu { status: c.status & !ADFOVF, ..c }),
        spec_slad(c) == (Cpu { status: c.status & !ADFOVF, ..c }),
{
    let a = bits(c.acr);
    let d = join(c.acr, c.ixr);
    let w = c.acr;
    let l = left_byte(c.acr);
    let r = right_byte(c.acr);
    assert(a << 0u16 == a && a >> 0u16 == a && w >> 0u16 == w) by (bit_vector);
    assert(d << 0u16 == d && d >> 0u16 == d && ((d as i32) >> 0u16) as u32 == d) by (bit_vector);
    assert(l >> 0u16 == l && l << 0u16 == l && r >> 0u16 == r && r << 0u16 == r) by (bit_vector);
    lemma_double_value(c.acr, c.ixr, d);
    lemma_pack_inverse(c.acr, 0, 0);
    lemma_bits_word_inverse(c.acr, 0);
}

/// SLA multiplies the accumulator by two to the power of the shift count:
/// the accumulator keeps the low sixteen bits of the product, and OVF is
/// set exactly if the product does not fit in a word.
pub proof fn law_sla_multiplies(c: Cpu)
    ensures
        ({
            let product = c.acr * pow2(shift_count(c.mbr) as nat);
            &&& spec_sla(c).acr == wrap16(product)
            &&& flag_set(spec_sla(c).status, ADFOVF) <==> !(i16::MIN <= product <= i16::MAX)
        }),
{
    lemma_field_widths(c.mbr);
    lemma_shift_left16(c.acr, shift_count(c.mbr));
    lemma_flag_algebra(c.status, ADFOVF);
    lemma_flag_algebra(c.status & !ADFOVF, ADFOVF);
}

/// SLAD multiplies the double word by two to the power of the shift count:
/// accumulator and index register keep the low thirty-two bits of the
/// product, and OVF is set exactly if the product does not fit in a double
/// word.
pub proof fn law_slad_multiplies(c: Cpu)
    ensures
        ({
            let product = double_value(c.acr, c.ixr) * pow2(shift_count(c.mbr) as nat);
            &&& double_value(spec_slad(c).acr, spec_slad(c).ixr) == wrap32(product)
            &&& flag_set(spec_slad(c).status, ADFOVF) <==> !(i32::MIN <= product <= i32::MAX)
        }),
{
    let d = join(c.acr, c.ixr);
    let count = shift_count(c.mbr);
    lemma_field_widths(c.mbr);
    lemma_shift_left32(d, count);
    lemma_double_value(c.acr, c.ixr, d << count);
    lemma_flag_algebra(c.status, ADFOVF);
    lemma_flag_algebra(c.status & !ADFOVF, ADFOVF);
}

/// The logical left shifts leave the same bits as the arithmetic ones; they
/// differ in leaving the status register alone.
pub proof fn law_left_shifts_agree(c: Cpu)
    ensures
        spec_sll(c) == (Cpu { status: c.status, ..spec_sla(c) }),
        spec_slld(c) == (Cpu { status: c.status, ..spec_slad(c) }),
{
}

/// The right shifts divide by two to the power of the shift count,
/// rounding down: SRA and SRAD divide the signed number, SRL and SRLD the
/// unsigned one.
pub proof fn law_right_shifts_divide(c: Cpu)
    ensures
        ({
            let p = pow2(shift_count(c.mbr) as nat) as int;
            &&& spec_sra(c).acr == (c.acr as int) / p
            &&& bits(spec_srl(c).acr) == (bits(c.acr) as int) / p
            &&& double_value(spec_srad(c).acr, spec_srad(c).ixr) == double_value(c.acr, c.ixr) / p
            &&& join(spec_srld(c).acr, spec_srld(c).ixr) == (join(c.acr, c.ixr) as int) / p
        }),
{
    let count = shift_count(c.mbr);
    let d = join(c.acr, c.ixr);
    let v = d as i32;
    lemma_field_widths(c.mbr);
    lemma_shift_right(c.acr, bits(c.acr), v, d, count);
    lemma_quotient(c.acr as int, count as nat, (c.acr >> count) as int);
    lemma_quotient(bits(c.acr) as int, count as nat, (bits(c.acr) >> count) as int);
    lemma_quotient(v as int, count as nat, (v >> count) as int);
    lemma_quotient(d as int, count as nat, (d >> count) as int);
    lemma_bits_word_inverse(0, bits(c.acr) >> count);
    lemma_double_value(c.acr, c.ixr, (v >> count) as u32);
    lemma_double_value(c.acr, c.ixr, d >> count);
    let r = v >> count;
    assert((r as u32) as i32 == r) by (bit_vector);
}

/// The arithmetic instructions store the low sixteen bits of the exact
/// result: what the accumulator or the index register holds afterwards
/// differs from the exact result by a multiple of 2^16.
pub proof fn law_stores_keep_low_bits(c: Cpu, mem: Seq<i16>)
    ensures
        ({
            let operand = word_operand(c, mem);
            &&& (spec_add(c, mem).acr - (c.acr + operand)) % 0x1_0000 == 0
            &&& (spec_sub(c, mem).acr - (c.acr - operand)) % 0x1_0000 == 0
            &&& (spec_cmp(c).acr - (-c.acr)) % 0x1_0000 == 0
            &&& (spec_ixs(c).ixr - (c.ixr + literal(c.mbr))) % 0x1_0000 == 0
            &&& (spec_dxs(c).ixr - (c.ixr - literal(c.mbr))) % 0x1_0000 == 0
        }),
{
    let operand = word_operand(c, mem);
    lemma_wrap16_keeps_low_bits(c.acr + operand);
    lemma_wrap16_keeps_low_bits(c.acr - operand);
    lemma_wrap16_keeps_low_bits(-c.acr);
    lemma_wrap16_keeps_low_bits(c.ixr + literal(c.mbr));
    lemma_wrap16_keeps_low_bits(c.ixr - literal(c.mbr));
}

/// A memory-reference instruction leaves an address inside memory in the
/// memory address register.
proof fn lemma_mem_reference_address(c: Cpu, mem: Seq<i16>)
    requires
        mem.len() == 32768,
    ensures
        spec_decode_mem_reference(c, mem).cpu.mar < 32768,
        spec_decode_mem_reference(c, mem).mem.len() == 32768,
{
    lemma_address_in_memory(c.mbr, c.status, c.ixr);
}

/// The instructions that refer to no operand in memory leave the memory
/// address register and memory alone.
proof fn lemma_other_groups_keep_address(c: Cpu, mem: Seq<i16>)
    requires
        c.inr & 0xf0 == 0,
    ensures
        spec_dispatch(c, mem).cpu.mar == c.mar,
        spec_dispatch(c, mem).mem == mem,
{
}

/// A HALT instruction stops the machine with the program counter on the
/// HALT itself, unless an interrupt is taken at its end.
pub proof fn law_halt_stops_on_itself(s: Machine)
    requires
        bits(s.mem[(s.cpu.pcr % 0x8000) as int]) & 0xFFF0 == 0,
    ensures
        pending_level(spec_dispatch(spec_fetch(s.cpu, s.mem), s.mem).cpu) is None ==> spec_decode(
            s,
        ).cpu.mode == Mode::HALT && spec_decode(s).cpu.pcr == s.cpu.pcr % 0x8000 && spec_decode(
            s,
        ).cpu.fault == Fault::Clean && spec_decode(s).mem == s.mem,
{
    reveal(spec_decode);
    let b = bits(s.mem[(s.cpu.pcr % 0x8000) as int]);
    assert(b & 0xFFF0 == 0 ==> ((b >> 8) & 0x00FF) == 0 && b & 0x00f0 == 0) by (bit_vector);
    let opcode = spec_fetch(s.cpu, s.mem).inr;
    assert(opcode == 0);
    assert(opcode & 0xf0 == 0) by (bit_vector)
        requires
            opcode == 0,
    ;
}

/// After any instruction the memory address register points into memory,
/// and memory is as large as before.
pub proof fn law_address_stays_in_memory(s: Machine)
    requires
        s.mem.len() == 32768,
    ensures
        spec_decode(s).cpu.mar < 32768,
        spec_decode(s).mem.len() == 32768,
{
    reveal(spec_decode);
    let f = spec_fetch(s.cpu, s.mem);
    assert(f.mar < 32768);
    if f.inr & 0xf0 != 0 {
        lemma_mem_reference_address(f, s.mem);
    } else {
        lemma_other_groups_keep_address(f, s.mem);
    }
    let done = spec_dispatch(f, s.mem);
    assert(done.cpu.mar < 32768 && done.mem.len() == 32768);
    lemma_pending_level(done.cpu, 0);
}

/// Entry to an interrupt level marks it active and drops its request, and
/// changes no other level.
pub proof fn law_entry_marks_level(c: Cpu, mem: Seq<i16>, level: int, other: int)
    requires
        0 <= level < 16,
        0 <= other < 16,
        other != level,
    ensures
        ({
            let after = spec_process_interrupt(c, mem, level).cpu;
            &&& has_level(after.int_act, level)
            &&& !has_level(after.int_req, level)
            &&& has_level(after.int_act, other) == has_level(c.int_act, other)
            &&& has_level(after.int_req, other) == has_level(c.int_req, other)
            &&& after.int_enb == c.int_enb
        }),
{
    let l = level as u16;
    let o = other as u16;
    let act = c.int_act;
    let req = c.int_req;
    assert(1u16 << level == 1u16 << l);
    assert(1u16 << other == 1u16 << o);
    assert((act | (1u16 << l)) & (1u16 << l) != 0 && (req & !(1u16 << l)) & (1u16 << l) == 0 && ((
    act | (1u16 << l)) & (1u16 << o) == act & (1u16 << o)) && ((req & !(1u16 << l)) & (1u16 << o)
        == req & (1u16 << o))) by (bit_vector)
        requires
            l < 16,
            o < 16,
            l != o,
    ;
}

/// Priority is strict: once a level is entered, no lower level can
/// interrupt until it returns.
pub proof fn law_entry_blocks_lower_levels(c: Cpu, mem: Seq<i16>, level: int, lower: int)
    requires
        0 <= lower < level < 16,
    ensures
        !eligible(spec_process_interrupt(c, mem, level).cpu, lower),
{
    law_entry_marks_level(c, mem, level, lower);
}

/// The circular shifts lose nothing: rotating one way and then the other
/// by the same count brings accumulator and index register back.
pub proof fn law_rotations_are_inverse(c: Cpu)
    ensures
        spec_src(spec_slc(c)) == c,
        spec_slc(spec_src(c)) == c,
        spec_srcd(spec_slcd(c)) == c,
        spec_slcd(spec_srcd(c)) == c,
{
    let n = shift_count(c.mbr);
    let a = bits(c.acr);
    let d = join(c.acr, c.ixr);
    lemma_field_widths(c.mbr);
    assert(rotate_right16(rotate_left16(a, n), n) == a && rotate_left16(rotate_right16(a, n), n)
        == a) by (bit_vector)
        requires
            n < 16,
    ;
    assert(rotate_right32(rotate_left32(d, n), n) == d && rotate_left32(rotate_right32(d, n), n)
        == d) by (bit_vector)
        requires
            n < 16,
    ;
    lemma_bits_word_inverse(c.acr, rotate_left16(a, n));
    lemma_bits_word_inverse(c.acr, rotate_right16(a, n));
    lemma_double_value(c.acr, c.ixr, rotate_left32(d, n));
    lemma_double_value(c.acr, c.ixr, rotate_right32(d, n));
    lemma_double_value(c.acr, c.ixr, d);
    lemma_bits_word_inverse(c.ixr, 0);
}

/// The bits of the status register that the instruction in hand may
/// change. A memory reference ends by renewing the extension field; beyond
/// that, the compares own NEG and EQL (CMB also GBL), addition, subtraction
/// and the arithmetic left shifts own OVF, JSX and the mode instructions
/// own GBL, and CXE, SML and SMU own the extension field. INRET reloads the
/// whole register. Every other instruction owns nothing.
pub open spec fn status_mask(c: Cpu) -> u16 {
    let op = c.inr & 0xf0;
    let digit2 = c.mbr & 0x00f0;
    if op != 0 {
        if op == 0x20 {
            ADFGBL | EXR_BYTE_MASK
        } else if op == 0x40 {
            ADFNEG | ADFEQL | ADFGBL | EXR_BYTE_MASK
        } else if op == 0xA0 || op == 0xB0 {
            ADFOVF | EXR_BYTE_MASK
        } else if op == 0xF0 {
            ADFNEG | ADFEQL | EXR_BYTE_MASK
        } else {
            EXR_BYTE_MASK
        }
    } else if c.inr == 0x00 {
        if digit2 == 0x0010 {
            0xFFFF
        } else if digit2 == 0x0040 || digit2 == 0x0050 {
            ADFGBL
        } else if digit2 == 0x0070 || digit2 == 0x0080 || digit2 == 0x0090 {
            EXR_BYTE_MASK
        } else {
            0
        }
    } else if c.inr == 0x07 {
        ADFNEG | ADFEQL
    } else if c.inr == 0x09 && (digit2 == 0x0010 || digit2 == 0x0030) {
        ADFOVF
    } else {
        0
    }
}

/// No memory-reference instruction disturbs a status bit outside its mask.
proof fn lemma_status_discipline_mem_reference(c: Cpu, mem: Seq<i16>)
    requires
        c.inr & 0xf0 != 0,
    ensures
        changed_within(c.status, spec_decode_mem_reference(c, mem).cpu.status, status_mask(c)),
{
    let op = c.inr & 0xf0;
    let s = c.status;
    let a = spec_word_address(c.mbr, c.status, c.ixr);
    lemma_status_rewrites_with_page(s, a);
    lemma_status_rewrites_with_page(s, c.pcr);
    let after = spec_decode_mem_reference(c, mem).cpu.status;
    if op == 0x10 {
        assert(after == with_page(a, s));
    } else if op == 0x20 {
        assert(after == with_page(a, s | ADFGBL));
    } else if op == 0x40 {
        let h = spec_cmb(c, mem).status;
        assert(after == with_page(c.pcr, h));
    } else if op == 0xA0 {
        let h = spec_add(c, mem).status;
        assert(after == with_page(c.pcr, h));
    } else if op == 0xB0 {
        let h = spec_sub(c, mem).status;
        assert(after == with_page(c.pcr, h));
    } else if op == 0xF0 {
        let h = spec_cmw(c, mem).status;
        assert(after == with_page(c.pcr, h));
    } else {
        assert(after == with_page(c.pcr, s));
    }
}

/// No instruction disturbs a status bit outside its mask.
pub proof fn law_status_discipline(c: Cpu, mem: Seq<i16>)
    ensures
        changed_within(c.status, spec_dispatch(c, mem).cpu.status, status_mask(c)),
{
    let s = c.status;
    let after = spec_dispatch(c, mem).cpu.status;
    if c.inr & 0xf0 != 0 {
        lemma_status_discipline_mem_reference(c, mem);
    } else if c.inr == 0x00 {
        lemma_status_rewrites(s, c.mbr);
        lemma_status_rewrites(s, bits(c.ixr));
        lemma_status_rewrites(s, after);
    } else if c.inr == 0x07 {
        lemma_status_rewrites(s, 0);
    } else if c.inr == 0x09 {
        lemma_status_rewrites(s, 0);
    } else {
        assert(after == s);
    }
}

/// Entry to an interrupt level changes the status register in GBL alone.
pub proof fn law_entry_changes_mode_only(c: Cpu, mem: Seq<i16>, level: int)
    ensures
        changed_within(c.status, spec_process_interrupt(c, mem, level).cpu.status, ADFGBL),
{
    lemma_status_rewrites(c.status, 0);
}

} // verus!
