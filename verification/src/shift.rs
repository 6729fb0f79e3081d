//! The shift groups, instruction registers 0x09 (arithmetic) and 0x0A
//! (logical and circular). The last digit of the instruction word is the
//! shift count, 0 to 15.
use vstd::arithmetic::div_mod::lemma_fundamental_div_mod_converse_div;
use vstd::arithmetic::power2::{lemma2_to64, lemma_pow2_pos, lemma_pow2_unfold, pow2};
use vstd::prelude::*;
use crate::cpu::{spec_illegal_instruction, Cpu};
use crate::status::ADFOVF;
use crate::word::{
    bits, get_left_byte, get_right_byte, left_byte, lemma_bits_word_inverse, lemma_field_widths,
    lemma_wrap_double, pack, pack_bytes, right_byte, to_bits, to_word, word, wrap16, wrap32,
};

verus! {

/// The shift count of an instruction word.
pub open spec fn shift_count(mbr: u16) -> u16 {
    mbr & 0x000F
}

/// The accumulator and the index register as one double word: the
/// accumulator is the high half.
pub open spec fn join(acr: i16, ixr: i16) -> u32 {
    ((bits(acr) as u32) << 16) | (bits(ixr) as u32)
}

/// The number that accumulator and index register hold together: the
/// accumulator gives the sign and the high sixteen bits.
pub open spec fn double_value(acr: i16, ixr: i16) -> int {
    acr * 0x1_0000 + bits(ixr)
}

/// The high half of a double word.
pub open spec fn high_word(d: u32) -> i16 {
    word((d >> 16) as u16)
}

/// The low half of a double word.
pub open spec fn low_word(d: u32) -> i16 {
    word((d & 0x0000_FFFF) as u16)
}

/// The processor with the double word `d` in accumulator and index
/// register.
pub open spec fn with_double(c: Cpu, d: u32) -> Cpu {
    Cpu { acr: high_word(d), ixr: low_word(d), ..c }
}

/// The two top bits of a word differ: one more step to the left changes
/// its sign.
pub open spec fn top_bits_differ16(b: u16) -> bool {
    (b >> 15) & 1 != (b >> 14) & 1
}

/// The two top bits of a double word differ.
pub open spec fn top_bits_differ32(d: u32) -> bool {
    (d >> 31) & 1 != (d >> 30) & 1
}

/// Step `k` of an arithmetic left shift of `b` changes the sign.
pub open spec fn overflows_at16(b: u16, k: u16) -> bool {
    top_bits_differ16(b << k)
}

/// Step `k` of an arithmetic left shift of the double word `d` changes the
/// sign.
pub open spec fn overflows_at32(d: u32, k: u16) -> bool {
    top_bits_differ32(d << k)
}

/// Some step of an arithmetic left shift of `b` by `count` changes the
/// sign.
pub open spec fn shift_overflows16(b: u16, count: u16) -> bool {
    exists|k: u16| k < count && overflows_at16(b, k)
}

/// Some step of an arithmetic left shift of `d` by `count` changes the
/// sign.
pub open spec fn shift_overflows32(d: u32, count: u16) -> bool {
    exists|k: u16| k < count && overflows_at32(d, k)
}

/// The status register after an arithmetic left shift: OVF says whether
/// the sign changed on the way.
pub open spec fn overflow_recorded(status: u16, overflow: bool) -> u16 {
    if overflow {
        (status & !ADFOVF) | ADFOVF
    } else {
        status & !ADFOVF
    }
}

/// A byte shifted right by `count`; eight steps or more leave nothing.
pub open spec fn byte_shr(b: u8, count: u16) -> u8 {
    if count >= 8 {
        0
    } else {
        b >> count
    }
}

/// A byte shifted left by `count`; eight steps or more leave nothing.
pub open spec fn byte_shl(b: u8, count: u16) -> u8 {
    if count >= 8 {
        0
    } else {
        b << count
    }
}

/// A word rotated right by `count`, 0 to 15.
pub open spec fn rotate_right16(b: u16, count: u16) -> u16 {
    if count == 0 {
        b
    } else {
        (b >> count) | (b << ((16 - count) as u16))
    }
}

/// A word rotated left by `count`, 0 to 15.
pub open spec fn rotate_left16(b: u16, count: u16) -> u16 {
    if count == 0 {
        b
    } else {
        (b << count) | (b >> ((16 - count) as u16))
    }
}

/// A double word rotated right by `count`, 0 to 31.
pub open spec fn rotate_right32(d: u32, count: u16) -> u32 {
    if count == 0 {
        d
    } else {
        (d >> count) | (d << ((32 - count) as u16))
    }
}

/// A double word rotated left by `count`, 0 to 31.
pub open spec fn rotate_left32(d: u32, count: u16) -> u32 {
    if count == 0 {
        d
    } else {
        (d << count) | (d >> ((32 - count) as u16))
    }
}

/// A byte rotated right by `count`; eight steps bring it back.
pub open spec fn rotate_right8(b: u8, count: u16) -> u8 {
    let k = count % 8;
    if k == 0 {
        b
    } else {
        (b >> k) | (b << ((8 - k) as u16))
    }
}

/// A byte rotated left by `count`; eight steps bring it back.
pub open spec fn rotate_left8(b: u8, count: u16) -> u8 {
    let k = count % 8;
    if k == 0 {
        b
    } else {
        (b << k) | (b >> ((8 - k) as u16))
    }
}

/// SRA: the accumulator is shifted right, keeping its sign.
pub open spec fn spec_sra(c: Cpu) -> Cpu {
    Cpu { acr: c.acr >> shift_count(c.mbr), ..c }
}

/// SLA: the accumulator is shifted left one step at a time; OVF is cleared
/// first, and set if any step changes the sign.
pub open spec fn spec_sla(c: Cpu) -> Cpu {
    let count = shift_count(c.mbr);
    Cpu {
        acr: word(bits(c.acr) << count),
        status: overflow_recorded(c.status, shift_overflows16(bits(c.acr), count)),
        ..c
    }
}

/// SRAD: the double word is shifted right, keeping its sign.
pub open spec fn spec_srad(c: Cpu) -> Cpu {
    with_double(c, ((join(c.acr, c.ixr) as i32) >> shift_count(c.mbr)) as u32)
}

/// SLAD: the double word is shifted left one step at a time; OVF is
/// cleared first, and set if any step changes the sign.
pub open spec fn spec_slad(c: Cpu) -> Cpu {
    let count = shift_count(c.mbr);
    let d = join(c.acr, c.ixr);
    Cpu {
        status: overflow_recorded(c.status, shift_overflows32(d, count)),
        ..with_double(c, d << count)
    }
}

/// SRL: the accumulator is shifted right, zeros coming in.
pub open spec fn spec_srl(c: Cpu) -> Cpu {
    Cpu { acr: word(bits(c.acr) >> shift_count(c.mbr)), ..c }
}

/// SLL: the accumulator is shifted left, zeros coming in.
pub open spec fn spec_sll(c: Cpu) -> Cpu {
    Cpu { acr: word(bits(c.acr) << shift_count(c.mbr)), ..c }
}

/// SRLD: the double word is shifted right, zeros coming in.
pub open spec fn spec_srld(c: Cpu) -> Cpu {
    with_double(c, join(c.acr, c.ixr) >> shift_count(c.mbr))
}

/// SLLD: the double word is shifted left, zeros coming in.
pub open spec fn spec_slld(c: Cpu) -> Cpu {
    with_double(c, join(c.acr, c.ixr) << shift_count(c.mbr))
}

/// SRC: the accumulator is rotated right.
pub open spec fn spec_src(c: Cpu) -> Cpu {
    Cpu { acr: word(rotate_right16(bits(c.acr), shift_count(c.mbr))), ..c }
}

/// SLC: the accumulator is rotated left.
pub open spec fn spec_slc(c: Cpu) -> Cpu {
    Cpu { acr: word(rotate_left16(bits(c.acr), shift_count(c.mbr))), ..c }
}

/// SRCD: the double word is rotated right.
pub open spec fn spec_srcd(c: Cpu) -> Cpu {
    with_double(c, rotate_right32(join(c.acr, c.ixr), shift_count(c.mbr)))
}

/// SLCD: the double word is rotated left.
pub open spec fn spec_slcd(c: Cpu) -> Cpu {
    with_double(c, rotate_left32(join(c.acr, c.ixr), shift_count(c.mbr)))
}

/// SRLL: the left byte of the accumulator is shifted right.
pub open spec fn spec_srll(c: Cpu) -> Cpu {
    Cpu { acr: pack(byte_shr(left_byte(c.acr), shift_count(c.mbr)), right_byte(c.acr)), ..c }
}

/// SLLL: the left byte of the accumulator is shifted left.
pub open spec fn spec_slll(c: Cpu) -> Cpu {
    Cpu { acr: pack(byte_shl(left_byte(c.acr), shift_count(c.mbr)), right_byte(c.acr)), ..c }
}

/// SRLR: the right byte of the accumulator is shifted right.
pub open spec fn spec_srlr(c: Cpu) -> Cpu {
    Cpu { acr: pack(left_byte(c.acr), byte_shr(right_byte(c.acr), shift_count(c.mbr))), ..c }
}

/// SLLR: the right byte of the accumulator is shifted left.
pub open spec fn spec_sllr(c: Cpu) -> Cpu {
    Cpu { acr: pack(left_byte(c.acr), byte_shl(right_byte(c.acr), shift_count(c.mbr))), ..c }
}

/// SRCL: the left byte of the accumulator is rotated right.
pub open spec fn spec_srcl(c: Cpu) -> Cpu {
    Cpu {
        acr: pack(rotate_right8(left_byte(c.acr), shift_count(c.mbr)), right_byte(c.acr)),
        ..c
    }
}

/// SLCL: the left byte of the accumulator is rotated left.
pub open spec fn spec_slcl(c: Cpu) -> Cpu {
    Cpu { acr: pack(rotate_left8(left_byte(c.acr), shift_count(c.mbr)), right_byte(c.acr)), ..c }
}

/// SRCR: the right byte of the accumulator is rotated right.
pub open spec fn spec_srcr(c: Cpu) -> Cpu {
    Cpu {
        acr: pack(left_byte(c.acr), rotate_right8(right_byte(c.acr), shift_count(c.mbr))),
        ..c
    }
}

/// SLCR: the right byte of the accumulator is rotated left.
pub open spec fn spec_slcr(c: Cpu) -> Cpu {
    Cpu { acr: pack(left_byte(c.acr), rotate_left8(right_byte(c.acr), shift_count(c.mbr))), ..c }
}

/// The arithmetic shifts: the second digit from the right selects.
pub open spec fn spec_decode_shift_arith(c: Cpu) -> Cpu {
    let digit2 = c.mbr & 0x00f0;
    if digit2 == 0x0000 {
        spec_sra(c)
    } else if digit2 == 0x0010 {
        spec_sla(c)
    } else if digit2 == 0x0020 {
        spec_srad(c)
    } else if digit2 == 0x0030 {
        spec_slad(c)
    } else {
        spec_illegal_instruction(c)
    }
}

/// The logical and circular shifts: the second digit from the right
/// selects.
pub open spec fn spec_decode_shift_logical(c: Cpu) -> Cpu {
    let digit2 = c.mbr & 0x00f0;
    if digit2 == 0x0000 {
        spec_srl(c)
    } else if digit2 == 0x0010 {
        spec_sll(c)
    } else if digit2 == 0x0020 {
        spec_srld(c)
    } else if digit2 == 0x0030 {
        spec_slld(c)
    } else if digit2 == 0x0040 {
        spec_src(c)
    } else if digit2 == 0x0050 {
        spec_slc(c)
    } else if digit2 == 0x0060 {
        spec_srcd(c)
    } else if digit2 == 0x0070 {
        spec_slcd(c)
    } else if digit2 == 0x0080 {
        spec_srll(c)
    } else if digit2 == 0x0090 {
        spec_slll(c)
    } else if digit2 == 0x00A0 {
        spec_srlr(c)
    } else if digit2 == 0x00B0 {
        spec_sllr(c)
    } else if digit2 == 0x00C0 {
        spec_srcl(c)
    } else if digit2 == 0x00D0 {
        spec_slcl(c)
    } else if digit2 == 0x00E0 {
        spec_srcr(c)
    } else if digit2 == 0x00F0 {
        spec_slcr(c)
    } else {
        spec_illegal_instruction(c)
    }
}

/// One more step to the left is a shift by one more.
pub proof fn lemma_shift_step(b: u16, d: u32, k: u16)
    requires
        k < 15,
    ensures
        (b << k) << 1u16 == b << ((k + 1) as u16),
        (d << k) << 1u16 == d << ((k + 1) as u16),
        b << 0u16 == b,
        d << 0u16 == d,
{
    assert((b << k) << 1u16 == b << ((k + 1) as u16) && (d << k) << 1u16 == d << ((k + 1) as u16)
        && b << 0u16 == b && d << 0u16 == d) by (bit_vector)
        requires
            k < 15,
    ;
}

/// One step to the left doubles a word: exactly while the two top bits
/// agree, and otherwise off by 2^16.
pub proof fn lemma_double16(b: u16)
    ensures
        top_bits_differ16(b) <==> !(-0x4000 <= word(b) < 0x4000),
        word(b << 1u16) == wrap16(2 * word(b)),
{
    let w = b as i16;
    let s = (b << 1u16) as i16;
    assert(((b >> 15) & 1 != (b >> 14) & 1) <==> !(-0x4000 <= (b as i16) < 0x4000))
        by (bit_vector);
    assert((-0x4000 <= w < 0x4000 ==> s == 2 * w) && (w >= 0x4000 ==> s == 2 * w - 0x1_0000) && (w
        < -0x4000 ==> s == 2 * w + 0x1_0000)) by (bit_vector)
        requires
            w == b as i16,
            s == (b << 1u16) as i16,
    ;
}

/// One step to the left doubles a double word: exactly while the two top
/// bits agree, and otherwise off by 2^32.
pub proof fn lemma_double32(d: u32)
    ensures
        top_bits_differ32(d) <==> !(-0x4000_0000 <= (d as i32) < 0x4000_0000),
        (d << 1u16) as i32 == wrap32(2 * (d as i32)),
{
    let w = d as i32;
    let s = (d << 1u16) as i32;
    assert(((d >> 31) & 1 != (d >> 30) & 1) <==> !(-0x4000_0000 <= (d as i32) < 0x4000_0000))
        by (bit_vector);
    assert((-0x4000_0000 <= w < 0x4000_0000 ==> s == 2 * w) && (w >= 0x4000_0000 ==> s == 2 * w
        - 0x1_0000_0000) && (w < -0x4000_0000 ==> s == 2 * w + 0x1_0000_0000)) by (bit_vector)
        requires
            w == d as i32,
            s == (d << 1u16) as i32,
    ;
}

/// A double word and its two halves hold the same number.
pub proof fn lemma_double_value(acr: i16, ixr: i16, d: u32)
    ensures
        join(acr, ixr) as i32 == double_value(acr, ixr),
        high_word(join(acr, ixr)) == acr,
        low_word(join(acr, ixr)) == ixr,
        double_value(high_word(d), low_word(d)) == d as i32,
        join(high_word(d), low_word(d)) == d,
{
    let a = bits(acr);
    let x = bits(ixr);
    let j = join(acr, ixr);
    assert((((a as u32) << 16) | (x as u32)) as i32 == (a as i16) * 0x1_0000 + x) by (bit_vector);
    assert((j >> 16) as u16 == a && (j & 0x0000_FFFF) as u16 == x) by (bit_vector)
        requires
            j == ((a as u32) << 16) | (x as u32),
    ;
    lemma_bits_word_inverse(acr, 0);
    lemma_bits_word_inverse(ixr, 0);
    let h = (d >> 16) as u16;
    let l = (d & 0x0000_FFFF) as u16;
    assert(((h as u32) << 16) | (l as u32) == d) by (bit_vector)
        requires
            h == (d >> 16) as u16,
            l == (d & 0x0000_FFFF) as u16,
    ;
    assert((h as i16) * 0x1_0000 + l == d as i32) by (bit_vector)
        requires
            h == (d >> 16) as u16,
            l == (d & 0x0000_FFFF) as u16,
    ;
    lemma_bits_word_inverse(0, h);
    lemma_bits_word_inverse(0, l);
}

/// Shifting a word left by `count` multiplies it by 2^`count`, modulo
/// 2^16; some step changes the sign exactly if the product does not fit.
pub proof fn lemma_shift_left16(a: i16, count: u16)
    requires
        count < 16,
    ensures
        word(bits(a) << count) == wrap16(a * pow2(count as nat)),
        shift_overflows16(bits(a), count) <==> !(i16::MIN <= a * pow2(count as nat) <= i16::MAX),
    decreases count,
{
    let b = bits(a);
    if count == 0 {
        lemma_shift_step(b, 0, 0);
        lemma_bits_word_inverse(a, 0);
        lemma2_to64();
        assert(a * pow2(0) == a) by (nonlinear_arith)
            requires
                pow2(0) == 1,
        ;
    } else {
        let k = (count - 1) as u16;
        lemma_shift_left16(a, k);
        lemma_shift_step(b, 0, k);
        lemma_double16(b << k);
        lemma_pow2_unfold(count as nat);
        let before = a * pow2(k as nat);
        let after = a * pow2(count as nat);
        assert(after == 2 * before) by (nonlinear_arith)
            requires
                after == a * pow2(count as nat),
                before == a * pow2(k as nat),
                pow2(count as nat) == 2 * pow2(k as nat),
        ;
        lemma_wrap_double(before);
        assert(b << count == (b << k) << 1u16);
        assert(word(b << count) == wrap16(2 * wrap16(before)));
        assert(word(b << k) == before <==> i16::MIN <= before <= i16::MAX);
        if shift_overflows16(b, count) {
            let j = choose|j: u16| j < count && overflows_at16(b, j);
            if j < k {
                assert(shift_overflows16(b, k));
            }
        }
        if shift_overflows16(b, k) || overflows_at16(b, k) {
            let j = if shift_overflows16(b, k) {
                choose|j: u16| j < k && overflows_at16(b, j)
            } else {
                k
            };
            assert(j < count && overflows_at16(b, j));
        }
    }
}

/// Shifting a double word left by `count` multiplies it by 2^`count`,
/// modulo 2^32; some step changes the sign exactly if the product does not
/// fit.
pub proof fn lemma_shift_left32(d: u32, count: u16)
    requires
        count < 16,
    ensures
        (d << count) as i32 == wrap32((d as i32) * pow2(count as nat)),
        shift_overflows32(d, count) <==> !(i32::MIN <= (d as i32) * pow2(count as nat)
            <= i32::MAX),
    decreases count,
{
    let v = d as i32;
    if count == 0 {
        lemma_shift_step(0, d, 0);
        lemma2_to64();
        assert(v * pow2(0) == v) by (nonlinear_arith)
            requires
                pow2(0) == 1,
        ;
    } else {
        let k = (count - 1) as u16;
        lemma_shift_left32(d, k);
        lemma_shift_step(0, d, k);
        lemma_double32(d << k);
        lemma_pow2_unfold(count as nat);
        let before = v * pow2(k as nat);
        let after = v * pow2(count as nat);
        assert(after == 2 * before) by (nonlinear_arith)
            requires
                after == v * pow2(count as nat),
                before == v * pow2(k as nat),
                pow2(count as nat) == 2 * pow2(k as nat),
        ;
        lemma_wrap_double(before);
        assert(d << count == (d << k) << 1u16);
        assert((d << count) as i32 == wrap32(2 * wrap32(before)));
        assert((d << k) as i32 == before <==> i32::MIN <= before <= i32::MAX);
        if shift_overflows32(d, count) {
            let j = choose|j: u16| j < count && overflows_at32(d, j);
            if j < k {
                assert(shift_overflows32(d, k));
            }
        }
        if shift_overflows32(d, k) || overflows_at32(d, k) {
            let j = if shift_overflows32(d, k) {
                choose|j: u16| j < k && overflows_at32(d, j)
            } else {
                k
            };
            assert(j < count && overflows_at32(d, j));
        }
    }
}

/// One more step to the right is a shift by one more, and a step to the
/// right halves, rounding down.
pub proof fn lemma_shift_right_step(w: i16, b: u16, v: i32, d: u32, k: u16)
    requires
        k < 15,
    ensures
        (w >> k) >> 1u16 == w >> ((k + 1) as u16),
        (b >> k) >> 1u16 == b >> ((k + 1) as u16),
        (v >> k) >> 1u16 == v >> ((k + 1) as u16),
        (d >> k) >> 1u16 == d >> ((k + 1) as u16),
        w >> 0u16 == w && b >> 0u16 == b && v >> 0u16 == v && d >> 0u16 == d,
        2 * (w >> 1u16) <= w <= 2 * (w >> 1u16) + 1,
        2 * (b >> 1u16) <= b <= 2 * (b >> 1u16) + 1,
        2 * (v >> 1u16) <= v <= 2 * (v >> 1u16) + 1,
        2 * (d >> 1u16) <= d <= 2 * (d >> 1u16) + 1,
{
    assert((w >> k) >> 1u16 == w >> ((k + 1) as u16) && (b >> k) >> 1u16 == b >> ((k + 1) as u16)
        && (v >> k) >> 1u16 == v >> ((k + 1) as u16) && (d >> k) >> 1u16 == d >> ((k + 1) as u16)
        && w >> 0u16 == w && b >> 0u16 == b && v >> 0u16 == v && d >> 0u16 == d) by (bit_vector)
        requires
            k < 15,
    ;
    assert(2 * (w >> 1u16) <= w && w <= 2 * (w >> 1u16) + 1 && 2 * (b >> 1u16) <= b && b <= 2 * (b
        >> 1u16) + 1 && 2 * (v >> 1u16) <= v && v <= 2 * (v >> 1u16) + 1 && 2 * (d >> 1u16) <= d
        && d <= 2 * (d >> 1u16) + 1) by (bit_vector);
}

/// `q` is `a` divided by 2^`k`, rounded down.
pub open spec fn is_quotient(a: int, k: nat, q: int) -> bool {
    q * pow2(k) <= a < (q + 1) * pow2(k)
}

/// A number is its own quotient by 2^0.
pub proof fn lemma_quotient_by_one(a: int)
    ensures
        is_quotient(a, 0, a),
{
    lemma2_to64();
    assert(a * pow2(0) == a && (a + 1) * pow2(0) == a + 1) by (nonlinear_arith)
        requires
            pow2(0) == 1,
    ;
}

/// Halving a quotient by 2^`k`, rounding down, gives the quotient by
/// 2^(`k` + 1).
pub proof fn lemma_halve_quotient(a: int, k: nat, q: int, h: int)
    requires
        is_quotient(a, k, q),
        2 * h <= q <= 2 * h + 1,
    ensures
        is_quotient(a, k + 1, h),
{
    lemma_pow2_unfold(k + 1);
    lemma_pow2_pos(k);
    let p = pow2(k) as int;
    let pp = pow2(k + 1) as int;
    assert(h * pp <= a && a < (h + 1) * pp) by (nonlinear_arith)
        requires
            p > 0,
            pp == 2 * p,
            q * p <= a,
            a < (q + 1) * p,
            2 * h <= q,
            q <= 2 * h + 1,
    ;
}

/// What `is_quotient` describes is the quotient.
pub proof fn lemma_quotient(a: int, k: nat, q: int)
    requires
        is_quotient(a, k, q),
    ensures
        q == a / (pow2(k) as int),
{
    lemma_pow2_pos(k);
    let p = pow2(k) as int;
    let r = a - q * p;
    assert(0 <= r < p && a == q * p + r) by (nonlinear_arith)
        requires
            r == a - q * p,
            q * p <= a,
            a < (q + 1) * p,
    ;
    lemma_fundamental_div_mod_converse_div(a, p, q, r);
}

/// Shifting right by `count` divides by 2^`count`, rounding down: a signed
/// number keeps its sign, an unsigned one gets zeros.
pub proof fn lemma_shift_right(w: i16, b: u16, v: i32, d: u32, count: u16)
    requires
        count < 16,
    ensures
        is_quotient(w as int, count as nat, (w >> count) as int),
        is_quotient(b as int, count as nat, (b >> count) as int),
        is_quotient(v as int, count as nat, (v >> count) as int),
        is_quotient(d as int, count as nat, (d >> count) as int),
    decreases count,
{
    if count == 0 {
        lemma_shift_right_step(w, b, v, d, 0);
        lemma_quotient_by_one(w as int);
        lemma_quotient_by_one(b as int);
        lemma_quotient_by_one(v as int);
        lemma_quotient_by_one(d as int);
    } else {
        let k = (count - 1) as u16;
        lemma_shift_right(w, b, v, d, k);
        lemma_shift_right_step(w, b, v, d, k);
        lemma_shift_right_step(w >> k, b >> k, v >> k, d >> k, 0);
        lemma_halve_quotient(w as int, k as nat, (w >> k) as int, (w >> count) as int);
        lemma_halve_quotient(b as int, k as nat, (b >> k) as int, (b >> count) as int);
        lemma_halve_quotient(v as int, k as nat, (v >> k) as int, (v >> count) as int);
        lemma_halve_quotient(d as int, k as nat, (d >> k) as int, (d >> count) as int);
    }
}

/// The double word made of accumulator and index register.
fn join_words(acr: i16, ixr: i16) -> (d: u32)
    ensures
        d == join(acr, ixr),
{
    ((to_bits(acr) as u32) << 16) | (to_bits(ixr) as u32)
}

/// A byte shifted right.
fn shift_byte_right(b: u8, count: u16) -> (r: u8)
    ensures
        r == byte_shr(b, count),
{
    if count >= 8 {
        0
    } else {
        b >> count
    }
}

/// A byte shifted left.
fn shift_byte_left(b: u8, count: u16) -> (r: u8)
    ensures
        r == byte_shl(b, count),
{
    if count >= 8 {
        0
    } else {
        b << count
    }
}

/// A word rotated right.
fn rotate_word_right(b: u16, count: u16) -> (r: u16)
    requires
        count < 16,
    ensures
        r == rotate_right16(b, count),
{
    if count == 0 {
        b
    } else {
        (b >> count) | (b << (16 - count))
    }
}

/// A word rotated left.
fn rotate_word_left(b: u16, count: u16) -> (r: u16)
    requires
        count < 16,
    ensures
        r == rotate_left16(b, count),
{
    if count == 0 {
        b
    } else {
        (b << count) | (b >> (16 - count))
    }
}

/// A double word rotated right.
fn rotate_double_right(d: u32, count: u16) -> (r: u32)
    requires
        count < 32,
    ensures
        r == rotate_right32(d, count),
{
    if count == 0 {
        d
    } else {
        (d >> count) | (d << (32 - count))
    }
}

/// A double word rotated left.
fn rotate_double_left(d: u32, count: u16) -> (r: u32)
    requires
        count < 32,
    ensures
        r == rotate_left32(d, count),
{
    if count == 0 {
        d
    } else {
        (d << count) | (d >> (32 - count))
    }
}

/// A byte rotated right.
fn rotate_byte_right(b: u8, count: u16) -> (r: u8)
    ensures
        r == rotate_right8(b, count),
{
    let k = count % 8;
    if k == 0 {
        b
    } else {
        (b >> k) | (b << (8 - k))
    }
}

/// A byte rotated left.
fn rotate_byte_left(b: u8, count: u16) -> (r: u8)
    ensures
        r == rotate_left8(b, count),
{
    let k = count % 8;
    if k == 0 {
        b
    } else {
        (b << k) | (b >> (8 - k))
    }
}

impl Cpu {
    /// Executes the arithmetic shift that MBR holds.
    pub fn decode_shift_arith(&mut self)
        ensures
            *final(self) == spec_decode_shift_arith(*old(self)),
    {
        let digit2 = self.mbr & 0x00f0;
        match digit2 {
            0x0000 => self.sra(),
            0x0010 => self.sla(),
            0x0020 => self.srad(),
            0x0030 => self.slad(),
            _ => self.illegal_instruction(),
        }
    }

    /// Executes the logical or circular shift that MBR holds.
    pub fn decode_shift_logical(&mut self)
        ensures
            *final(self) == spec_decode_shift_logical(*old(self)),
    {
        let digit2 = self.mbr & 0x00f0;
        match digit2 {
            0x0000 => self.srl(),
            0x0010 => self.sll(),
            0x0020 => self.srld(),
            0x0030 => self.slld(),
            0x0040 => self.src(),
            0x0050 => self.slc(),
            0x0060 => self.srcd(),
            0x0070 => self.slcd(),
            0x0080 => self.srll(),
            0x0090 => self.slll(),
            0x00A0 => self.srlr(),
            0x00B0 => self.sllr(),
            0x00C0 => self.srcl(),
            0x00D0 => self.slcl(),
            0x00E0 => self.srcr(),
            0x00F0 => self.slcr(),
            _ => self.illegal_instruction(),
        }
    }

    /// The shift count of the instruction in hand.
    fn count(&self) -> (count: u16)
        ensures
            count == shift_count(self.mbr),
            count < 16,
    {
        proof {
            lemma_field_widths(self.mbr);
        }
        self.mbr & 0x000F
    }

    /// Puts a double word into accumulator and index register.
    fn set_double(&mut self, d: u32)
        ensures
            *final(self) == with_double(*old(self), d),
    {
        self.ixr = to_word((d & 0x0000_FFFF) as u16);
        self.acr = to_word((d >> 16) as u16);
    }

    /// Shift right arithmetic.
    pub fn sra(&mut self)
        ensures
            *final(self) == spec_sra(*old(self)),
    {
        let count = self.count();
        self.acr = self.acr >> count;
    }

    /// Shift left arithmetic.
    pub fn sla(&mut self)
        ensures
            *final(self) == spec_sla(*old(self)),
    {
        let count = self.count();
        let start: u16 = to_bits(self.acr);
        let mut shifted: u16 = start;
        let mut overflow = false;
        let mut step: u16 = 0;
        proof {
            lemma_shift_step(start, 0, 0);
        }
        while step < count
            invariant
                step <= count < 16,
                shifted == start << step,
                overflow == shift_overflows16(start, step),
            decreases count - step,
        {
            proof {
                lemma_shift_step(start, 0, step);
                assert(overflows_at16(start, step) ==> shift_overflows16(start, (step + 1) as u16));
            }
            if (shifted >> 15) & 1 != (shifted >> 14) & 1 {
                overflow = true;
            }
            shifted = shifted << 1u16;
            step = step + 1;
        }
        self.status = self.status & !ADFOVF;
        if overflow {
            self.status = self.status | ADFOVF;
        }
        self.acr = to_word(shifted);
    }

    /// Shift right arithmetic double.
    pub fn srad(&mut self)
        ensures
            *final(self) == spec_srad(*old(self)),
    {
        let count = self.count();
        let word32: i32 = join_words(self.acr, self.ixr) as i32;
        self.set_double((word32 >> count) as u32);
    }

    /// Shift left arithmetic double.
    pub fn slad(&mut self)
        ensures
            *final(self) == spec_slad(*old(self)),
    {
        let count = self.count();
        let start: u32 = join_words(self.acr, self.ixr);
        let mut shifted: u32 = start;
        let mut overflow = false;
        let mut step: u16 = 0;
        proof {
            lemma_shift_step(0, start, 0);
        }
        while step < count
            invariant
                step <= count < 16,
                shifted == start << step,
                overflow == shift_overflows32(start, step),
            decreases count - step,
        {
            proof {
                lemma_shift_step(0, start, step);
                assert(overflows_at32(start, step) ==> shift_overflows32(start, (step + 1) as u16));
            }
            if (shifted >> 31) & 1 != (shifted >> 30) & 1 {
                overflow = true;
            }
            shifted = shifted << 1u16;
            step = step + 1;
        }
        self.status = self.status & !ADFOVF;
        if overflow {
            self.status = self.status | ADFOVF;
        }
        self.set_double(shifted);
    }

    /// Shift right logical.
    pub fn srl(&mut self)
        ensures
            *final(self) == spec_srl(*old(self)),
    {
        let count = self.count();
        self.acr = to_word(to_bits(self.acr) >> count);
    }

    /// Shift left logical.
    pub fn sll(&mut self)
        ensures
            *final(self) == spec_sll(*old(self)),
    {
        let count = self.count();
        self.acr = to_word(to_bits(self.acr) << count);
    }

    /// Shift right logical double.
    pub fn srld(&mut self)
        ensures
            *final(self) == spec_srld(*old(self)),
    {
        let count = self.count();
        let word32 = join_words(self.acr, self.ixr);
        self.set_double(word32 >> count);
    }

    /// Shift left logical double.
    pub fn slld(&mut self)
        ensures
            *final(self) == spec_slld(*old(self)),
    {
        let count = self.count();
        let word32 = join_words(self.acr, self.ixr);
        self.set_double(word32 << count);
    }

    /// Shift right circular.
    pub fn src(&mut self)
        ensures
            *final(self) == spec_src(*old(self)),
    {
        let count = self.count();
        self.acr = to_word(rotate_word_right(to_bits(self.acr), count));
    }

    /// Shift left circular.
    pub fn slc(&mut self)
        ensures
            *final(self) == spec_slc(*old(self)),
    {
        let count = self.count();
        self.acr = to_word(rotate_word_left(to_bits(self.acr), count));
    }

    /// Shift right circular double.
    pub fn srcd(&mut self)
        ensures
            *final(self) == spec_srcd(*old(self)),
    {
        let count = self.count();
        let word32 = join_words(self.acr, self.ixr);
        self.set_double(rotate_double_right(word32, count));
    }

    /// Shift left circular double.
    pub fn slcd(&mut self)
        ensures
            *final(self) == spec_slcd(*old(self)),
    {
        let count = self.count();
        let word32 = join_words(self.acr, self.ixr);
        self.set_double(rotate_double_left(word32, count));
    }

    /// Shift right logical, left byte.
    pub fn srll(&mut self)
        ensures
            *final(self) == spec_srll(*old(self)),
    {
        let count = self.count();
        let byte = shift_byte_right(get_left_byte(self.acr), count);
        self.acr = pack_bytes(byte, get_right_byte(self.acr));
    }

    /// Shift left logical, left byte.
    pub fn slll(&mut self)
        ensures
            *final(self) == spec_slll(*old(self)),
    {
        let count = self.count();
        let byte = shift_byte_left(get_left_byte(self.acr), count);
        self.acr = pack_bytes(byte, get_right_byte(self.acr));
    }

    /// Shift right logical, right byte.
    pub fn srlr(&mut self)
        ensures
            *final(self) == spec_srlr(*old(self)),
    {
        let count = self.count();
        let byte = shift_byte_right(get_right_byte(self.acr), count);
        self.acr = pack_bytes(get_left_byte(self.acr), byte);
    }

    /// Shift left logical, right byte.
    pub fn sllr(&mut self)
        ensures
            *final(self) == spec_sllr(*old(self)),
    {
        let count = self.count();
        let byte = shift_byte_left(get_right_byte(self.acr), count);
        self.acr = pack_bytes(get_left_byte(self.acr), byte);
    }

    /// Shift right circular, left byte.
    pub fn srcl(&mut self)
        ensures
            *final(self) == spec_srcl(*old(self)),
    {
        let count = self.count();
        let byte = rotate_byte_right(get_left_byte(self.acr), count);
        self.acr = pack_bytes(byte, get_right_byte(self.acr));
    }

    /// Shift left circular, left byte.
    pub fn slcl(&mut self)
        ensures
            *final(self) == spec_slcl(*old(self)),
    {
        let count = self.count();
        let byte = rotate_byte_left(get_left_byte(self.acr), count);
        self.acr = pack_bytes(byte, get_right_byte(self.acr));
    }

    /// Shift right circular, right byte.
    pub fn srcr(&mut self)
        ensures
            *final(self) == spec_srcr(*old(self)),
    {
        let count = self.count();
        let byte = rotate_byte_right(get_right_byte(self.acr), count);
        self.acr = pack_bytes(get_left_byte(self.acr), byte);
    }

    /// Shift left circular, right byte.
    pub fn slcr(&mut self)
        ensures
            *final(self) == spec_slcr(*old(self)),
    {
        let count = self.count();
        let byte = rotate_byte_left(get_right_byte(self.acr), count);
        self.acr = pack_bytes(get_left_byte(self.acr), byte);
    }
}

} // verus!
