//! Words, bytes and the arithmetic of a 16-bit two's-complement machine.
use vstd::arithmetic::div_mod::{
    lemma_fundamental_div_mod, lemma_fundamental_div_mod_converse_mod, lemma_mod_multiples_vanish,
};
use vstd::prelude::*;

verus! {

/// The sixteen bits of a signed word, read as an unsigned number.
pub open spec fn bits(w: i16) -> u16 {
    w as u16
}

/// The signed word that has the sixteen bits of `b`.
pub open spec fn word(b: u16) -> i16 {
    b as i16
}

/// The signed word congruent to `x` modulo 2^16: what a 16-bit register
/// keeps of a wider intermediate result.
pub open spec fn wrap16(x: int) -> i16 {
    let r = x % 0x1_0000;
    if r < 0x8000 {
        r as i16
    } else {
        (r - 0x1_0000) as i16
    }
}

/// The signed double word congruent to `x` modulo 2^32.
pub open spec fn wrap32(x: int) -> i32 {
    let r = x % 0x1_0000_0000;
    if r < 0x8000_0000 {
        r as i32
    } else {
        (r - 0x1_0000_0000) as i32
    }
}

/// The high (left, even-numbered) byte of a word.
pub open spec fn left_byte(w: i16) -> u8 {
    (bits(w) >> 8) as u8
}

/// The low (right, odd-numbered) byte of a word.
pub open spec fn right_byte(w: i16) -> u8 {
    (bits(w) & 0x00FF) as u8
}

/// The word made of a left and a right byte.
pub open spec fn pack(left: u8, right: u8) -> i16 {
    word(((left as u16) << 8) | (right as u16))
}

/// A byte read as a signed 8-bit number.
pub open spec fn signed_byte(b: u8) -> i8 {
    b as i8
}

/// Reinterprets a signed word as sixteen bits.
pub fn to_bits(w: i16) -> (b: u16)
    ensures
        b == bits(w),
{
    w as u16
}

/// Reinterprets sixteen bits as a signed word.
pub fn to_word(b: u16) -> (w: i16)
    ensures
        w == word(b),
{
    b as i16
}

/// The high byte of a word.
pub fn get_left_byte(w: i16) -> (b: u8)
    ensures
        b == left_byte(w),
{
    (to_bits(w) >> 8) as u8
}

/// The low byte of a word.
pub fn get_right_byte(w: i16) -> (b: u8)
    ensures
        b == right_byte(w),
{
    (to_bits(w) & 0x00FF) as u8
}

/// The word made of a high and a low byte.
pub fn pack_bytes(left: u8, right: u8) -> (w: i16)
    ensures
        w == pack(left, right),
{
    to_word(((left as u16) << 8) | (right as u16))
}

/// Reinterprets a byte as a signed 8-bit number.
pub fn to_signed_byte(b: u8) -> (s: i8)
    ensures
        s == signed_byte(b),
{
    b as i8
}

/// `base + offset` within 15 bits: a word address.
pub fn offset_word_address(base: u16, offset: i16) -> (a: u16)
    ensures
        a == (base + offset) % 0x8000,
{
    let shifted: u32 = (offset as i32 + 0x8000) as u32;
    ((base as u32 + shifted) % 0x8000) as u16
}

/// `base + offset` within 16 bits: a byte address.
pub fn offset_byte_address(base: u16, offset: i16) -> (a: u16)
    ensures
        a == (base + offset) % 0x1_0000,
{
    let shifted: u32 = (offset as i32 + 0x1_0000) as u32;
    ((base as u32 + shifted) % 0x1_0000) as u16
}

/// The fields of an instruction word are as wide as their masks.
pub proof fn lemma_field_widths(mbr: u16)
    ensures
        mbr & 0x000F < 16,
        mbr & 0x00FF < 256,
        mbr & 0x07FF < 2048,
        (mbr >> 8) & 0x00FF < 256,
{
    assert(mbr & 0x000F < 16 && mbr & 0x00FF < 256 && mbr & 0x07FF < 2048 && (mbr >> 8) & 0x00FF
        < 256) by (bit_vector);
}

/// A word is odd exactly if its lowest bit is set.
pub proof fn lemma_parity(w: i16)
    ensures
        (w & 1 > 0) == (w % 2 != 0),
        (w & 1 == 0) == (w % 2 == 0),
{
    assert(((w & 1 > 0) == (w % 2 != 0)) && ((w & 1 == 0) == (w % 2 == 0))) by (bit_vector);
}

/// Reinterpreting a word as bits and back loses nothing.
pub proof fn lemma_bits_word_inverse(w: i16, b: u16)
    ensures
        word(bits(w)) == w,
        bits(word(b)) == b,
{
    assert((w as u16) as i16 == w && (b as i16) as u16 == b) by (bit_vector);
}

/// A word is its two bytes, and two bytes packed are the bytes of the word.
pub proof fn lemma_pack_inverse(w: i16, left: u8, right: u8)
    ensures
        pack(left_byte(w), right_byte(w)) == w,
        left_byte(pack(left, right)) == left,
        right_byte(pack(left, right)) == right,
{
    let b = bits(w);
    let p = ((left as u16) << 8) | (right as u16);
    assert(((((b >> 8) as u8) as u16) << 8) | (((b & 0x00FF) as u8) as u16) == b) by (bit_vector);
    assert((p >> 8) as u8 == left && (p & 0x00FF) as u8 == right) by (bit_vector)
        requires
            p == ((left as u16) << 8) | (right as u16),
    ;
    lemma_bits_word_inverse(w, p);
}

/// The bits of a word, and the word of given bits, arithmetically.
pub proof fn lemma_bits_value(w: i16, b: u16)
    ensures
        w >= 0 ==> bits(w) == w,
        w < 0 ==> bits(w) == w + 0x1_0000,
        b < 0x8000 ==> word(b) == b,
        b >= 0x8000 ==> word(b) == b - 0x1_0000,
{
    assert((w >= 0 ==> (w as u16) == w) && (w < 0 ==> (w as u16) == w + 0x1_0000)) by (bit_vector);
    assert((b < 0x8000 ==> (b as i16) == b) && (b >= 0x8000 ==> (b as i16) == b - 0x1_0000))
        by (bit_vector);
}

/// A stored result agrees with the exact one in its low sixteen bits, and
/// is the exact one whenever that fits.
pub proof fn lemma_wrap16_keeps_low_bits(x: int)
    ensures
        (wrap16(x) - x) % 0x1_0000 == 0,
        i16::MIN <= x <= i16::MAX ==> wrap16(x) == x,
{
    let q = x / 0x1_0000;
    lemma_fundamental_div_mod(x, 0x1_0000);
    lemma_mod_multiples_vanish(-q, 0, 0x1_0000);
    lemma_mod_multiples_vanish(-q - 1, 0, 0x1_0000);
    if i16::MIN <= x <= i16::MAX {
        if x >= 0 {
            lemma_fundamental_div_mod_converse_mod(x, 0x1_0000, 0, x);
        } else {
            lemma_fundamental_div_mod_converse_mod(x, 0x1_0000, -1, x + 0x1_0000);
        }
    }
}

/// Numbers that agree in their low bits are stored alike.
pub proof fn lemma_wrap_congruent(x: int, y: int)
    ensures
        (x - y) % 0x1_0000 == 0 ==> wrap16(x) == wrap16(y),
        (x - y) % 0x1_0000_0000 == 0 ==> wrap32(x) == wrap32(y),
{
    if (x - y) % 0x1_0000 == 0 {
        let k = (x - y) / 0x1_0000;
        lemma_fundamental_div_mod(x - y, 0x1_0000);
        assert(x == 0x1_0000 * k + y);
        lemma_mod_multiples_vanish(k, y, 0x1_0000);
    }
    if (x - y) % 0x1_0000_0000 == 0 {
        let k = (x - y) / 0x1_0000_0000;
        lemma_fundamental_div_mod(x - y, 0x1_0000_0000);
        assert(x == 0x1_0000_0000 * k + y);
        lemma_mod_multiples_vanish(k, y, 0x1_0000_0000);
    }
}

/// Doubling commutes with keeping the low bits.
pub proof fn lemma_wrap_double(x: int)
    ensures
        wrap16(2 * wrap16(x)) == wrap16(2 * x),
        wrap32(2 * wrap32(x)) == wrap32(2 * x),
{
    let q = x / 0x1_0000;
    let y = wrap16(x);
    lemma_fundamental_div_mod(x, 0x1_0000);
    assert(2 * y - 2 * x == 0x1_0000 * (-2 * q) || 2 * y - 2 * x == 0x1_0000 * (-2 * q - 2));
    lemma_mod_multiples_vanish(-2 * q, 0, 0x1_0000);
    lemma_mod_multiples_vanish(-2 * q - 2, 0, 0x1_0000);
    lemma_wrap_congruent(2 * y, 2 * x);
    let p = x / 0x1_0000_0000;
    let z = wrap32(x);
    lemma_fundamental_div_mod(x, 0x1_0000_0000);
    assert(2 * z - 2 * x == 0x1_0000_0000 * (-2 * p) || 2 * z - 2 * x == 0x1_0000_0000 * (-2 * p
        - 2));
    lemma_mod_multiples_vanish(-2 * p, 0, 0x1_0000_0000);
    lemma_mod_multiples_vanish(-2 * p - 2, 0, 0x1_0000_0000);
    lemma_wrap_congruent(2 * z, 2 * x);
}

} // verus!
