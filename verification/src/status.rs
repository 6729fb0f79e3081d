//! Layout of the status register.
//!
//! ```text
//! bit 15 14 13 12 11 10  9  8  7  6 .. 0
//!     [   EXR (5)    ][NEG EQL OVF GBL]  unused
//! ```
use vstd::prelude::*;

verus! {

/// Number of instructions retired in one burst before the executor yields.
pub const MAX_INST: i32 = 1000;

/// The four extension bits that prefix a word address.
pub const EXR_WORD_MASK: u16 = 0xF000;

/// The five extension bits that prefix a byte address.
pub const EXR_BYTE_MASK: u16 = 0xF800;

/// Last compare found the accumulator below the operand.
pub const ADFNEG: u16 = 0x0400;

/// Last compare found the accumulator equal to the operand.
pub const ADFEQL: u16 = 0x0200;

/// Arithmetic overflow.
pub const ADFOVF: u16 = 0x0100;

/// Global addressing mode (clear means local).
pub const ADFGBL: u16 = 0x0080;

/// The displacement field of a memory-reference instruction.
pub const DISPLACEMENT_MASK: u16 = 0x07FF;

/// The indexing flag of a memory-reference instruction.
pub const INDEX_FLAG: u16 = 0x0800;

/// Number of words of core memory.
pub const MEMORY_WORDS: usize = 32768;

/// `status` has every bit of `flag` set.
pub open spec fn flag_set(status: u16, flag: u16) -> bool {
    status & flag != 0
}

/// `status` with the outcome of comparing `a` with `b` recorded: NEG if `a`
/// is less, EQL if they are equal, nothing otherwise.
pub open spec fn compared(status: u16, a: int, b: int) -> u16 {
    if a < b {
        status | ADFNEG
    } else if a == b {
        status | ADFEQL
    } else {
        status
    }
}

/// Setting a flag sets it, clearing a flag clears it, and neither touches
/// any other bit.
pub proof fn lemma_flag_algebra(status: u16, flag: u16)
    ensures
        (status | flag) & flag == flag,
        (status & !flag) & flag == 0,
        (status | flag) & !flag == status & !flag,
        (status & !flag) & !flag == status & !flag,
{
    assert((status | flag) & flag == flag && (status & !flag) & flag == 0 && (status | flag)
        & !flag == status & !flag && (status & !flag) & !flag == status & !flag) by (bit_vector);
}

/// `after` differs from `before` in no bit outside `mask`.
pub open spec fn changed_within(before: u16, after: u16, mask: u16) -> bool {
    after & !mask == before & !mask
}

/// The status register `h` with the page of the program counter `p` as
/// its extension field.
pub open spec fn with_page(p: u16, h: u16) -> u16 {
    ((p << 1) & EXR_BYTE_MASK) | (h & !EXR_BYTE_MASK)
}

/// The ways in which instructions rewrite the status register, each within
/// its mask.
pub proof fn lemma_status_rewrites(s: u16, v: u16)
    ensures
        changed_within(s, v, 0xFFFF),
        changed_within(s, s & !ADFGBL, ADFGBL),
        changed_within(s, s | ADFGBL, ADFGBL),
        changed_within(s, (s & !EXR_BYTE_MASK) | (v & EXR_BYTE_MASK), EXR_BYTE_MASK),
        changed_within(s, (s & !EXR_BYTE_MASK) | ((v & 0x000F) << 11), EXR_BYTE_MASK),
        changed_within(
            s,
            ((s & !EXR_BYTE_MASK) | 0x8000) | ((v & 0x000F) << 11),
            EXR_BYTE_MASK,
        ),
        changed_within(s, s & !(ADFEQL | ADFNEG), ADFNEG | ADFEQL),
        changed_within(s, (s & !(ADFEQL | ADFNEG)) | ADFNEG, ADFNEG | ADFEQL),
        changed_within(s, (s & !(ADFEQL | ADFNEG)) | ADFEQL, ADFNEG | ADFEQL),
        changed_within(s, s & !ADFOVF, ADFOVF),
        changed_within(s, (s & !ADFOVF) | ADFOVF, ADFOVF),
{
    assert((v & !0xFFFFu16 == s & !0xFFFFu16) && ((s & !0x0080u16) & !0x0080u16 == s & !0x0080u16)
        && ((s | 0x0080u16) & !0x0080u16 == s & !0x0080u16) && (((s & !0xF800u16) | (v
        & 0xF800u16)) & !0xF800u16 == s & !0xF800u16) && (((s & !0xF800u16) | ((v & 0x000F) << 11))
        & !0xF800u16 == s & !0xF800u16) && ((((s & !0xF800u16) | 0x8000) | ((v & 0x000F) << 11))
        & !0xF800u16 == s & !0xF800u16) && ((s & !(0x0200u16 | 0x0400u16)) & !(0x0400u16
        | 0x0200u16) == s & !(0x0400u16 | 0x0200u16)) && (((s & !(0x0200u16 | 0x0400u16))
        | 0x0400u16) & !(0x0400u16 | 0x0200u16) == s & !(0x0400u16 | 0x0200u16)) && (((s & !(
    0x0200u16 | 0x0400u16)) | 0x0200u16) & !(0x0400u16 | 0x0200u16) == s & !(0x0400u16
        | 0x0200u16)) && ((s & !0x0100u16) & !0x0100u16 == s & !0x0100u16) && (((s & !0x0100u16)
        | 0x0100u16) & !0x0100u16 == s & !0x0100u16)) by (bit_vector);
}

/// The ways in which memory-reference instructions rewrite the status
/// register: the instruction's own change, then the new extension field.
pub proof fn lemma_status_rewrites_with_page(s: u16, p: u16)
    ensures
        changed_within(s, with_page(p, s), EXR_BYTE_MASK),
        changed_within(s, with_page(p, s | ADFGBL), ADFGBL | EXR_BYTE_MASK),
        changed_within(
            s,
            with_page(p, s & !(ADFGBL | ADFNEG)),
            ADFNEG | ADFEQL | ADFGBL | EXR_BYTE_MASK,
        ),
        changed_within(
            s,
            with_page(p, (s & !(ADFGBL | ADFNEG)) | ADFNEG),
            ADFNEG | ADFEQL | ADFGBL | EXR_BYTE_MASK,
        ),
        changed_within(
            s,
            with_page(p, (s & !(ADFGBL | ADFNEG)) | ADFEQL),
            ADFNEG | ADFEQL | ADFGBL | EXR_BYTE_MASK,
        ),
        changed_within(s, with_page(p, s & !ADFOVF), ADFOVF | EXR_BYTE_MASK),
        changed_within(s, with_page(p, s | ADFOVF), ADFOVF | EXR_BYTE_MASK),
        changed_within(s, with_page(p, s & !(ADFEQL | ADFNEG)), ADFNEG | ADFEQL | EXR_BYTE_MASK),
        changed_within(
            s,
            with_page(p, (s & !(ADFEQL | ADFNEG)) | ADFNEG),
            ADFNEG | ADFEQL | EXR_BYTE_MASK,
        ),
        changed_within(
            s,
            with_page(p, (s & !(ADFEQL | ADFNEG)) | ADFEQL),
            ADFNEG | ADFEQL | EXR_BYTE_MASK,
        ),
{
    let v = p << 1;
    assert((((v & 0xF800u16) | (s & !0xF800u16)) & !0xF800u16 == s & !0xF800u16) && (((v
        & 0xF800u16) | ((s | 0x0080u16) & !0xF800u16)) & !(0x0080u16 | 0xF800u16) == s & !(
    0x0080u16 | 0xF800u16)) && (((v & 0xF800u16) | ((s & !(0x0080u16 | 0x0400u16)) & !0xF800u16))
        & !(0x0400u16 | 0x0200u16 | 0x0080u16 | 0xF800u16) == s & !(0x0400u16 | 0x0200u16
        | 0x0080u16 | 0xF800u16)) && (((v & 0xF800u16) | (((s & !(0x0080u16 | 0x0400u16))
        | 0x0400u16) & !0xF800u16)) & !(0x0400u16 | 0x0200u16 | 0x0080u16 | 0xF800u16) == s & !(
    0x0400u16 | 0x0200u16 | 0x0080u16 | 0xF800u16)) && (((v & 0xF800u16) | (((s & !(0x0080u16
        | 0x0400u16)) | 0x0200u16) & !0xF800u16)) & !(0x0400u16 | 0x0200u16 | 0x0080u16
        | 0xF800u16) == s & !(0x0400u16 | 0x0200u16 | 0x0080u16 | 0xF800u16)) && (((v & 0xF800u16)
        | ((s & !0x0100u16) & !0xF800u16)) & !(0x0100u16 | 0xF800u16) == s & !(0x0100u16
        | 0xF800u16)) && (((v & 0xF800u16) | ((s | 0x0100u16) & !0xF800u16)) & !(0x0100u16
        | 0xF800u16) == s & !(0x0100u16 | 0xF800u16)) && (((v & 0xF800u16) | ((s & !(0x0200u16
        | 0x0400u16)) & !0xF800u16)) & !(0x0400u16 | 0x0200u16 | 0xF800u16) == s & !(0x0400u16
        | 0x0200u16 | 0xF800u16)) && (((v & 0xF800u16) | (((s & !(0x0200u16 | 0x0400u16))
        | 0x0400u16) & !0xF800u16)) & !(0x0400u16 | 0x0200u16 | 0xF800u16) == s & !(0x0400u16
        | 0x0200u16 | 0xF800u16)) && (((v & 0xF800u16) | (((s & !(0x0200u16 | 0x0400u16))
        | 0x0200u16) & !0xF800u16)) & !(0x0400u16 | 0x0200u16 | 0xF800u16) == s & !(0x0400u16
        | 0x0200u16 | 0xF800u16))) by (bit_vector);
}

} // verus!
