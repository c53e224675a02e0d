//! Bytes, words, and the bits inside them.
//!
//! Contracts are arithmetic wherever a bit pattern has an arithmetic meaning: the high byte of a
//! word is its quotient by 256, a flag is a binary digit, a mask that keeps low bits is a
//! remainder. The lemmas at the end of the file connect the two readings.
use vstd::prelude::*;

use crate::cpu::{FL_C, FL_H, FL_N, FL_Z};
use crate::types::{Byte, SByte, Word};

verus! {

// bit masks
pub const BIT_0: Byte = 1;

pub const BIT_1: Byte = 2;

pub const BIT_2: Byte = 4;

pub const BIT_3: Byte = 8;

pub const BIT_4: Byte = 16;

pub const BIT_5: Byte = 32;

pub const BIT_6: Byte = 64;

pub const BIT_7: Byte = 128;

pub const HIGH_MASK: Word = 0xFF00;

pub const LOW_MASK: Word = 0x00FF;

pub const HIGH_MASK_NIB: Byte = 0xF0;

pub const LOW_MASK_NIB: Byte = 0x0F;


/// The value of the word whose high byte is `high` and whose low byte is `low`.
pub open spec fn word_of(high: u8, low: u8) -> int {
    high * 256 + low
}

/// The high byte of a word.
pub open spec fn high_byte(w: int) -> u8 {
    ((w / 256) % 256) as u8
}

/// The low byte of a word.
pub open spec fn low_byte(w: int) -> u8 {
    (w % 256) as u8
}

/// The signed value of a byte in two's complement.
pub open spec fn signed_value(v: u8) -> int {
    if v < 128 {
        v as int
    } else {
        v - 256
    }
}

/// `2` to the power `i`, for the eight bit positions of a byte.
pub open spec fn bit_weight(i: int) -> int {
    if i == 0 {
        1
    } else if i == 1 {
        2
    } else if i == 2 {
        4
    } else if i == 3 {
        8
    } else if i == 4 {
        16
    } else if i == 5 {
        32
    } else if i == 6 {
        64
    } else {
        128
    }
}

/// Whether bit `i` of `v` is set.
pub open spec fn has_bit(v: u8, i: int) -> bool {
    (if i == 0 {
        v % 2
    } else if i == 1 {
        (v / 2) % 2
    } else if i == 2 {
        (v / 4) % 2
    } else if i == 3 {
        (v / 8) % 2
    } else if i == 4 {
        (v / 16) % 2
    } else if i == 5 {
        (v / 32) % 2
    } else if i == 6 {
        (v / 64) % 2
    } else {
        v / 128
    }) == 1
}

/// `v` with bit `i` set to `on`.
pub open spec fn with_bit(v: u8, i: int, on: bool) -> u8 {
    if has_bit(v, i) == on {
        v
    } else if on {
        (v + bit_weight(i)) as u8
    } else {
        (v - bit_weight(i)) as u8
    }
}

/// `1` for true, `0` for false.
pub open spec fn digit(b: bool) -> int {
    if b {
        1
    } else {
        0
    }
}

/// The flag register that holds the four given flags. Its low nibble is zero.
pub open spec fn flag_byte(z: bool, n: bool, h: bool, c: bool) -> u8 {
    (128 * digit(z) + 64 * digit(n) + 32 * digit(h) + 16 * digit(c)) as u8
}

/// The high byte of a word.
pub fn hi(reg: Word) -> (r: Byte)
    ensures
        r == reg / 256,
        r == high_byte(reg as int),
{
    proof {
        lemma_word_parts(reg);
    }
    (reg >> 8) as Byte
}

/// The low byte of a word.
pub fn lo(reg: Word) -> (r: Byte)
    ensures
        r == reg % 256,
        r == low_byte(reg as int),
{
    proof {
        lemma_word_parts(reg);
    }
    (reg & LOW_MASK) as Byte
}

/// The word with the given high and low bytes.
pub fn combine(high: Byte, low: Byte) -> (r: Word)
    ensures
        r == word_of(high, low),
{
    proof {
        lemma_word_join(high, low);
    }
    (high as Word) << 8 | (low as Word)
}

/// `flag` if `set`, else no flag at all.
pub fn fl_set(flag: Byte, set: bool) -> (r: Byte)
    ensures
        r == if set {
            flag
        } else {
            0
        },
{
    if set {
        flag
    } else {
        0
    }
}

/// The zero flag, set exactly for the value zero.
pub fn fl_z(val: Byte) -> (r: Byte)
    ensures
        r == flag_byte(val == 0, false, false, false),
{
    fl_set(FL_Z, val == 0)
}

/// The flag register with the four given flags.
pub fn fl_pack(z: bool, n: bool, h: bool, c: bool) -> (r: Byte)
    ensures
        r == flag_byte(z, n, h, c),
{
    proof {
        lemma_flag_union(z, n, h, c);
    }
    fl_set(FL_Z, z) | fl_set(FL_N, n) | fl_set(FL_H, h) | fl_set(FL_C, c)
}

/// Bit `idx` of `val`, as a number.
pub fn bit(idx: Byte, val: Byte) -> (r: Byte)
    requires
        idx < 8,
    ensures
        r == digit(has_bit(val, idx as int)),
{
    proof {
        lemma_bit_mask(val, idx);
    }
    (val >> idx) & 1
}

/// Whether bit `idx` of `val` is set.
pub fn bit_test(idx: Byte, val: Byte) -> (r: bool)
    requires
        idx < 8,
    ensures
        r == has_bit(val, idx as int),
{
    bit(idx, val) != 0
}

/// `val` with the bits of the mask `idx` all set, or all cleared.
pub fn bit_set(idx: Byte, val: Byte, set: bool) -> (r: Byte)
    ensures
        r == if set {
            val | idx
        } else {
            val & !idx
        },
{
    if set {
        val | idx
    } else {
        val & !idx
    }
}

/// The byte read as a two's complement number.
pub fn signed(val: Byte) -> (r: SByte)
    ensures
        r == signed_value(val),
{
    proof {
        lemma_signed(val);
    }
    val as SByte
}

/// The word that a signed displacement stands for in wrapping addition.
pub fn sign_extend(val: SByte) -> (r: Word)
    ensures
        r == if val < 0 {
            val + 0x10000
        } else {
            val as int
        },
{
    proof {
        lemma_sign_extend(val);
    }
    val as Word
}

/// `1 << idx`, the mask of one bit.
pub fn bit_mask(idx: Byte) -> (r: Byte)
    requires
        idx < 8,
    ensures
        r == bit_weight(idx as int),
        r == 1u8 << idx,
{
    proof {
        lemma_bit_mask(0, idx);
    }
    1u8 << idx
}

pub proof fn lemma_word_parts(w: u16)
    by (bit_vector)
    ensures
        (w >> 8) as u8 == w / 256,
        (w & 0xFF) as u8 == w % 256,
        w / 256 < 256,
{
}

pub proof fn lemma_word_join(h: u8, l: u8)
    by (bit_vector)
    ensures
        ((h as u16) << 8 | (l as u16)) == h * 256 + l,
{
}

pub proof fn lemma_signed(v: u8)
    by (bit_vector)
    ensures
        v < 128 ==> (v as i8) == v,
        v >= 128 ==> (v as i8) == v - 256,
{
}

pub proof fn lemma_sign_extend(v: i8)
    by (bit_vector)
    ensures
        v >= 0 ==> (v as u16) == v,
        v < 0 ==> (v as u16) == v + 0x10000,
{
}

pub proof fn lemma_flag_union(z: bool, n: bool, h: bool, c: bool)
    by (bit_vector)
    ensures
        (if z {
            128u8
        } else {
            0u8
        }) | (if n {
            64u8
        } else {
            0u8
        }) | (if h {
            32u8
        } else {
            0u8
        }) | (if c {
            16u8
        } else {
            0u8
        }) == (if z {
            128u8
        } else {
            0u8
        }) + (if n {
            64u8
        } else {
            0u8
        }) + (if h {
            32u8
        } else {
            0u8
        }) + (if c {
            16u8
        } else {
            0u8
        }),
{
}

/// One bit of a byte: testing, setting and clearing it by a mask.
pub proof fn lemma_bit_mask(v: u8, i: u8)
    requires
        i < 8,
    ensures
        1u8 << i == bit_weight(i as int),
        ((v >> i) & 1) == digit(has_bit(v, i as int)),
        (v & (1u8 << i) != 0) == has_bit(v, i as int),
        v | (1u8 << i) == with_bit(v, i as int, true),
        v & !(1u8 << i) == with_bit(v, i as int, false),
{
    assert(1u8 << 0u8 == 1 && 1u8 << 1u8 == 2 && 1u8 << 2u8 == 4 && 1u8 << 3u8 == 8 && 1u8 << 4u8
        == 16 && 1u8 << 5u8 == 32 && 1u8 << 6u8 == 64 && 1u8 << 7u8 == 128) by (bit_vector);
    let w = 1u8 << i;
    assert(((v >> i) & 1) == (if i == 0 {
        v % 2
    } else if i == 1 {
        (v / 2) % 2
    } else if i == 2 {
        (v / 4) % 2
    } else if i == 3 {
        (v / 8) % 2
    } else if i == 4 {
        (v / 16) % 2
    } else if i == 5 {
        (v / 32) % 2
    } else if i == 6 {
        (v / 64) % 2
    } else {
        v / 128
    })) by (bit_vector)
        requires
            i < 8,
    ;
    assert((v & w != 0) == ((v >> i) & 1 == 1) && ((v >> i) & 1 <= 1) && ((v >> i) & 1 == 1 ==> v
        | w == v && v & !w == v - w) && ((v >> i) & 1 == 0 ==> v | w == v + w && v & !w == v))
        by (bit_vector)
        requires
            w == 1u8 << i,
            i < 8,
    ;
}

} // verus!
