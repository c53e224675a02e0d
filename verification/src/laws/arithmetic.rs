//! How the operations on bytes and words relate to each other.
use vstd::prelude::*;

use crate::bits;
use crate::cpu::{Cpu, FLAGS, REG_A};
use crate::isa;
use crate::isa::State;

verus! {

/// A word is made of its two bytes, and two bytes are those of the word that they make.
pub proof fn law_word_bytes(w: int, high: u8, low: u8)
    requires
        0 <= w < 0x10000,
    ensures
        bits::word_of(bits::high_byte(w), bits::low_byte(w)) == w,
        bits::high_byte(bits::word_of(high, low)) == high,
        bits::low_byte(bits::word_of(high, low)) == low,
{
}

/// Setting or clearing a bit changes that bit and no other.
pub proof fn law_bits(v: u8, i: u8, on: bool, j: u8)
    requires
        i < 8,
        j < 8,
    ensures
        bits::has_bit(bits::with_bit(v, i as int, on), i as int) == on,
        i != j ==> bits::has_bit(bits::with_bit(v, i as int, on), j as int) == bits::has_bit(
            v,
            j as int,
        ),
{
    let w = bits::with_bit(v, i as int, on);
    bits::lemma_bit_mask(v, i);
    bits::lemma_bit_mask(v, j);
    bits::lemma_bit_mask(w, i);
    bits::lemma_bit_mask(w, j);
    lemma_masks(v, i, j);
}

proof fn lemma_masks(v: u8, i: u8, j: u8)
    by (bit_vector)
    requires
        i < 8,
        j < 8,
    ensures
        (v | (1u8 << i)) & (1u8 << i) != 0,
        (v & !(1u8 << i)) & (1u8 << i) == 0,
        i != j ==> (v | (1u8 << i)) & (1u8 << j) == v & (1u8 << j),
        i != j ==> (v & !(1u8 << i)) & (1u8 << j) == v & (1u8 << j),
{
}

/// The four flags read back as they were set, and setting them touches nothing else.
pub proof fn law_flags(cpu: Cpu, z: bool, n: bool, h: bool, c: bool)
    requires
        cpu.reg.len() == 8,
    ensures
        cpu.set_flags(z, n, h, c).zero() == z,
        cpu.set_flags(z, n, h, c).subtract() == n,
        cpu.set_flags(z, n, h, c).half() == h,
        cpu.set_flags(z, n, h, c).carry() == c,
        cpu.set_flags(z, n, h, c).f() % 16 == 0,
        forall|r: int|
            0 <= r < 8 && r != FLAGS ==> cpu.set_flags(z, n, h, c).reg[r] == cpu.reg[r],
{
}

/// A subtraction takes back what the same addition did to the accumulator, and the other way
/// round.
#[verifier::rlimit(40)]
pub proof fn law_add_sub(cpu: Cpu, v: u8, c: int)
    requires
        cpu.reg.len() == 8,
        0 <= c <= 1,
    ensures
        isa::sub8(isa::add8(cpu, v, c), v, c).a() == cpu.a(),
        isa::add8(isa::sub8(cpu, v, c), v, c).a() == cpu.a(),
{
    lemma_add8(cpu, v, c);
    lemma_sub8(cpu, v, c);
    lemma_add8(isa::sub8(cpu, v, c), v, c);
    lemma_sub8(isa::add8(cpu, v, c), v, c);
}

proof fn lemma_add8(cpu: Cpu, v: u8, c: int)
    requires
        cpu.reg.len() == 8,
    ensures
        isa::add8(cpu, v, c).a() == (cpu.a() + v + c) % 256,
        isa::add8(cpu, v, c).reg.len() == 8,
{
}

proof fn lemma_sub8(cpu: Cpu, v: u8, c: int)
    requires
        cpu.reg.len() == 8,
    ensures
        isa::sub8(cpu, v, c).a() == (cpu.a() - v - c) % 256,
        isa::sub8(cpu, v, c).reg.len() == 8,
{
}

/// A comparison sets the flags of the subtraction and keeps every other register. Its zero flag
/// tells equality, and its carry that the accumulator is smaller.
pub proof fn law_compare(cpu: Cpu, v: u8)
    requires
        cpu.reg.len() == 8,
    ensures
        isa::cp8(cpu, v).f() == isa::sub8(cpu, v, 0).f(),
        forall|r: int| 0 <= r < 8 && r != FLAGS ==> isa::cp8(cpu, v).reg[r] == cpu.reg[r],
        isa::cp8(cpu, v).zero() <==> cpu.a() == v,
        isa::cp8(cpu, v).carry() <==> cpu.a() < v,
{
    let (a, d) = (cpu.a() as int, cpu.a() - v);
    law_flags(cpu, d % 256 == 0, true, a % 16 - v % 16 < 0, d < 0);
    assert(isa::cp8(cpu, v).reg =~= cpu.set_flags(
        d % 256 == 0,
        true,
        a % 16 - v % 16 < 0,
        d < 0,
    ).reg);
}

/// A byte combined with itself by exclusive or is zero.
pub proof fn law_xor_self(cpu: Cpu)
    requires
        cpu.reg.len() == 8,
    ensures
        isa::xor8(cpu, cpu.a()).a() == 0,
        isa::xor8(cpu, cpu.a()).zero(),
{
    let a = cpu.a();
    assert(a ^ a == 0) by (bit_vector);
}

/// A decrement takes back an increment, and the other way round. Neither touches the carry.
pub proof fn law_inc_dec(cpu: Cpu, r: int)
    requires
        cpu.reg.len() == 8,
        0 <= r < 8,
        r != FLAGS,
    ensures
        isa::dec8(isa::inc8(cpu, r), r).reg[r] == cpu.reg[r],
        isa::inc8(isa::dec8(cpu, r), r).reg[r] == cpu.reg[r],
        isa::inc8(cpu, r).carry() == cpu.carry(),
        isa::dec8(cpu, r).carry() == cpu.carry(),
{
}

/// Complementing the accumulator twice restores it.
pub proof fn law_complement(cpu: Cpu)
    requires
        cpu.reg.len() == 8,
    ensures
        isa::cpl(isa::cpl(cpu)).a() == cpu.a(),
        isa::cpl(cpu).zero() == cpu.zero(),
        isa::cpl(cpu).carry() == cpu.carry(),
{
}

/// Inverting the carry twice restores it, and setting it sets it. Both keep the zero flag.
pub proof fn law_carry(cpu: Cpu)
    requires
        cpu.reg.len() == 8,
    ensures
        isa::ccf(cpu).carry() == !cpu.carry(),
        isa::ccf(isa::ccf(cpu)).carry() == cpu.carry(),
        isa::scf(cpu).carry(),
        isa::ccf(cpu).zero() == cpu.zero(),
        isa::scf(cpu).zero() == cpu.zero(),
{
}

/// Rotations around the byte to the left and to the right take each other back.
pub proof fn law_rotate(v: u8, c: bool)
    ensures
        isa::rotated(1, isa::rotated(0, v, c), c) == v,
        isa::rotated(0, isa::rotated(1, v, c), c) == v,
{
    let (left, right) = (isa::rotated(0, v, c), isa::rotated(1, v, c));
    assert(left == 2 * (v % 128) + v / 128);
    assert(left / 2 == v % 128 && left % 2 == v / 128);
    assert(right == v / 2 + 128 * (v % 2));
    assert(right % 128 == v / 2 && right / 128 == v % 2);
}

/// Rotations around the byte and the carry take each other back, and restore the carry.
pub proof fn law_rotate_through_carry(v: u8, c: bool)
    ensures
        isa::rotated(3, isa::rotated(2, v, c), isa::rotated_out(2, v)) == v,
        isa::rotated_out(3, isa::rotated(2, v, c)) == c,
        isa::rotated(2, isa::rotated(3, v, c), isa::rotated_out(3, v)) == v,
        isa::rotated_out(2, isa::rotated(3, v, c)) == c,
{
    let (left, right) = (isa::rotated(2, v, c), isa::rotated(3, v, c));
    assert(left == 2 * (v % 128) + bits::digit(c));
    assert(left / 2 == v % 128 && left % 2 == bits::digit(c));
    assert(right == v / 2 + 128 * bits::digit(c));
    assert(right % 128 == v / 2 && right / 128 == bits::digit(c));
}

/// Swapping the nibbles twice restores them.
pub proof fn law_swap(v: u8, c: bool)
    ensures
        isa::rotated(6, isa::rotated(6, v, c), c) == v,
{
    let swapped = isa::rotated(6, v, c);
    assert(swapped == 16 * (v % 16) + v / 16);
    assert(swapped % 16 == v / 16 && swapped / 16 == v % 16);
}

/// Shifts are arithmetic: SLA doubles, SRL halves an unsigned byte, and SRA halves a signed one,
/// rounding down.
pub proof fn law_shifts(v: u8, c: bool)
    ensures
        isa::rotated(4, v, c) == (2 * v) % 256,
        isa::rotated_out(4, v) == (2 * v >= 256),
        isa::rotated(7, v, c) == v / 2,
        bits::signed_value(isa::rotated(5, v, c)) == bits::signed_value(v) / 2,
{
}

/// A word register reads back as it was set, and the others keep their values.
pub proof fn law_pairs(cpu: Cpu, p: int, w: int, other: int)
    requires
        cpu.reg.len() == 8,
        0 <= p < 4,
        0 <= other < 4,
        0 <= w < 0x10000,
    ensures
        isa::pair(isa::set_pair(cpu, p, w), p) == w,
        other != p ==> isa::pair(isa::set_pair(cpu, p, w), other) == isa::pair(cpu, other),
        isa::set_pair(cpu, p, w).f() == cpu.f(),
        isa::set_pair(cpu, p, w).a() == cpu.a(),
{
}

/// DEC rr takes back INC rr, and the other way round. Neither touches the flags.
pub proof fn law_word_steps(s: State, p: int)
    requires
        s.wf(),
        0 <= p < 4,
    ensures
        ({
            let (inc, dec) = (2 * p, 2 * p + 1);
            &&& isa::pair(isa::word_steps(isa::word_steps(s, inc), dec).cpu, p) == isa::pair(
                s.cpu,
                p,
            )
            &&& isa::pair(isa::word_steps(isa::word_steps(s, dec), inc).cpu, p) == isa::pair(
                s.cpu,
                p,
            )
            &&& isa::word_steps(s, inc).cpu.f() == s.cpu.f()
            &&& isa::word_steps(s, dec).cpu.f() == s.cpu.f()
        }),
{
    reveal(isa::word_steps);
    let w = isa::pair(s.cpu, p);
    let (up, down) = ((w + 1) % 0x10000, (w - 1) % 0x10000);
    law_pairs(s.cpu, p, up, p);
    law_pairs(s.cpu, p, down, p);
    law_pairs(isa::word_steps(s, 2 * p).cpu, p, w, p);
    law_pairs(isa::word_steps(s, 2 * p + 1).cpu, p, w, p);
}

/// Whether both nibbles of a byte are decimal digits.
pub open spec fn packed(v: u8) -> bool {
    v % 16 <= 9 && v / 16 <= 9
}

/// The number that two packed decimal digits stand for.
pub open spec fn decimal(v: u8) -> int {
    10 * (v / 16) + v % 16
}

/// A decimal adjustment after an addition of packed decimals gives their decimal sum, and the
/// carry tells that it passed 99.
#[verifier::rlimit(40)]
pub proof fn law_decimal_sum(cpu: Cpu, v: u8, c: int)
    requires
        cpu.reg.len() == 8,
        packed(cpu.a()),
        packed(v),
        0 <= c <= 1,
    ensures
        packed(isa::daa(isa::add8(cpu, v, c)).a()),
        decimal(isa::daa(isa::add8(cpu, v, c)).a()) == (decimal(cpu.a()) + decimal(v) + c) % 100,
        isa::daa(isa::add8(cpu, v, c)).carry() == (decimal(cpu.a()) + decimal(v) + c >= 100),
{
    let a = cpu.a();
    let sum = a + v + c;
    let t = isa::add8(cpu, v, c);
    let half = a % 16 + v % 16 + c >= 16;
    law_flags(
        cpu.set_reg(REG_A as int, (sum % 256) as u8),
        sum % 256 == 0,
        false,
        half,
        sum >= 256,
    );
    let r = isa::daa_result(t);
    law_flags(
        t.set_reg(REG_A as int, r),
        r == 0,
        false,
        false,
        isa::daa_high(t),
    );
    assert(t.a() == sum % 256);
    assert(isa::daa(t).a() == r);
    lemma_decimal_sum(a as u32, v as u32, c as u32);
}

proof fn lemma_decimal_sum(a: u32, v: u32, c: u32)
    by (bit_vector)
    requires
        a < 256 && v < 256 && c <= 1,
        a % 16 <= 9 && a / 16 <= 9,
        v % 16 <= 9 && v / 16 <= 9,
    ensures
        ({
            let sum = (a + v + c) as u32;
            let low: u32 = if a % 16 + v % 16 + c >= 16 || (sum % 256) % 16 > 9 {
                6
            } else {
                0
            };
            let high: u32 = if sum >= 256 || sum % 256 > 0x99 {
                0x60
            } else {
                0
            };
            let r = ((sum % 256 + low + high) as u32) % 256;
            let d = 10 * (a / 16) + a % 16 + 10 * (v / 16) + v % 16 + c;
            &&& r % 16 <= 9 && r / 16 <= 9
            &&& 10 * (r / 16) + r % 16 == (if d >= 100 {
                d - 100
            } else {
                d
            })
            &&& (sum >= 256 || sum % 256 > 0x99) <==> d >= 100
        }),
{
}

/// A decimal adjustment after a subtraction of packed decimals gives their decimal difference, and
/// the carry tells that it fell below zero.
#[verifier::rlimit(40)]
pub proof fn law_decimal_difference(cpu: Cpu, v: u8, c: int)
    requires
        cpu.reg.len() == 8,
        packed(cpu.a()),
        packed(v),
        0 <= c <= 1,
    ensures
        packed(isa::daa(isa::sub8(cpu, v, c)).a()),
        decimal(isa::daa(isa::sub8(cpu, v, c)).a()) == (decimal(cpu.a()) - decimal(v) - c) % 100,
        isa::daa(isa::sub8(cpu, v, c)).carry() == (decimal(cpu.a()) - decimal(v) - c < 0),
{
    let a = cpu.a();
    let difference = a - v - c;
    let t = isa::sub8(cpu, v, c);
    let half = a % 16 - v % 16 - c < 0;
    law_flags(
        cpu.set_reg(REG_A as int, (difference % 256) as u8),
        difference % 256 == 0,
        true,
        half,
        difference < 0,
    );
    let r = isa::daa_result(t);
    law_flags(
        t.set_reg(REG_A as int, r),
        r == 0,
        true,
        false,
        isa::daa_high(t),
    );
    assert(t.a() == difference % 256);
    assert(isa::daa(t).a() == r);
    let offset = 6 * bits::digit(half) + 0x60 * bits::digit(difference < 0);
    lemma_wrapped(difference, offset);
    assert(r == (difference + 512 - offset) % 256);
    lemma_decimal_difference(a as u32, v as u32, c as u32);
}

proof fn lemma_wrapped(difference: int, offset: int)
    ensures
        (difference % 256 - offset) % 256 == (difference + 512 - offset) % 256,
{
}

proof fn lemma_decimal_difference(a: u32, v: u32, c: u32)
    by (bit_vector)
    requires
        a < 256 && v < 256 && c <= 1,
        a % 16 <= 9 && a / 16 <= 9,
        v % 16 <= 9 && v / 16 <= 9,
    ensures
        ({
            let difference = (a + 256 - v - c) as u32;
            let low: u32 = if a % 16 < v % 16 + c {
                6
            } else {
                0
            };
            let high: u32 = if a < v + c {
                0x60
            } else {
                0
            };
            let r = ((difference + 256 - low - high) as u32) % 256;
            let (m, n) = (10 * (a / 16) + a % 16, 10 * (v / 16) + v % 16 + c);
            &&& r % 16 <= 9 && r / 16 <= 9
            &&& 10 * (r / 16) + r % 16 == (if m < n {
                m + 100 - n
            } else {
                m - n
            })
            &&& a < v + c <==> m < n
        }),
{
}

} // verus!
