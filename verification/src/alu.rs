//! Arithmetic and logic instructions.
//!
//! The line above each group gives the mnemonic, the opcode, the number of cycles, the flags (in
//! the order Z, N, H, C; a dash is a flag that stays) and the effect.
use vstd::prelude::*;

use crate::bits;
use crate::bits::{fl_pack, hi, lo, sign_extend};
use crate::cpu::{
    CPUState, FLAGS, FL_N, REG_A, REG_B, REG_C, REG_D, REG_E, REG_H, REG_L,
};
use crate::isa;
use crate::memory::Memory;
use crate::types::{Byte, SByte, Word};

verus! {

// GMB 8bit-Arithmetic/logical Commands
// ============================================================================
/// Adds two nibbles and a carry. Half carries are easier to follow in 4bit terms.
pub fn alu_add_4bit(a: Byte, b: Byte, c_in: bool) -> (r: (Byte, bool))
    ensures
        r.0 == (a % 16 + b % 16 + bits::digit(c_in)) % 16,
        r.1 == (a % 16 + b % 16 + bits::digit(c_in) >= 16),
{
    proof {
        lemma_nibbles(a);
        lemma_nibbles(b);
    }
    let carry: Byte = if c_in {
        1
    } else {
        0
    };
    let sum: Byte = (a & 0x0F) + (b & 0x0F) + carry;
    proof {
        lemma_nibbles(sum);
    }
    let c_out = sum & 0x10 != 0;
    (sum & 0x0F, c_out)
}

/// Adds two bytes and a carry. Gives the sum, the carry out of the low nibble, and the carry out
/// of the byte.
fn alu_add_8bit(a: Byte, b: Byte, c_in: bool) -> (r: (Byte, bool, bool))
    ensures
        r.0 == (a + b + bits::digit(c_in)) % 256,
        r.1 == (a % 16 + b % 16 + bits::digit(c_in) >= 16),
        r.2 == (a + b + bits::digit(c_in) >= 256),
{
    proof {
        lemma_nibbles(a);
        lemma_nibbles(b);
        lemma_nibble_sum(a as int, b as int, bits::digit(c_in));
    }
    let (low, c_out_lo) = alu_add_4bit(a, b, c_in);
    let (high, c_out_hi) = alu_add_4bit(a >> 4, b >> 4, c_out_lo);
    proof {
        lemma_nibble_join(high, low);
    }
    (high << 4 | low, c_out_lo, c_out_hi)
}

/// Adds `arg` to the accumulator, or subtracts it if `fl_n` is set, with the carry flag taken in
/// if `c_read` is set. `fl_n` becomes part of the flags.
pub fn impl_add_sub_c(cpu: CPUState, arg: Byte, fl_n: Byte, c_read: bool) -> (r: CPUState)
    ensures
        fl_n == 0 ==> r@ == isa::add8(cpu@, arg, bits::digit(c_read && cpu@.carry())),
        fl_n == FL_N ==> r@ == isa::sub8(cpu@, arg, bits::digit(c_read && cpu@.carry())),
        fl_n != 0 ==> r@ == isa::sub8(cpu@, arg, bits::digit(c_read && cpu@.carry())).set_reg(
            FLAGS as int,
            ((isa::sub8(cpu@, arg, bits::digit(c_read && cpu@.carry())).f() - FL_N) as u8) | fl_n,
        ),
{
    let carry = c_read && cpu.carry();
    let mut reg = cpu.reg;
    if fl_n != 0 {
        // for SUB, we invert the arg (1s complement) and add. Note that this will result in
        // an answer that is off-by-one. To correct the result, we leverage the internal
        // carry-out flag in the ALU. In other words, SUB just becomes an ADD with all args
        // inverted, including carries.
        let (sum, h, c) = alu_add_8bit(cpu.reg[REG_A], !arg, !carry);
        proof {
            lemma_complement(arg);
            lemma_nibble_difference(cpu@.a() as int, arg as int, bits::digit(carry));
            lemma_flag_n(bits::flag_byte(sum == 0, false, !h, !c), fl_n);
        }
        reg[REG_A] = sum;
        reg[FLAGS] = fl_pack(sum == 0, false, !h, !c) | fl_n;
    } else {
        let (sum, h, c) = alu_add_8bit(cpu.reg[REG_A], arg, carry);
        reg[REG_A] = sum;
        reg[FLAGS] = fl_pack(sum == 0, false, h, c);
    }
    CPUState { reg, ..cpu }
}

/// Adding two bytes nibble by nibble.
proof fn lemma_nibble_sum(a: int, b: int, c: int)
    requires
        0 <= a < 256,
        0 <= b < 256,
        0 <= c <= 1,
    ensures
        ({
            let low = a % 16 + b % 16 + c;
            let high = a / 16 + b / 16 + bits::digit(low >= 16);
            &&& (a + b + c) % 256 == (high % 16) * 16 + low % 16
            &&& (a + b + c >= 256) == (high >= 16)
        }),
{
    let low = a % 16 + b % 16 + c;
    let carry = bits::digit(low >= 16);
    let high = a / 16 + b / 16 + carry;
    assert(low % 16 == low - 16 * carry);
    assert(a + b + c == 16 * high + low % 16);
    assert(high < 32);
    if high >= 16 {
        assert(high % 16 == high - 16);
    } else {
        assert(high % 16 == high);
    }
}

/// Subtracting a byte is adding its complement, with the carry inverted going in and coming out.
proof fn lemma_nibble_difference(a: int, b: int, c: int)
    requires
        0 <= a < 256,
        0 <= b < 256,
        0 <= c <= 1,
    ensures
        (a + (255 - b) + (1 - c)) % 256 == (a - b - c) % 256,
        (a + (255 - b) + (1 - c) >= 256) == !(a - b - c < 0),
        (a % 16 + (255 - b) % 16 + (1 - c) >= 16) == !(a % 16 - b % 16 - c < 0),
{
    assert((255 - b) % 16 == 15 - b % 16);
}

proof fn lemma_complement(v: u8)
    by (bit_vector)
    ensures
        !v == 255 - v,
{
}

proof fn lemma_nibbles(v: u8)
    by (bit_vector)
    ensures
        v & 0x0F == v % 16,
        v >> 4 == v / 16,
        (v & 0x10 != 0) == ((v / 16) % 2 == 1),
{
}

proof fn lemma_nibble_join(h: u8, l: u8)
    by (bit_vector)
    requires
        h < 16,
        l < 16,
    ensures
        h << 4 | l == h * 16 + l,
{
}

proof fn lemma_flag_n(f: u8, n: u8)
    by (bit_vector)
    ensures
        f | 0 == f,
        n == 64 && (f / 64) % 2 == 0 ==> f | n == f + 64,
{
}

/// Add or subtract without the carry flag.
pub fn impl_add_sub(cpu: CPUState, arg: Byte, fl_n: Byte) -> (r: CPUState)
    ensures
        fl_n == 0 ==> r@ == isa::add8(cpu@, arg, 0),
        fl_n == FL_N ==> r@ == isa::sub8(cpu@, arg, 0),
        fl_n != 0 ==> r@ == isa::sub8(cpu@, arg, 0).set_reg(
            FLAGS as int,
            ((isa::sub8(cpu@, arg, 0).f() - FL_N) as u8) | fl_n,
        ),
{
    impl_add_sub_c(cpu, arg, fl_n, false)
}

/// Add or subtract with the carry flag.
pub fn impl_adc_sbc(cpu: CPUState, arg: Byte, fl_n: Byte) -> (r: CPUState)
    ensures
        fl_n == 0 ==> r@ == isa::add8(cpu@, arg, bits::digit(cpu@.carry())),
        fl_n == FL_N ==> r@ == isa::sub8(cpu@, arg, bits::digit(cpu@.carry())),
        fl_n != 0 ==> r@ == isa::sub8(cpu@, arg, bits::digit(cpu@.carry())).set_reg(
            FLAGS as int,
            ((isa::sub8(cpu@, arg, bits::digit(cpu@.carry())).f() - FL_N) as u8) | fl_n,
        ),
{
    impl_add_sub_c(cpu, arg, fl_n, true)
}

pub fn impl_and(cpu: CPUState, arg: Byte) -> (r: CPUState)
    ensures
        r@ == isa::and8(cpu@, arg),
{
    // z010
    let mut reg = cpu.reg;
    reg[REG_A] = reg[REG_A] & arg;
    reg[FLAGS] = fl_pack(reg[REG_A] == 0, false, true, false);
    CPUState { reg, ..cpu }
}

pub fn impl_xor(cpu: CPUState, arg: Byte) -> (r: CPUState)
    ensures
        r@ == isa::xor8(cpu@, arg),
{
    // z000
    let mut reg = cpu.reg;
    reg[REG_A] = reg[REG_A] ^ arg;
    reg[FLAGS] = fl_pack(reg[REG_A] == 0, false, false, false);
    CPUState { reg, ..cpu }
}

pub fn impl_or(cpu: CPUState, arg: Byte) -> (r: CPUState)
    ensures
        r@ == isa::or8(cpu@, arg),
{
    // z000
    let mut reg = cpu.reg;
    reg[REG_A] = reg[REG_A] | arg;
    reg[FLAGS] = fl_pack(reg[REG_A] == 0, false, false, false);
    CPUState { reg, ..cpu }
}

/// Increments a register, or decrements it if `flag_n` is set. `flag_n` becomes part of the flags.
pub fn impl_inc_dec(cpu: CPUState, dst: usize, flag_n: Byte) -> (r: CPUState)
    requires
        dst < 8,
    ensures
        flag_n == 0 ==> r@ == isa::inc8(cpu@, dst as int),
        flag_n == FL_N ==> r@ == isa::dec8(cpu@, dst as int),
        flag_n != 0 ==> r@ == isa::dec8(cpu@, dst as int).set_reg(
            FLAGS as int,
            ((isa::dec8(cpu@, dst as int).f() - FL_N) as u8) | flag_n,
        ),
{
    // z0h- for inc
    // z1h- for dec
    let mut reg = cpu.reg;
    let val: Byte = reg[dst];
    proof {
        lemma_nibbles(val);
    }
    let (h, res) = if flag_n != 0 {
        (val & 0x0F == 0x00, val.wrapping_sub(1))
    } else {
        (val & 0x0F == 0x0F, val.wrapping_add(1))
    };
    // maintain the carry, we'll set the rest
    let flags: Byte = fl_pack(res == 0, false, h, cpu.carry()) | flag_n;
    proof {
        lemma_flag_n(bits::flag_byte(res == 0, false, h, cpu@.carry()), flag_n);
    }
    reg[dst] = res;
    reg[FLAGS] = flags;
    CPUState { reg, ..cpu }
}

/// Increments a pair of registers.
#[verifier::rlimit(40)]
pub fn impl_inc16(cpu: CPUState, high: usize, low: usize) -> (r: CPUState)
    requires
        high < 8,
        low < 8,
    ensures
        r@ == cpu@.set_pair(
            high as int,
            low as int,
            (bits::word_of(cpu.reg[high as int], cpu.reg[low as int]) + 1) % 0x10000,
        ),
{
    let mut reg = cpu.reg;
    let operand: Word = bits::combine(reg[high], reg[low]);
    let res: Word = operand.wrapping_add(1);
    reg[high] = hi(res);
    reg[low] = lo(res);
    CPUState { reg, ..cpu }
}

/// Decrements a pair of registers.
#[verifier::rlimit(40)]
pub fn impl_dec16(cpu: CPUState, high: usize, low: usize) -> (r: CPUState)
    requires
        high < 8,
        low < 8,
    ensures
        r@ == cpu@.set_pair(
            high as int,
            low as int,
            (bits::word_of(cpu.reg[high as int], cpu.reg[low as int]) - 1) % 0x10000,
        ),
{
    let mut reg = cpu.reg;
    let operand: Word = bits::combine(reg[high], reg[low]);
    let res: Word = operand.wrapping_sub(1);
    reg[high] = hi(res);
    reg[low] = lo(res);
    CPUState { reg, ..cpu }
}

/// Compares: the flags of a subtraction, and nothing else of it.
pub fn impl_cp(cpu: CPUState, arg: Byte) -> (r: CPUState)
    ensures
        r@ == isa::cp8(cpu@, arg),
{
    let mut reg = cpu.reg;
    let flagged = impl_add_sub(cpu, arg, FL_N);
    reg[FLAGS] = flagged.reg[FLAGS];
    CPUState { reg, ..flagged }
}

//   add  A,r         8x         4 z0hc A=A+r
// ----------------------------------------------------------------------------
pub fn add_r(cpu: CPUState, src: usize) -> (r: CPUState)
    requires
        src < 8,
        cpu.pc + 1 <= 0xFFFF,
        cpu.tsc + 4 <= u64::MAX,
    ensures
        r@ == isa::add8(cpu@, cpu.reg[src as int], 0).adv_pc(1).tick(4),
{
    impl_add_sub(cpu, cpu.reg[src], 0).adv_pc(1).tick(4)
}

//   add  A,n         C6 nn      8 z0hc A=A+n
// ----------------------------------------------------------------------------
pub fn add_d8(cpu: CPUState, d8: Byte) -> (r: CPUState)
    requires
        cpu.pc + 2 <= 0xFFFF,
        cpu.tsc + 8 <= u64::MAX,
    ensures
        r@ == isa::add8(cpu@, d8, 0).adv_pc(2).tick(8),
{
    impl_add_sub(cpu, d8, 0).adv_pc(2).tick(8)
}

//   add  A,(HL)      86         8 z0hc A=A+(HL)
// ----------------------------------------------------------------------------
pub fn add_HL(cpu: CPUState, mem: &Memory) -> (r: CPUState)
    requires
        cpu.pc + 1 <= 0xFFFF,
        cpu.tsc + 8 <= u64::MAX,
    ensures
        r@ == isa::add8(cpu@, mem@.read(cpu@.hl()), 0).adv_pc(1).tick(8),
{
    impl_add_sub(cpu, mem.read(cpu.HL()), 0).adv_pc(1).tick(8)
}

//   adc  A,r         8x         4 z0hc A=A+r+cy
// ----------------------------------------------------------------------------
pub fn adc_r(cpu: CPUState, src: usize) -> (r: CPUState)
    requires
        src < 8,
        cpu.pc + 1 <= 0xFFFF,
        cpu.tsc + 4 <= u64::MAX,
    ensures
        r@ == isa::add8(cpu@, cpu.reg[src as int], bits::digit(cpu@.carry())).adv_pc(1).tick(4),
{
    impl_adc_sbc(cpu, cpu.reg[src], 0).adv_pc(1).tick(4)
}

//   adc  A,n         CE nn      8 z0hc A=A+n+cy
// ----------------------------------------------------------------------------
pub fn adc_d8(cpu: CPUState, d8: Byte) -> (r: CPUState)
    requires
        cpu.pc + 2 <= 0xFFFF,
        cpu.tsc + 8 <= u64::MAX,
    ensures
        r@ == isa::add8(cpu@, d8, bits::digit(cpu@.carry())).adv_pc(2).tick(8),
{
    impl_adc_sbc(cpu, d8, 0).adv_pc(2).tick(8)
}

//   adc  A,(HL)      8E         8 z0hc A=A+(HL)+cy
// ----------------------------------------------------------------------------
pub fn adc_HL(cpu: CPUState, mem: &Memory) -> (r: CPUState)
    requires
        cpu.pc + 1 <= 0xFFFF,
        cpu.tsc + 8 <= u64::MAX,
    ensures
        r@ == isa::add8(cpu@, mem@.read(cpu@.hl()), bits::digit(cpu@.carry())).adv_pc(1).tick(8),
{
    impl_adc_sbc(cpu, mem.read(cpu.HL()), 0).adv_pc(1).tick(8)
}

//   sub  r           9x         4 z1hc A=A-r
// ----------------------------------------------------------------------------
pub fn sub_r(cpu: CPUState, src: usize) -> (r: CPUState)
    requires
        src < 8,
        cpu.pc + 1 <= 0xFFFF,
        cpu.tsc + 4 <= u64::MAX,
    ensures
        r@ == isa::sub8(cpu@, cpu.reg[src as int], 0).adv_pc(1).tick(4),
{
    impl_add_sub(cpu, cpu.reg[src], FL_N).adv_pc(1).tick(4)
}

//   sub  n           D6 nn      8 z1hc A=A-n
// ----------------------------------------------------------------------------
pub fn sub_d8(cpu: CPUState, d8: Byte) -> (r: CPUState)
    requires
        cpu.pc + 2 <= 0xFFFF,
        cpu.tsc + 8 <= u64::MAX,
    ensures
        r@ == isa::sub8(cpu@, d8, 0).adv_pc(2).tick(8),
{
    impl_add_sub(cpu, d8, FL_N).adv_pc(2).tick(8)
}

//   sub  (HL)        96         8 z1hc A=A-(HL)
// ----------------------------------------------------------------------------
pub fn sub_HL(cpu: CPUState, mem: &Memory) -> (r: CPUState)
    requires
        cpu.pc + 1 <= 0xFFFF,
        cpu.tsc + 8 <= u64::MAX,
    ensures
        r@ == isa::sub8(cpu@, mem@.read(cpu@.hl()), 0).adv_pc(1).tick(8),
{
    impl_add_sub(cpu, mem.read(cpu.HL()), FL_N).adv_pc(1).tick(8)
}

//   sbc  A,r         9x         4 z1hc A=A-r-cy
// ----------------------------------------------------------------------------
pub fn sbc_r(cpu: CPUState, src: usize) -> (r: CPUState)
    requires
        src < 8,
        cpu.pc + 1 <= 0xFFFF,
        cpu.tsc + 4 <= u64::MAX,
    ensures
        r@ == isa::sub8(cpu@, cpu.reg[src as int], bits::digit(cpu@.carry())).adv_pc(1).tick(4),
{
    impl_adc_sbc(cpu, cpu.reg[src], FL_N).adv_pc(1).tick(4)
}

//   sbc  A,n         DE nn      8 z1hc A=A-n-cy
// ----------------------------------------------------------------------------
pub fn sbc_d8(cpu: CPUState, d8: Byte) -> (r: CPUState)
    requires
        cpu.pc + 2 <= 0xFFFF,
        cpu.tsc + 8 <= u64::MAX,
    ensures
        r@ == isa::sub8(cpu@, d8, bits::digit(cpu@.carry())).adv_pc(2).tick(8),
{
    impl_adc_sbc(cpu, d8, FL_N).adv_pc(2).tick(8)
}

//   sbc  A,(HL)      9E         8 z1hc A=A-(HL)-cy
// ----------------------------------------------------------------------------
pub fn sbc_HL(cpu: CPUState, mem: &Memory) -> (r: CPUState)
    requires
        cpu.pc + 1 <= 0xFFFF,
        cpu.tsc + 8 <= u64::MAX,
    ensures
        r@ == isa::sub8(cpu@, mem@.read(cpu@.hl()), bits::digit(cpu@.carry())).adv_pc(1).tick(8),
{
    impl_adc_sbc(cpu, mem.read(cpu.HL()), FL_N).adv_pc(1).tick(8)
}

//   and  r           Ax         4 z010 A=A & r
// ----------------------------------------------------------------------------
pub fn and_r(cpu: CPUState, src: usize) -> (r: CPUState)
    requires
        src < 8,
        cpu.pc + 1 <= 0xFFFF,
        cpu.tsc + 4 <= u64::MAX,
    ensures
        r@ == isa::and8(cpu@, cpu.reg[src as int]).adv_pc(1).tick(4),
{
    impl_and(cpu, cpu.reg[src]).adv_pc(1).tick(4)
}

//   and  n           E6 nn      8 z010 A=A & n
// ----------------------------------------------------------------------------
pub fn and_d8(cpu: CPUState, d8: Byte) -> (r: CPUState)
    requires
        cpu.pc + 2 <= 0xFFFF,
        cpu.tsc + 8 <= u64::MAX,
    ensures
        r@ == isa::and8(cpu@, d8).adv_pc(2).tick(8),
{
    impl_and(cpu, d8).adv_pc(2).tick(8)
}

//   and  (HL)        A6         8 z010 A=A & (HL)
// ----------------------------------------------------------------------------
pub fn and_HL(cpu: CPUState, mem: &Memory) -> (r: CPUState)
    requires
        cpu.pc + 1 <= 0xFFFF,
        cpu.tsc + 8 <= u64::MAX,
    ensures
        r@ == isa::and8(cpu@, mem@.read(cpu@.hl())).adv_pc(1).tick(8),
{
    impl_and(cpu, mem.read(cpu.HL())).adv_pc(1).tick(8)
}

//   xor  r           Ax         4 z000 A=A ^ r
// ----------------------------------------------------------------------------
pub fn xor_r(cpu: CPUState, src: usize) -> (r: CPUState)
    requires
        src < 8,
        cpu.pc + 1 <= 0xFFFF,
        cpu.tsc + 4 <= u64::MAX,
    ensures
        r@ == isa::xor8(cpu@, cpu.reg[src as int]).adv_pc(1).tick(4),
{
    impl_xor(cpu, cpu.reg[src]).adv_pc(1).tick(4)
}

//   xor  n           EE nn      8 z000 A=A ^ n
// ----------------------------------------------------------------------------
pub fn xor_d8(cpu: CPUState, d8: Byte) -> (r: CPUState)
    requires
        cpu.pc + 2 <= 0xFFFF,
        cpu.tsc + 8 <= u64::MAX,
    ensures
        r@ == isa::xor8(cpu@, d8).adv_pc(2).tick(8),
{
    impl_xor(cpu, d8).adv_pc(2).tick(8)
}

//   xor  (HL)        AE         8 z000 A=A ^ (HL)
// ----------------------------------------------------------------------------
pub fn xor_HL(cpu: CPUState, mem: &Memory) -> (r: CPUState)
    requires
        cpu.pc + 1 <= 0xFFFF,
        cpu.tsc + 8 <= u64::MAX,
    ensures
        r@ == isa::xor8(cpu@, mem@.read(cpu@.hl())).adv_pc(1).tick(8),
{
    impl_xor(cpu, mem.read(cpu.HL())).adv_pc(1).tick(8)
}

//   or   r           Bx         4 z000 A=A | r
// ----------------------------------------------------------------------------
pub fn or_r(cpu: CPUState, src: usize) -> (r: CPUState)
    requires
        src < 8,
        cpu.pc + 1 <= 0xFFFF,
        cpu.tsc + 4 <= u64::MAX,
    ensures
        r@ == isa::or8(cpu@, cpu.reg[src as int]).adv_pc(1).tick(4),
{
    impl_or(cpu, cpu.reg[src]).adv_pc(1).tick(4)
}

//   or   n           F6 nn      8 z000 A=A | n
// ----------------------------------------------------------------------------
pub fn or_d8(cpu: CPUState, d8: Byte) -> (r: CPUState)
    requires
        cpu.pc + 2 <= 0xFFFF,
        cpu.tsc + 8 <= u64::MAX,
    ensures
        r@ == isa::or8(cpu@, d8).adv_pc(2).tick(8),
{
    impl_or(cpu, d8).adv_pc(2).tick(8)
}

//   or   (HL)        B6         8 z000 A=A | (HL)
// ----------------------------------------------------------------------------
pub fn or_HL(cpu: CPUState, mem: &Memory) -> (r: CPUState)
    requires
        cpu.pc + 1 <= 0xFFFF,
        cpu.tsc + 8 <= u64::MAX,
    ensures
        r@ == isa::or8(cpu@, mem@.read(cpu@.hl())).adv_pc(1).tick(8),
{
    impl_or(cpu, mem.read(cpu.HL())).adv_pc(1).tick(8)
}

//   cp   r           Bx         4 z1hc compare A-r
// ----------------------------------------------------------------------------
pub fn cp_r(cpu: CPUState, src: usize) -> (r: CPUState)
    requires
        src < 8,
        cpu.pc + 1 <= 0xFFFF,
        cpu.tsc + 4 <= u64::MAX,
    ensures
        r@ == isa::cp8(cpu@, cpu.reg[src as int]).adv_pc(1).tick(4),
{
    impl_cp(cpu, cpu.reg[src]).adv_pc(1).tick(4)
}

//   cp   n           FE nn      8 z1hc compare A-n
// ----------------------------------------------------------------------------
pub fn cp_d8(cpu: CPUState, d8: Byte) -> (r: CPUState)
    requires
        cpu.pc + 2 <= 0xFFFF,
        cpu.tsc + 8 <= u64::MAX,
    ensures
        r@ == isa::cp8(cpu@, d8).adv_pc(2).tick(8),
{
    impl_cp(cpu, d8).adv_pc(2).tick(8)
}

//   cp   (HL)        BE         8 z1hc compare A-(HL)
// ----------------------------------------------------------------------------
pub fn cp_HL(cpu: CPUState, mem: &Memory) -> (r: CPUState)
    requires
        cpu.pc + 1 <= 0xFFFF,
        cpu.tsc + 8 <= u64::MAX,
    ensures
        r@ == isa::cp8(cpu@, mem@.read(cpu@.hl())).adv_pc(1).tick(8),
{
    impl_cp(cpu, mem.read(cpu.HL())).adv_pc(1).tick(8)
}

//   inc  r           xx         4 z0h- r=r+1
// ----------------------------------------------------------------------------
pub fn inc_b(cpu: CPUState) -> (r: CPUState)
    requires
        cpu.pc + 1 <= 0xFFFF,
        cpu.tsc + 4 <= u64::MAX,
    ensures
        r@ == isa::inc8(cpu@, REG_B as int).adv_pc(1).tick(4),
{
    impl_inc_dec(cpu, REG_B, 0).adv_pc(1).tick(4)
}

pub fn inc_c(cpu: CPUState) -> (r: CPUState)
    requires
        cpu.pc + 1 <= 0xFFFF,
        cpu.tsc + 4 <= u64::MAX,
    ensures
        r@ == isa::inc8(cpu@, REG_C as int).adv_pc(1).tick(4),
{
    impl_inc_dec(cpu, REG_C, 0).adv_pc(1).tick(4)
}

pub fn inc_d(cpu: CPUState) -> (r: CPUState)
    requires
        cpu.pc + 1 <= 0xFFFF,
        cpu.tsc + 4 <= u64::MAX,
    ensures
        r@ == isa::inc8(cpu@, REG_D as int).adv_pc(1).tick(4),
{
    impl_inc_dec(cpu, REG_D, 0).adv_pc(1).tick(4)
}

pub fn inc_e(cpu: CPUState) -> (r: CPUState)
    requires
        cpu.pc + 1 <= 0xFFFF,
        cpu.tsc + 4 <= u64::MAX,
    ensures
        r@ == isa::inc8(cpu@, REG_E as int).adv_pc(1).tick(4),
{
    impl_inc_dec(cpu, REG_E, 0).adv_pc(1).tick(4)
}

pub fn inc_h(cpu: CPUState) -> (r: CPUState)
    requires
        cpu.pc + 1 <= 0xFFFF,
        cpu.tsc + 4 <= u64::MAX,
    ensures
        r@ == isa::inc8(cpu@, REG_H as int).adv_pc(1).tick(4),
{
    impl_inc_dec(cpu, REG_H, 0).adv_pc(1).tick(4)
}

pub fn inc_l(cpu: CPUState) -> (r: CPUState)
    requires
        cpu.pc + 1 <= 0xFFFF,
        cpu.tsc + 4 <= u64::MAX,
    ensures
        r@ == isa::inc8(cpu@, REG_L as int).adv_pc(1).tick(4),
{
    impl_inc_dec(cpu, REG_L, 0).adv_pc(1).tick(4)
}

pub fn inc_a(cpu: CPUState) -> (r: CPUState)
    requires
        cpu.pc + 1 <= 0xFFFF,
        cpu.tsc + 4 <= u64::MAX,
    ensures
        r@ == isa::inc8(cpu@, REG_A as int).adv_pc(1).tick(4),
{
    impl_inc_dec(cpu, REG_A, 0).adv_pc(1).tick(4)
}

//   inc  (HL)        34        12 z0h- (HL)=(HL)+1
// ----------------------------------------------------------------------------
pub fn inc_HL(cpu: CPUState, mem: &mut Memory) -> (r: CPUState)
    requires
        cpu.pc + 1 <= 0xFFFF,
        cpu.tsc + 12 <= u64::MAX,
    ensures
        r@ == isa::inc_flags(cpu@, old(mem)@.read(cpu@.hl())).adv_pc(1).tick(12),
        final(mem)@ == old(mem)@.write(
            cpu@.hl(),
            isa::up(old(mem)@.read(cpu@.hl())),
        ),
{
    let mut reg = cpu.reg;
    let val: Byte = mem.read(cpu.HL());
    proof {
        lemma_nibbles(val);
    }
    let h = val & 0x0F == 0x0F;
    let res: Byte = val.wrapping_add(1);
    // maintain the carry, we'll set the rest
    reg[FLAGS] = fl_pack(res == 0, false, h, cpu.carry());
    mem.write(cpu.HL(), res);
    CPUState { reg, ..cpu }.adv_pc(1).tick(12)
}

//   dec  r           xx         4 z1h- r=r-1
// ----------------------------------------------------------------------------
pub fn dec_b(cpu: CPUState) -> (r: CPUState)
    requires
        cpu.pc + 1 <= 0xFFFF,
        cpu.tsc + 4 <= u64::MAX,
    ensures
        r@ == isa::dec8(cpu@, REG_B as int).adv_pc(1).tick(4),
{
    impl_inc_dec(cpu, REG_B, FL_N).adv_pc(1).tick(4)
}

pub fn dec_c(cpu: CPUState) -> (r: CPUState)
    requires
        cpu.pc + 1 <= 0xFFFF,
        cpu.tsc + 4 <= u64::MAX,
    ensures
        r@ == isa::dec8(cpu@, REG_C as int).adv_pc(1).tick(4),
{
    impl_inc_dec(cpu, REG_C, FL_N).adv_pc(1).tick(4)
}

pub fn dec_d(cpu: CPUState) -> (r: CPUState)
    requires
        cpu.pc + 1 <= 0xFFFF,
        cpu.tsc + 4 <= u64::MAX,
    ensures
        r@ == isa::dec8(cpu@, REG_D as int).adv_pc(1).tick(4),
{
    impl_inc_dec(cpu, REG_D, FL_N).adv_pc(1).tick(4)
}

pub fn dec_e(cpu: CPUState) -> (r: CPUState)
    requires
        cpu.pc + 1 <= 0xFFFF,
        cpu.tsc + 4 <= u64::MAX,
    ensures
        r@ == isa::dec8(cpu@, REG_E as int).adv_pc(1).tick(4),
{
    impl_inc_dec(cpu, REG_E, FL_N).adv_pc(1).tick(4)
}

pub fn dec_h(cpu: CPUState) -> (r: CPUState)
    requires
        cpu.pc + 1 <= 0xFFFF,
        cpu.tsc + 4 <= u64::MAX,
    ensures
        r@ == isa::dec8(cpu@, REG_H as int).adv_pc(1).tick(4),
{
    impl_inc_dec(cpu, REG_H, FL_N).adv_pc(1).tick(4)
}

pub fn dec_l(cpu: CPUState) -> (r: CPUState)
    requires
        cpu.pc + 1 <= 0xFFFF,
        cpu.tsc + 4 <= u64::MAX,
    ensures
        r@ == isa::dec8(cpu@, REG_L as int).adv_pc(1).tick(4),
{
    impl_inc_dec(cpu, REG_L, FL_N).adv_pc(1).tick(4)
}

pub fn dec_a(cpu: CPUState) -> (r: CPUState)
    requires
        cpu.pc + 1 <= 0xFFFF,
        cpu.tsc + 4 <= u64::MAX,
    ensures
        r@ == isa::dec8(cpu@, REG_A as int).adv_pc(1).tick(4),
{
    impl_inc_dec(cpu, REG_A, FL_N).adv_pc(1).tick(4)
}

//   dec  (HL)        35        12 z1h- (HL)=(HL)-1
// ----------------------------------------------------------------------------
pub fn dec_HL(cpu: CPUState, mem: &mut Memory) -> (r: CPUState)
    requires
        cpu.pc + 1 <= 0xFFFF,
        cpu.tsc + 12 <= u64::MAX,
    ensures
        r@ == isa::dec_flags(cpu@, old(mem)@.read(cpu@.hl())).adv_pc(1).tick(12),
        final(mem)@ == old(mem)@.write(
            cpu@.hl(),
            isa::down(old(mem)@.read(cpu@.hl())),
        ),
{
    let mut reg = cpu.reg;
    let val: Byte = mem.read(cpu.HL());
    proof {
        lemma_nibbles(val);
    }
    let h = val & 0x0F == 0x00;
    let res: Byte = val.wrapping_sub(1);
    // maintain the carry, we'll set the rest
    reg[FLAGS] = fl_pack(res == 0, true, h, cpu.carry());
    mem.write(cpu.HL(), res);
    CPUState { reg, ..cpu }.adv_pc(1).tick(12)
}

//   daa              27         4 z-0x decimal adjust akku
// ----------------------------------------------------------------------------
#[verifier::rlimit(40)]
pub fn daa(cpu: CPUState) -> (r: CPUState)
    requires
        cpu.pc + 1 <= 0xFFFF,
        cpu.tsc + 4 <= u64::MAX,
    ensures
        r@ == isa::daa(cpu@).adv_pc(1).tick(4),
{
    let mut reg = cpu.reg;
    let acc: Byte = cpu.reg[REG_A];
    proof {
        lemma_nibbles(acc);
    }
    // (previous instruction was a subtraction)
    let prev_sub = cpu.subtract();

    // https://ehaskins.com/2018-01-30%20Z80%20DAA/
    let mut offset: Byte = 0x00;
    let mut carry = false;
    if cpu.half() || ((acc & 0x0f) > 0x09 && !prev_sub) {
        offset = 0x06;
    }
    if cpu.carry() || (acc > 0x99 && !prev_sub) {
        offset = offset + 0x60;
        carry = true;
    }
    assert(offset == 6 * bits::digit(isa::daa_low(cpu@)) + 0x60 * bits::digit(
        isa::daa_high(cpu@),
    ));
    reg[REG_A] = if prev_sub {
        acc.wrapping_sub(offset)
    } else {
        acc.wrapping_add(offset)
    };
    assert(reg[REG_A as int] == isa::daa_result(cpu@));
    reg[FLAGS] = fl_pack(reg[REG_A] == 0, prev_sub, false, carry);
    CPUState { reg, ..cpu }.adv_pc(1).tick(4)
}

//   cpl              2F         4 -11- A = A xor FF
// ----------------------------------------------------------------------------
pub fn cpl(cpu: CPUState) -> (r: CPUState)
    requires
        cpu.pc + 1 <= 0xFFFF,
        cpu.tsc + 4 <= u64::MAX,
    ensures
        r@ == isa::cpl(cpu@).adv_pc(1).tick(4),
{
    let mut reg = cpu.reg;
    proof {
        lemma_complement(cpu.reg[REG_A as int]);
    }
    reg[REG_A] = !reg[REG_A];
    reg[FLAGS] = fl_pack(cpu.zero(), true, true, cpu.carry());
    CPUState { reg, ..cpu }.adv_pc(1).tick(4)
}

// GMB 16bit-Arithmetic/logical Commands
// ============================================================================
//   add  HL,rr     x9           8 -0hc HL = HL+rr     ;rr may be BC,DE,HL,SP
// ----------------------------------------------------------------------------
pub fn impl_add_hl_rr(cpu: CPUState, rr: Word) -> (r: CPUState)
    requires
        cpu.pc + 1 <= 0xFFFF,
        cpu.tsc + 8 <= u64::MAX,
    ensures
        r@ == isa::add_hl(cpu@, rr as int).adv_pc(1).tick(8),
{
    let mut reg = cpu.reg;

    let hl: Word = cpu.HL();
    let result: Word = hl.wrapping_add(rr);
    let c = result < hl;
    let half_carries: Word = result ^ (hl ^ rr);
    proof {
        lemma_half_carry(hl, rr, result);
    }

    // https://stackoverflow.com/questions/57958631/game-boy-half-carry-flag-and-16-bit-instructions-especially-opcode-0xe8
    // we only test the high byte because of the order of operations of adding (low byte, then high byte).
    // half-carry MAY be set on the low byte, but it doesn't matter for the final result of the flag
    reg[FLAGS] = fl_pack(cpu.zero(), false, half_carries & 0x1000 != 0, c);
    reg[REG_H] = hi(result);
    reg[REG_L] = lo(result);

    CPUState { reg, ..cpu }.adv_pc(1).tick(8)
}

/// A sum with its summands taken out again leaves the carries into each bit.
proof fn lemma_half_carry(a: u16, b: u16, sum: u16)
    requires
        sum == (a + b) % 0x10000,
    ensures
        ((sum ^ (a ^ b)) & 0x1000 != 0) == (a % 0x1000 + b % 0x1000 >= 0x1000),
        ((sum ^ (a ^ b)) & 0x0010 != 0) == (a % 16 + b % 16 >= 16),
        ((sum ^ (a ^ b)) & 0x0100 != 0) == (a % 256 + b % 256 >= 256),
{
    assert(((sum ^ (a ^ b)) & 0x1000 != 0) == (a % 0x1000 + b % 0x1000 >= 0x1000) && ((sum ^ (a
        ^ b)) & 0x0010 != 0) == (a % 16 + b % 16 >= 16) && ((sum ^ (a ^ b)) & 0x0100 != 0) == (a
        % 256 + b % 256 >= 256)) by (bit_vector)
        requires
            a + b < 0x10000 ==> sum == a + b,
            a + b >= 0x10000 ==> sum == a + b - 0x10000,
    ;
}

pub fn add_hl_bc(cpu: CPUState) -> (r: CPUState)
    requires
        cpu.pc + 1 <= 0xFFFF,
        cpu.tsc + 8 <= u64::MAX,
    ensures
        r@ == isa::add_hl(cpu@, cpu@.bc()).adv_pc(1).tick(8),
{
    impl_add_hl_rr(cpu, cpu.BC())
}

pub fn add_hl_de(cpu: CPUState) -> (r: CPUState)
    requires
        cpu.pc + 1 <= 0xFFFF,
        cpu.tsc + 8 <= u64::MAX,
    ensures
        r@ == isa::add_hl(cpu@, cpu@.de()).adv_pc(1).tick(8),
{
    impl_add_hl_rr(cpu, cpu.DE())
}

pub fn add_hl_hl(cpu: CPUState) -> (r: CPUState)
    requires
        cpu.pc + 1 <= 0xFFFF,
        cpu.tsc + 8 <= u64::MAX,
    ensures
        r@ == isa::add_hl(cpu@, cpu@.hl()).adv_pc(1).tick(8),
{
    impl_add_hl_rr(cpu, cpu.HL())
}

pub fn add_hl_sp(cpu: CPUState) -> (r: CPUState)
    requires
        cpu.pc + 1 <= 0xFFFF,
        cpu.tsc + 8 <= u64::MAX,
    ensures
        r@ == isa::add_hl(cpu@, cpu@.sp).adv_pc(1).tick(8),
{
    impl_add_hl_rr(cpu, cpu.sp)
}

//   inc  rr        x3           8 ---- rr = rr+1      ;rr may be BC,DE,HL,SP
// ----------------------------------------------------------------------------
pub fn inc_bc(cpu: CPUState) -> (r: CPUState)
    requires
        cpu.pc + 1 <= 0xFFFF,
        cpu.tsc + 8 <= u64::MAX,
    ensures
        r@ == isa::set_pair(cpu@, 0, (cpu@.bc() + 1) % 0x10000).adv_pc(1).tick(8),
{
    impl_inc16(cpu, REG_B, REG_C).adv_pc(1).tick(8)
}

pub fn inc_de(cpu: CPUState) -> (r: CPUState)
    requires
        cpu.pc + 1 <= 0xFFFF,
        cpu.tsc + 8 <= u64::MAX,
    ensures
        r@ == isa::set_pair(cpu@, 1, (cpu@.de() + 1) % 0x10000).adv_pc(1).tick(8),
{
    impl_inc16(cpu, REG_D, REG_E).adv_pc(1).tick(8)
}

pub fn inc_hl(cpu: CPUState) -> (r: CPUState)
    requires
        cpu.pc + 1 <= 0xFFFF,
        cpu.tsc + 8 <= u64::MAX,
    ensures
        r@ == isa::set_pair(cpu@, 2, (cpu@.hl() + 1) % 0x10000).adv_pc(1).tick(8),
{
    impl_inc16(cpu, REG_H, REG_L).adv_pc(1).tick(8)
}

pub fn inc_sp(cpu: CPUState) -> (r: CPUState)
    requires
        cpu.pc + 1 <= 0xFFFF,
        cpu.tsc + 8 <= u64::MAX,
    ensures
        r@ == isa::set_pair(cpu@, 3, (cpu@.sp + 1) % 0x10000).adv_pc(1).tick(8),
{
    let res: Word = cpu.sp.wrapping_add(1);
    CPUState { pc: cpu.pc + 1, tsc: cpu.tsc + 8, sp: res, ..cpu }
}

//   dec  rr        xB           8 ---- rr = rr-1      ;rr may be BC,DE,HL,SP
// ----------------------------------------------------------------------------
pub fn dec_bc(cpu: CPUState) -> (r: CPUState)
    requires
        cpu.pc + 1 <= 0xFFFF,
        cpu.tsc + 8 <= u64::MAX,
    ensures
        r@ == isa::set_pair(cpu@, 0, (cpu@.bc() - 1) % 0x10000).adv_pc(1).tick(8),
{
    impl_dec16(cpu, REG_B, REG_C).adv_pc(1).tick(8)
}

pub fn dec_de(cpu: CPUState) -> (r: CPUState)
    requires
        cpu.pc + 1 <= 0xFFFF,
        cpu.tsc + 8 <= u64::MAX,
    ensures
        r@ == isa::set_pair(cpu@, 1, (cpu@.de() - 1) % 0x10000).adv_pc(1).tick(8),
{
    impl_dec16(cpu, REG_D, REG_E).adv_pc(1).tick(8)
}

pub fn dec_hl(cpu: CPUState) -> (r: CPUState)
    requires
        cpu.pc + 1 <= 0xFFFF,
        cpu.tsc + 8 <= u64::MAX,
    ensures
        r@ == isa::set_pair(cpu@, 2, (cpu@.hl() - 1) % 0x10000).adv_pc(1).tick(8),
{
    impl_dec16(cpu, REG_H, REG_L).adv_pc(1).tick(8)
}

pub fn dec_sp(cpu: CPUState) -> (r: CPUState)
    requires
        cpu.pc + 1 <= 0xFFFF,
        cpu.tsc + 8 <= u64::MAX,
    ensures
        r@ == isa::set_pair(cpu@, 3, (cpu@.sp - 1) % 0x10000).adv_pc(1).tick(8),
{
    let res: Word = cpu.sp.wrapping_sub(1);
    CPUState { pc: cpu.pc + 1, tsc: cpu.tsc + 8, sp: res, ..cpu }
}

/// Wrapping addition of a sign extended byte is addition of the signed number.
proof fn lemma_displaced(sp: u16, d: i8, extended: u16, sum: u16)
    requires
        extended == if d < 0 {
            d + 0x10000
        } else {
            d as int
        },
        sum == (sp + extended) % 0x10000,
    ensures
        sum == (sp + d) % 0x10000,
        extended % 16 == (d as int) % 16,
        extended % 256 == (d as int) % 256,
{
}

//   add  SP,dd     E8          16 00hc SP = SP +/- dd ;dd is 8bit signed number
pub fn add_sp_r8(cpu: CPUState, arg: SByte) -> (r: CPUState)
    requires
        cpu.pc + 2 <= 0xFFFF,
        cpu.tsc + 16 <= u64::MAX,
    ensures
        r@ == isa::add_sp(cpu@, arg as int).adv_pc(2).tick(16),
{
    // https://stackoverflow.com/questions/62006764/how-is-xor-applied-when-determining-carry
    let argx: Word = sign_extend(arg);
    let sp0: Word = cpu.sp;
    let sp1: Word = cpu.sp.wrapping_add(argx);  // == sp0 ^ argx ^ (c << 1)
    let carry: Word = sp1 ^ (sp0 ^ argx);  // removes sp0 and argx from sp1, leaving c << 1
    proof {
        lemma_half_carry(sp0, argx, sp1);
        lemma_displaced(sp0, arg, argx, sp1);
    }

    let mut reg = cpu.reg;
    reg[FLAGS] = fl_pack(false, false, carry & 0x0010 != 0, carry & 0x0100 != 0);

    CPUState { sp: sp1, reg, ..cpu }.tick(16).adv_pc(2)
}

//   ld   HL,SP+dd  F8          12 00hc HL = SP +/- dd ;dd is 8bit signed number
pub fn ld_hl_sp_r8(cpu: CPUState, arg: SByte) -> (r: CPUState)
    requires
        cpu.pc + 2 <= 0xFFFF,
        cpu.tsc + 12 <= u64::MAX,
    ensures
        r@ == isa::ld_hl_sp(cpu@, arg as int).adv_pc(2).tick(12),
{
    // https://stackoverflow.com/questions/62006764/how-is-xor-applied-when-determining-carry
    let argx: Word = sign_extend(arg);
    let hl: Word = cpu.sp.wrapping_add(argx);  // == sp ^ argx ^ (c << 1)
    let carry: Word = hl ^ (cpu.sp ^ argx);  // removes sp and argx from hl, leaving c << 1
    proof {
        lemma_half_carry(cpu.sp, argx, hl);
        lemma_displaced(cpu.sp, arg, argx, hl);
    }

    let mut reg = cpu.reg;
    reg[FLAGS] = fl_pack(false, false, carry & 0x0010 != 0, carry & 0x0100 != 0);
    reg[REG_H] = hi(hl);
    reg[REG_L] = lo(hl);

    CPUState { reg, ..cpu }.tick(12).adv_pc(2)
}

} // verus!
