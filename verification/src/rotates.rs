//! Rotations, shifts, and instructions on single bits.
use vstd::prelude::*;

use crate::bits;
use crate::bits::{bit_mask, bit_test, fl_pack};
use crate::cpu::{CPUState, FLAGS, REG_A};
use crate::isa;
use crate::memory::Memory;
use crate::types::Byte;

verus! {

// GMB Rotate- und Shift-Commands
// ============================================================================
/// The carry flag as the lowest bit of a byte.
fn carry_bit(cpu: &CPUState) -> (r: Byte)
    ensures
        r == bits::digit(cpu@.carry()),
{
    if cpu.carry() {
        1
    } else {
        0
    }
}

/// Shifts, and unions of shifts whose bits do not meet, as arithmetic.
proof fn lemma_shifts(v: u8, c: u8)
    by (bit_vector)
    requires
        c <= 1,
    ensures
        (v << 1) | (v >> 7) == 2 * (v % 128) + v / 128,
        (v >> 1) | (v << 7) == v / 2 + 128 * (v % 2),
        (v << 1) | c == 2 * (v % 128) + c,
        (v >> 1) | (c << 7) == v / 2 + 128 * c,
        v << 1 == 2 * (v % 128),
        v >> 1 == v / 2,
        (v & 0x80) | (v >> 1) == v / 2 + 128 * (v / 128),
        (v >> 4) | (v << 4) == 16 * (v % 16) + v / 16,
        (v & 1 != 0) == (v % 2 == 1),
        (v & 0x80 != 0) == (v >= 128),
{
}

//   rlca          07           4 000c rotate akku left
// ----------------------------------------------------------------------------
pub fn rlca(cpu: CPUState) -> (r: CPUState)
    requires
        cpu.pc + 1 <= 0xFFFF,
        cpu.tsc + 4 <= u64::MAX,
    ensures
        r@ == isa::rotate_a(cpu@, 0).adv_pc(1).tick(4),
{
    let mut reg = cpu.reg;
    let val: Byte = cpu.reg[REG_A];
    proof {
        lemma_shifts(val, bits::digit(cpu@.carry()) as u8);
    }
    reg[REG_A] = (val << 1) | (val >> 7);
    reg[FLAGS] = fl_pack(false, false, false, val & 0x80 != 0);
    CPUState { pc: cpu.pc + 1, tsc: cpu.tsc + 4, reg, ..cpu }
}

//   rrca          0F           4 000c rotate akku right
// ----------------------------------------------------------------------------
pub fn rrca(cpu: CPUState) -> (r: CPUState)
    requires
        cpu.pc + 1 <= 0xFFFF,
        cpu.tsc + 4 <= u64::MAX,
    ensures
        r@ == isa::rotate_a(cpu@, 1).adv_pc(1).tick(4),
{
    let mut reg = cpu.reg;
    let val: Byte = cpu.reg[REG_A];
    proof {
        lemma_shifts(val, bits::digit(cpu@.carry()) as u8);
    }
    reg[REG_A] = (val >> 1) | (val << 7);
    reg[FLAGS] = fl_pack(false, false, false, val & 1 != 0);
    CPUState { pc: cpu.pc + 1, tsc: cpu.tsc + 4, reg, ..cpu }
}

//   rla           17           4 000c rotate akku left through carry
// ----------------------------------------------------------------------------
pub fn rla(cpu: CPUState) -> (r: CPUState)
    requires
        cpu.pc + 1 <= 0xFFFF,
        cpu.tsc + 4 <= u64::MAX,
    ensures
        r@ == isa::rotate_a(cpu@, 2).adv_pc(1).tick(4),
{
    let mut reg = cpu.reg;
    let val: Byte = cpu.reg[REG_A];
    proof {
        lemma_shifts(val, bits::digit(cpu@.carry()) as u8);
    }
    reg[REG_A] = (val << 1) | carry_bit(&cpu);
    reg[FLAGS] = fl_pack(false, false, false, val & 0x80 != 0);
    CPUState { pc: cpu.pc + 1, tsc: cpu.tsc + 4, reg, ..cpu }
}

//   rra           1F           4 000c rotate akku right through carry
// ----------------------------------------------------------------------------
pub fn rra(cpu: CPUState) -> (r: CPUState)
    requires
        cpu.pc + 1 <= 0xFFFF,
        cpu.tsc + 4 <= u64::MAX,
    ensures
        r@ == isa::rotate_a(cpu@, 3).adv_pc(1).tick(4),
{
    let mut reg = cpu.reg;
    let val: Byte = cpu.reg[REG_A];
    proof {
        lemma_shifts(val, bits::digit(cpu@.carry()) as u8);
    }
    reg[REG_A] = (val >> 1) | (carry_bit(&cpu) << 7);
    reg[FLAGS] = fl_pack(false, false, false, val & 1 != 0);
    CPUState { pc: cpu.pc + 1, tsc: cpu.tsc + 4, reg, ..cpu }
}

//   rlc  r         CB 0x        8 z00c rotate left
// ----------------------------------------------------------------------------
pub fn rlc_r(cpu: CPUState, dst: usize) -> (r: CPUState)
    requires
        dst < 8,
        cpu.pc + 2 <= 0xFFFF,
        cpu.tsc + 8 <= u64::MAX,
    ensures
        r@ == isa::rotate_r(cpu@, 0, dst as int).adv_pc(2).tick(8),
{
    let mut reg = cpu.reg;
    let val: Byte = cpu.reg[dst];
    proof {
        lemma_shifts(val, bits::digit(cpu@.carry()) as u8);
    }
    let result: Byte = (val << 1) | (val >> 7);
    reg[dst] = result;
    reg[FLAGS] = fl_pack(result == 0, false, false, val & 0x80 != 0);
    CPUState { reg, ..cpu }.adv_pc(2).tick(8)
}

//   rlc  (HL)      CB 06       16 z00c rotate left
// ----------------------------------------------------------------------------
pub fn rlc_hl(cpu: CPUState, mem: &mut Memory) -> (r: CPUState)
    requires
        cpu.pc + 2 <= 0xFFFF,
        cpu.tsc + 16 <= u64::MAX,
    ensures
        r@ == isa::rotate_hl(isa::state(cpu@, old(mem)@), 0).cpu.adv_pc(2).tick(16),
        final(mem)@ == isa::rotate_hl(isa::state(cpu@, old(mem)@), 0).mem,
{
    let mut reg = cpu.reg;
    let addr = cpu.HL();
    let cur: Byte = mem.read(addr);
    proof {
        lemma_shifts(cur, bits::digit(cpu@.carry()) as u8);
    }
    let result: Byte = (cur << 1) | (cur >> 7);
    mem.write(addr, result);
    reg[FLAGS] = fl_pack(result == 0, false, false, cur & 0x80 != 0);
    CPUState { reg, ..cpu }.adv_pc(2).tick(16)
}

//   rrc  r         CB 0x        8 z00c rotate right
// ----------------------------------------------------------------------------
pub fn rrc_r(cpu: CPUState, dst: usize) -> (r: CPUState)
    requires
        dst < 8,
        cpu.pc + 2 <= 0xFFFF,
        cpu.tsc + 8 <= u64::MAX,
    ensures
        r@ == isa::rotate_r(cpu@, 1, dst as int).adv_pc(2).tick(8),
{
    let mut reg = cpu.reg;
    let val: Byte = cpu.reg[dst];
    proof {
        lemma_shifts(val, bits::digit(cpu@.carry()) as u8);
    }
    let result: Byte = (val >> 1) | (val << 7);
    reg[dst] = result;
    reg[FLAGS] = fl_pack(result == 0, false, false, val & 1 != 0);
    CPUState { reg, ..cpu }.adv_pc(2).tick(8)
}

//   rrc  (HL)      CB 0E       16 z00c rotate right
// ----------------------------------------------------------------------------
pub fn rrc_hl(cpu: CPUState, mem: &mut Memory) -> (r: CPUState)
    requires
        cpu.pc + 2 <= 0xFFFF,
        cpu.tsc + 16 <= u64::MAX,
    ensures
        r@ == isa::rotate_hl(isa::state(cpu@, old(mem)@), 1).cpu.adv_pc(2).tick(16),
        final(mem)@ == isa::rotate_hl(isa::state(cpu@, old(mem)@), 1).mem,
{
    let mut reg = cpu.reg;
    let addr = cpu.HL();
    let cur: Byte = mem.read(addr);
    proof {
        lemma_shifts(cur, bits::digit(cpu@.carry()) as u8);
    }
    let result: Byte = (cur >> 1) | (cur << 7);
    mem.write(addr, result);
    reg[FLAGS] = fl_pack(result == 0, false, false, cur & 1 != 0);
    CPUState { reg, ..cpu }.adv_pc(2).tick(16)
}

//   rl   r         CB 1x        8 z00c rotate left through carry
// ----------------------------------------------------------------------------
pub fn rl_r(cpu: CPUState, dst: usize) -> (r: CPUState)
    requires
        dst < 8,
        cpu.pc + 2 <= 0xFFFF,
        cpu.tsc + 8 <= u64::MAX,
    ensures
        r@ == isa::rotate_r(cpu@, 2, dst as int).adv_pc(2).tick(8),
{
    let mut reg = cpu.reg;
    let val: Byte = cpu.reg[dst];
    proof {
        lemma_shifts(val, bits::digit(cpu@.carry()) as u8);
    }
    let result: Byte = (val << 1) | carry_bit(&cpu);
    reg[dst] = result;
    reg[FLAGS] = fl_pack(result == 0, false, false, val & 0x80 != 0);
    CPUState { reg, ..cpu }.adv_pc(2).tick(8)
}

//   rl   (HL)      CB 16       16 z00c rotate left through carry
// ----------------------------------------------------------------------------
pub fn rl_hl(cpu: CPUState, mem: &mut Memory) -> (r: CPUState)
    requires
        cpu.pc + 2 <= 0xFFFF,
        cpu.tsc + 16 <= u64::MAX,
    ensures
        r@ == isa::rotate_hl(isa::state(cpu@, old(mem)@), 2).cpu.adv_pc(2).tick(16),
        final(mem)@ == isa::rotate_hl(isa::state(cpu@, old(mem)@), 2).mem,
{
    let mut reg = cpu.reg;
    let addr = cpu.HL();
    let cur: Byte = mem.read(addr);
    proof {
        lemma_shifts(cur, bits::digit(cpu@.carry()) as u8);
    }
    let result: Byte = (cur << 1) | carry_bit(&cpu);
    mem.write(addr, result);
    reg[FLAGS] = fl_pack(mem.read(addr) == 0, false, false, cur & 0x80 != 0);
    CPUState { reg, ..cpu }.adv_pc(2).tick(16)
}

//   rr   r         CB 1x        8 z00c rotate right through carry
// ----------------------------------------------------------------------------
pub fn rr_r(cpu: CPUState, dst: usize) -> (r: CPUState)
    requires
        dst < 8,
        cpu.pc + 2 <= 0xFFFF,
        cpu.tsc + 8 <= u64::MAX,
    ensures
        r@ == isa::rotate_r(cpu@, 3, dst as int).adv_pc(2).tick(8),
{
    let mut reg = cpu.reg;
    let val: Byte = cpu.reg[dst];
    proof {
        lemma_shifts(val, bits::digit(cpu@.carry()) as u8);
    }
    let result: Byte = (val >> 1) | (carry_bit(&cpu) << 7);
    reg[dst] = result;
    reg[FLAGS] = fl_pack(result == 0, false, false, val & 1 != 0);
    CPUState { reg, ..cpu }.adv_pc(2).tick(8)
}

//   rr   (HL)      CB 1E       16 z00c rotate right through carry
// ----------------------------------------------------------------------------
pub fn rr_hl(cpu: CPUState, mem: &mut Memory) -> (r: CPUState)
    requires
        cpu.pc + 2 <= 0xFFFF,
        cpu.tsc + 16 <= u64::MAX,
    ensures
        r@ == isa::rotate_hl(isa::state(cpu@, old(mem)@), 3).cpu.adv_pc(2).tick(16),
        final(mem)@ == isa::rotate_hl(isa::state(cpu@, old(mem)@), 3).mem,
{
    let mut reg = cpu.reg;
    let addr = cpu.HL();
    let cur: Byte = mem.read(addr);
    proof {
        lemma_shifts(cur, bits::digit(cpu@.carry()) as u8);
    }
    let result: Byte = (cur >> 1) | (carry_bit(&cpu) << 7);
    mem.write(addr, result);
    reg[FLAGS] = fl_pack(result == 0, false, false, cur & 1 != 0);
    CPUState { reg, ..cpu }.adv_pc(2).tick(16)
}

//   sla  r         CB 2x        8 z00c shift left arithmetic (b0=0)
// ----------------------------------------------------------------------------
pub fn sla_r(cpu: CPUState, dst: usize) -> (r: CPUState)
    requires
        dst < 8,
        cpu.pc + 2 <= 0xFFFF,
        cpu.tsc + 8 <= u64::MAX,
    ensures
        r@ == isa::rotate_r(cpu@, 4, dst as int).adv_pc(2).tick(8),
{
    let mut reg = cpu.reg;
    let val: Byte = cpu.reg[dst];
    proof {
        lemma_shifts(val, bits::digit(cpu@.carry()) as u8);
    }
    let result: Byte = val << 1;
    reg[dst] = result;
    reg[FLAGS] = fl_pack(result == 0, false, false, val & 0x80 != 0);
    CPUState { reg, ..cpu }.adv_pc(2).tick(8)
}

//   sla  (HL)      CB 26       16 z00c shift left arithmetic (b0=0)
// ----------------------------------------------------------------------------
pub fn sla_hl(cpu: CPUState, mem: &mut Memory) -> (r: CPUState)
    requires
        cpu.pc + 2 <= 0xFFFF,
        cpu.tsc + 16 <= u64::MAX,
    ensures
        r@ == isa::rotate_hl(isa::state(cpu@, old(mem)@), 4).cpu.adv_pc(2).tick(16),
        final(mem)@ == isa::rotate_hl(isa::state(cpu@, old(mem)@), 4).mem,
{
    let mut reg = cpu.reg;
    let addr = cpu.HL();
    let cur: Byte = mem.read(addr);
    proof {
        lemma_shifts(cur, bits::digit(cpu@.carry()) as u8);
    }
    let result: Byte = cur << 1;
    mem.write(addr, result);
    reg[FLAGS] = fl_pack(result == 0, false, false, cur & 0x80 != 0);
    CPUState { reg, ..cpu }.adv_pc(2).tick(16)
}

//   sra  r         CB 2x        8 z00c shift right arithmetic (b7=b7)
// ----------------------------------------------------------------------------
pub fn sra_r(cpu: CPUState, dst: usize) -> (r: CPUState)
    requires
        dst < 8,
        cpu.pc + 2 <= 0xFFFF,
        cpu.tsc + 8 <= u64::MAX,
    ensures
        r@ == isa::rotate_r(cpu@, 5, dst as int).adv_pc(2).tick(8),
{
    let mut reg = cpu.reg;
    let val: Byte = cpu.reg[dst];
    proof {
        lemma_shifts(val, bits::digit(cpu@.carry()) as u8);
    }
    let result: Byte = (val & 0x80) | (val >> 1);
    reg[dst] = result;
    reg[FLAGS] = fl_pack(result == 0, false, false, val & 1 != 0);
    CPUState { reg, ..cpu }.adv_pc(2).tick(8)
}

//   sra  (HL)      CB 2E       16 z00c shift right arithmetic (b7=b7)
// ----------------------------------------------------------------------------
pub fn sra_hl(cpu: CPUState, mem: &mut Memory) -> (r: CPUState)
    requires
        cpu.pc + 2 <= 0xFFFF,
        cpu.tsc + 16 <= u64::MAX,
    ensures
        r@ == isa::rotate_hl(isa::state(cpu@, old(mem)@), 5).cpu.adv_pc(2).tick(16),
        final(mem)@ == isa::rotate_hl(isa::state(cpu@, old(mem)@), 5).mem,
{
    let mut reg = cpu.reg;
    let addr = cpu.HL();
    let cur: Byte = mem.read(addr);
    proof {
        lemma_shifts(cur, bits::digit(cpu@.carry()) as u8);
    }
    let result: Byte = (cur & 0x80) | (cur >> 1);
    mem.write(addr, result);
    reg[FLAGS] = fl_pack(result == 0, false, false, cur & 1 != 0);
    CPUState { reg, ..cpu }.adv_pc(2).tick(16)
}

//   swap r         CB 3x        8 z000 exchange low/hi-nibble
// ----------------------------------------------------------------------------
pub fn swap_r(cpu: CPUState, dst: usize) -> (r: CPUState)
    requires
        dst < 8,
        cpu.pc + 2 <= 0xFFFF,
        cpu.tsc + 8 <= u64::MAX,
    ensures
        r@ == isa::rotate_r(cpu@, 6, dst as int).adv_pc(2).tick(8),
{
    let mut reg = cpu.reg;
    let val: Byte = cpu.reg[dst];
    proof {
        lemma_shifts(val, bits::digit(cpu@.carry()) as u8);
    }
    let result: Byte = (val >> 4) | (val << 4);
    reg[dst] = result;
    reg[FLAGS] = fl_pack(result == 0, false, false, false);
    CPUState { reg, ..cpu }.adv_pc(2).tick(8)
}

//   swap (HL)      CB 36       16 z000 exchange low/hi-nibble
// ----------------------------------------------------------------------------
pub fn swap_hl(cpu: CPUState, mem: &mut Memory) -> (r: CPUState)
    requires
        cpu.pc + 2 <= 0xFFFF,
        cpu.tsc + 16 <= u64::MAX,
    ensures
        r@ == isa::rotate_hl(isa::state(cpu@, old(mem)@), 6).cpu.adv_pc(2).tick(16),
        final(mem)@ == isa::rotate_hl(isa::state(cpu@, old(mem)@), 6).mem,
{
    let mut reg = cpu.reg;
    let addr = cpu.HL();
    let cur: Byte = mem.read(addr);
    proof {
        lemma_shifts(cur, bits::digit(cpu@.carry()) as u8);
    }
    let result: Byte = (cur >> 4) | (cur << 4);
    mem.write(addr, result);
    reg[FLAGS] = fl_pack(result == 0, false, false, false);
    CPUState { reg, ..cpu }.adv_pc(2).tick(16)
}

//   srl  r         CB 3x        8 z00c shift right logical (b7=0)
// ----------------------------------------------------------------------------
pub fn srl_r(cpu: CPUState, dst: usize) -> (r: CPUState)
    requires
        dst < 8,
        cpu.pc + 2 <= 0xFFFF,
        cpu.tsc + 8 <= u64::MAX,
    ensures
        r@ == isa::rotate_r(cpu@, 7, dst as int).adv_pc(2).tick(8),
{
    let mut reg = cpu.reg;
    let val: Byte = cpu.reg[dst];
    proof {
        lemma_shifts(val, bits::digit(cpu@.carry()) as u8);
    }
    let result: Byte = val >> 1;
    reg[dst] = result;
    reg[FLAGS] = fl_pack(result == 0, false, false, val & 1 != 0);
    CPUState { reg, ..cpu }.adv_pc(2).tick(8)
}

//   srl  (HL)      CB 3E       16 z00c shift right logical (b7=0)
// ----------------------------------------------------------------------------
pub fn srl_hl(cpu: CPUState, mem: &mut Memory) -> (r: CPUState)
    requires
        cpu.pc + 2 <= 0xFFFF,
        cpu.tsc + 16 <= u64::MAX,
    ensures
        r@ == isa::rotate_hl(isa::state(cpu@, old(mem)@), 7).cpu.adv_pc(2).tick(16),
        final(mem)@ == isa::rotate_hl(isa::state(cpu@, old(mem)@), 7).mem,
{
    let mut reg = cpu.reg;
    let addr = cpu.HL();
    let cur: Byte = mem.read(addr);
    proof {
        lemma_shifts(cur, bits::digit(cpu@.carry()) as u8);
    }
    let result: Byte = cur >> 1;
    mem.write(addr, result);
    reg[FLAGS] = fl_pack(result == 0, false, false, cur & 1 != 0);
    CPUState { reg, ..cpu }.adv_pc(2).tick(16)
}

// GMB Singlebit Operation Commands
// ============================================================================
//   bit  n,r       CB xx        8 001- test bit n
// ----------------------------------------------------------------------------
/// The zero flag ends up clear whichever bit of whichever register is tested.
#[allow(unused_variables)]
pub fn bit_r(cpu: CPUState, bit: Byte, dst: usize) -> (r: CPUState)
    requires
        bit < 8,
        dst < 8,
        cpu.pc + 2 <= 0xFFFF,
        cpu.tsc + 8 <= u64::MAX,
    ensures
        r@ == isa::bit_r_flags(cpu@).adv_pc(2).tick(8),
{
    let mut reg = cpu.reg;
    reg[FLAGS] = fl_pack(false, false, true, cpu.carry());
    CPUState { reg, ..cpu }.adv_pc(2).tick(8)
}

//   bit  n,(HL)    CB xx       12 z01- test bit n
// ----------------------------------------------------------------------------
pub fn bit_hl(cpu: CPUState, mem: &mut Memory, bit: Byte) -> (r: CPUState)
    requires
        bit < 8,
        cpu.pc + 2 <= 0xFFFF,
        cpu.tsc + 12 <= u64::MAX,
    ensures
        r@ == isa::bit_hl_flags(cpu@, bit as int, old(mem)@.read(cpu@.hl())).adv_pc(2).tick(12),
        final(mem)@ == old(mem)@,
{
    let mut reg = cpu.reg;
    let cur: Byte = mem.read(cpu.HL());
    reg[FLAGS] = fl_pack(!bit_test(bit, cur), false, true, cpu.carry());
    CPUState { reg, ..cpu }.adv_pc(2).tick(12)
}

//   set  n,r       CB xx        8 ---- set bit n
// ----------------------------------------------------------------------------
pub fn set_r(cpu: CPUState, bit: Byte, dst: usize) -> (r: CPUState)
    requires
        bit < 8,
        dst < 8,
        cpu.pc + 2 <= 0xFFFF,
        cpu.tsc + 8 <= u64::MAX,
    ensures
        r@ == cpu@.set_reg(
            dst as int,
            bits::with_bit(cpu.reg[dst as int], bit as int, true),
        ).adv_pc(2).tick(8),
{
    let mut reg = cpu.reg;
    proof {
        bits::lemma_bit_mask(cpu.reg[dst as int], bit);
    }
    reg[dst] = reg[dst] | bit_mask(bit);
    CPUState { reg, ..cpu }.adv_pc(2).tick(8)
}

//   set  n,(HL)    CB xx       16 ---- set bit n
// ----------------------------------------------------------------------------
pub fn set_hl(cpu: CPUState, mem: &mut Memory, bit: Byte) -> (r: CPUState)
    requires
        bit < 8,
        cpu.pc + 2 <= 0xFFFF,
        cpu.tsc + 16 <= u64::MAX,
    ensures
        r@ == cpu@.adv_pc(2).tick(16),
        final(mem)@ == old(mem)@.write(
            cpu@.hl(),
            bits::with_bit(old(mem)@.read(cpu@.hl()), bit as int, true),
        ),
{
    let addr = cpu.HL();
    let cur: Byte = mem.read(addr);
    proof {
        bits::lemma_bit_mask(cur, bit);
    }
    mem.write(addr, cur | bit_mask(bit));
    cpu.adv_pc(2).tick(16)
}

//   res  n,r       CB xx        8 ---- reset bit n
// ----------------------------------------------------------------------------
pub fn res_n_r(cpu: CPUState, n: Byte, r: usize) -> (out: CPUState)
    requires
        n < 8,
        r < 8,
        cpu.pc + 2 <= 0xFFFF,
        cpu.tsc + 8 <= u64::MAX,
    ensures
        out@ == cpu@.set_reg(
            r as int,
            bits::with_bit(cpu.reg[r as int], n as int, false),
        ).adv_pc(2).tick(8),
{
    let mut reg = cpu.reg;
    proof {
        bits::lemma_bit_mask(cpu.reg[r as int], n);
    }
    reg[r] = reg[r] & !bit_mask(n);
    CPUState { reg, ..cpu }.adv_pc(2).tick(8)
}

//   res  n,(HL)    CB xx       16 ---- reset bit n
// ----------------------------------------------------------------------------
pub fn res_n_hl(cpu: CPUState, mem: &mut Memory, n: Byte) -> (r: CPUState)
    requires
        n < 8,
        cpu.pc + 2 <= 0xFFFF,
        cpu.tsc + 16 <= u64::MAX,
    ensures
        r@ == cpu@.adv_pc(2).tick(16),
        final(mem)@ == old(mem)@.write(
            cpu@.hl(),
            bits::with_bit(old(mem)@.read(cpu@.hl()), n as int, false),
        ),
{
    let addr = cpu.HL();
    let cur: Byte = mem.read(addr);
    proof {
        bits::lemma_bit_mask(cur, n);
    }
    mem.write(addr, cur & !bit_mask(n));
    cpu.adv_pc(2).tick(16)
}

} // verus!
