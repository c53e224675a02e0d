//! Load instructions.
use vstd::prelude::*;

use crate::bits;
use crate::bits::{combine, hi, lo};
use crate::cpu::{CPUState, Cpu, FLAGS, REG_A, REG_B, REG_C, REG_D, REG_E, REG_H, REG_L};
use crate::isa;
use crate::memory::{pop_d16, push_d16, Memory, MEM_IO_PORTS};
use crate::types::{Byte, Word};

verus! {

// GMB 8bit-Loadcommands
// ============================================================================
pub fn impl_ld_r_d8(cpu: CPUState, dst: usize, val: Byte) -> (r: CPUState)
    requires
        dst < 8,
    ensures
        r@ == cpu@.set_reg(dst as int, val),
{
    let mut reg = cpu.reg;
    reg[dst] = val;
    CPUState { reg, ..cpu }
}

pub fn impl_ld_HL_d8(cpu: CPUState, mem: &mut Memory, val: Byte) -> (r: CPUState)
    ensures
        r@ == cpu@,
        final(mem)@ == old(mem)@.write(cpu@.hl(), val),
{
    mem.write(cpu.HL(), val);
    CPUState { ..cpu }
}

//   ld   r,r         xx         4 ---- r=r
// ----------------------------------------------------------------------------
pub fn ld_r_r(cpu: CPUState, opcode: Byte) -> (r: CPUState)
    requires
        0x40 <= opcode <= 0x7F,
        cpu.pc + 1 <= 0xFFFF,
        cpu.tsc + 4 <= u64::MAX,
    ensures
        r@ == cpu@.set_reg(
            (opcode as int / 8) % 8,
            cpu.reg[opcode as int % 8],
        ).adv_pc(1).tick(4),
{
    let dst_idx: Byte = (opcode - 0x40) / 0x08;
    let src_idx: Byte = opcode % 0x08;
    impl_ld_r_d8(cpu, dst_idx as usize, cpu.reg[src_idx as usize]).adv_pc(1).tick(4)
}

//   ld   r,n         xx nn      8 ---- r=n
// ----------------------------------------------------------------------------
pub fn ld_b_d8(cpu: CPUState, d8: Byte) -> (r: CPUState)
    requires
        cpu.pc + 2 <= 0xFFFF,
        cpu.tsc + 8 <= u64::MAX,
    ensures
        r@ == cpu@.set_reg(REG_B as int, d8).adv_pc(2).tick(8),
{
    impl_ld_r_d8(cpu, REG_B, d8).adv_pc(2).tick(8)
}

pub fn ld_c_d8(cpu: CPUState, d8: Byte) -> (r: CPUState)
    requires
        cpu.pc + 2 <= 0xFFFF,
        cpu.tsc + 8 <= u64::MAX,
    ensures
        r@ == cpu@.set_reg(REG_C as int, d8).adv_pc(2).tick(8),
{
    impl_ld_r_d8(cpu, REG_C, d8).adv_pc(2).tick(8)
}

pub fn ld_d_d8(cpu: CPUState, d8: Byte) -> (r: CPUState)
    requires
        cpu.pc + 2 <= 0xFFFF,
        cpu.tsc + 8 <= u64::MAX,
    ensures
        r@ == cpu@.set_reg(REG_D as int, d8).adv_pc(2).tick(8),
{
    impl_ld_r_d8(cpu, REG_D, d8).adv_pc(2).tick(8)
}

pub fn ld_e_d8(cpu: CPUState, d8: Byte) -> (r: CPUState)
    requires
        cpu.pc + 2 <= 0xFFFF,
        cpu.tsc + 8 <= u64::MAX,
    ensures
        r@ == cpu@.set_reg(REG_E as int, d8).adv_pc(2).tick(8),
{
    impl_ld_r_d8(cpu, REG_E, d8).adv_pc(2).tick(8)
}

pub fn ld_h_d8(cpu: CPUState, d8: Byte) -> (r: CPUState)
    requires
        cpu.pc + 2 <= 0xFFFF,
        cpu.tsc + 8 <= u64::MAX,
    ensures
        r@ == cpu@.set_reg(REG_H as int, d8).adv_pc(2).tick(8),
{
    impl_ld_r_d8(cpu, REG_H, d8).adv_pc(2).tick(8)
}

pub fn ld_l_d8(cpu: CPUState, d8: Byte) -> (r: CPUState)
    requires
        cpu.pc + 2 <= 0xFFFF,
        cpu.tsc + 8 <= u64::MAX,
    ensures
        r@ == cpu@.set_reg(REG_L as int, d8).adv_pc(2).tick(8),
{
    impl_ld_r_d8(cpu, REG_L, d8).adv_pc(2).tick(8)
}

pub fn ld_a_d8(cpu: CPUState, d8: Byte) -> (r: CPUState)
    requires
        cpu.pc + 2 <= 0xFFFF,
        cpu.tsc + 8 <= u64::MAX,
    ensures
        r@ == cpu@.set_reg(REG_A as int, d8).adv_pc(2).tick(8),
{
    impl_ld_r_d8(cpu, REG_A, d8).adv_pc(2).tick(8)
}

//   ld   r,(HL)      xx         8 ---- r=(HL)
// ----------------------------------------------------------------------------
pub fn ld_b_HL(cpu: CPUState, mem: &Memory) -> (r: CPUState)
    requires
        cpu.pc + 1 <= 0xFFFF,
        cpu.tsc + 8 <= u64::MAX,
    ensures
        r@ == cpu@.set_reg(REG_B as int, mem@.read(cpu@.hl())).adv_pc(1).tick(8),
{
    impl_ld_r_d8(cpu, REG_B, mem.read(cpu.HL())).adv_pc(1).tick(8)
}

pub fn ld_c_HL(cpu: CPUState, mem: &Memory) -> (r: CPUState)
    requires
        cpu.pc + 1 <= 0xFFFF,
        cpu.tsc + 8 <= u64::MAX,
    ensures
        r@ == cpu@.set_reg(REG_C as int, mem@.read(cpu@.hl())).adv_pc(1).tick(8),
{
    impl_ld_r_d8(cpu, REG_C, mem.read(cpu.HL())).adv_pc(1).tick(8)
}

pub fn ld_d_HL(cpu: CPUState, mem: &Memory) -> (r: CPUState)
    requires
        cpu.pc + 1 <= 0xFFFF,
        cpu.tsc + 8 <= u64::MAX,
    ensures
        r@ == cpu@.set_reg(REG_D as int, mem@.read(cpu@.hl())).adv_pc(1).tick(8),
{
    impl_ld_r_d8(cpu, REG_D, mem.read(cpu.HL())).adv_pc(1).tick(8)
}

pub fn ld_e_HL(cpu: CPUState, mem: &Memory) -> (r: CPUState)
    requires
        cpu.pc + 1 <= 0xFFFF,
        cpu.tsc + 8 <= u64::MAX,
    ensures
        r@ == cpu@.set_reg(REG_E as int, mem@.read(cpu@.hl())).adv_pc(1).tick(8),
{
    impl_ld_r_d8(cpu, REG_E, mem.read(cpu.HL())).adv_pc(1).tick(8)
}

pub fn ld_h_HL(cpu: CPUState, mem: &Memory) -> (r: CPUState)
    requires
        cpu.pc + 1 <= 0xFFFF,
        cpu.tsc + 8 <= u64::MAX,
    ensures
        r@ == cpu@.set_reg(REG_H as int, mem@.read(cpu@.hl())).adv_pc(1).tick(8),
{
    impl_ld_r_d8(cpu, REG_H, mem.read(cpu.HL())).adv_pc(1).tick(8)
}

pub fn ld_l_HL(cpu: CPUState, mem: &Memory) -> (r: CPUState)
    requires
        cpu.pc + 1 <= 0xFFFF,
        cpu.tsc + 8 <= u64::MAX,
    ensures
        r@ == cpu@.set_reg(REG_L as int, mem@.read(cpu@.hl())).adv_pc(1).tick(8),
{
    impl_ld_r_d8(cpu, REG_L, mem.read(cpu.HL())).adv_pc(1).tick(8)
}

pub fn ld_a_HL(cpu: CPUState, mem: &Memory) -> (r: CPUState)
    requires
        cpu.pc + 1 <= 0xFFFF,
        cpu.tsc + 8 <= u64::MAX,
    ensures
        r@ == cpu@.set_reg(REG_A as int, mem@.read(cpu@.hl())).adv_pc(1).tick(8),
{
    impl_ld_r_d8(cpu, REG_A, mem.read(cpu.HL())).adv_pc(1).tick(8)
}

//   ld   (HL),r      7x         8 ---- (HL)=r
// ----------------------------------------------------------------------------
pub fn ld_HL_b(cpu: CPUState, mem: &mut Memory) -> (r: CPUState)
    requires
        cpu.pc + 1 <= 0xFFFF,
        cpu.tsc + 8 <= u64::MAX,
    ensures
        r@ == cpu@.adv_pc(1).tick(8),
        final(mem)@ == old(mem)@.write(cpu@.hl(), cpu.reg[REG_B as int]),
{
    impl_ld_HL_d8(cpu, mem, cpu.reg[REG_B]).adv_pc(1).tick(8)
}

pub fn ld_HL_c(cpu: CPUState, mem: &mut Memory) -> (r: CPUState)
    requires
        cpu.pc + 1 <= 0xFFFF,
        cpu.tsc + 8 <= u64::MAX,
    ensures
        r@ == cpu@.adv_pc(1).tick(8),
        final(mem)@ == old(mem)@.write(cpu@.hl(), cpu.reg[REG_C as int]),
{
    impl_ld_HL_d8(cpu, mem, cpu.reg[REG_C]).adv_pc(1).tick(8)
}

pub fn ld_HL_d(cpu: CPUState, mem: &mut Memory) -> (r: CPUState)
    requires
        cpu.pc + 1 <= 0xFFFF,
        cpu.tsc + 8 <= u64::MAX,
    ensures
        r@ == cpu@.adv_pc(1).tick(8),
        final(mem)@ == old(mem)@.write(cpu@.hl(), cpu.reg[REG_D as int]),
{
    impl_ld_HL_d8(cpu, mem, cpu.reg[REG_D]).adv_pc(1).tick(8)
}

pub fn ld_HL_e(cpu: CPUState, mem: &mut Memory) -> (r: CPUState)
    requires
        cpu.pc + 1 <= 0xFFFF,
        cpu.tsc + 8 <= u64::MAX,
    ensures
        r@ == cpu@.adv_pc(1).tick(8),
        final(mem)@ == old(mem)@.write(cpu@.hl(), cpu.reg[REG_E as int]),
{
    impl_ld_HL_d8(cpu, mem, cpu.reg[REG_E]).adv_pc(1).tick(8)
}

pub fn ld_HL_h(cpu: CPUState, mem: &mut Memory) -> (r: CPUState)
    requires
        cpu.pc + 1 <= 0xFFFF,
        cpu.tsc + 8 <= u64::MAX,
    ensures
        r@ == cpu@.adv_pc(1).tick(8),
        final(mem)@ == old(mem)@.write(cpu@.hl(), cpu.reg[REG_H as int]),
{
    impl_ld_HL_d8(cpu, mem, cpu.reg[REG_H]).adv_pc(1).tick(8)
}

pub fn ld_HL_l(cpu: CPUState, mem: &mut Memory) -> (r: CPUState)
    requires
        cpu.pc + 1 <= 0xFFFF,
        cpu.tsc + 8 <= u64::MAX,
    ensures
        r@ == cpu@.adv_pc(1).tick(8),
        final(mem)@ == old(mem)@.write(cpu@.hl(), cpu.reg[REG_L as int]),
{
    impl_ld_HL_d8(cpu, mem, cpu.reg[REG_L]).adv_pc(1).tick(8)
}

pub fn ld_HL_a(cpu: CPUState, mem: &mut Memory) -> (r: CPUState)
    requires
        cpu.pc + 1 <= 0xFFFF,
        cpu.tsc + 8 <= u64::MAX,
    ensures
        r@ == cpu@.adv_pc(1).tick(8),
        final(mem)@ == old(mem)@.write(cpu@.hl(), cpu.reg[REG_A as int]),
{
    impl_ld_HL_d8(cpu, mem, cpu.reg[REG_A]).adv_pc(1).tick(8)
}

//   ld   (HL),n      36 nn     12 ----
// ----------------------------------------------------------------------------
pub fn ld_HL_d8(cpu: CPUState, val: Byte, mem: &mut Memory) -> (r: CPUState)
    requires
        cpu.pc + 2 <= 0xFFFF,
        cpu.tsc + 12 <= u64::MAX,
    ensures
        r@ == cpu@.adv_pc(2).tick(12),
        final(mem)@ == old(mem)@.write(cpu@.hl(), val),
{
    impl_ld_HL_d8(cpu, mem, val).adv_pc(2).tick(12)
}

//   ld   A,(BC)      0A         8 ----
// ----------------------------------------------------------------------------
pub fn ld_a_BC(cpu: CPUState, mem: &Memory) -> (r: CPUState)
    requires
        cpu.pc + 1 <= 0xFFFF,
        cpu.tsc + 8 <= u64::MAX,
    ensures
        r@ == cpu@.set_reg(REG_A as int, mem@.read(cpu@.bc())).adv_pc(1).tick(8),
{
    let mut reg = cpu.reg;
    reg[REG_A] = mem.read(cpu.BC());
    CPUState { pc: cpu.pc + 1, tsc: cpu.tsc + 8, reg, ..cpu }
}

//   ld   A,(DE)      1A         8 ----
// ----------------------------------------------------------------------------
pub fn ld_a_DE(cpu: CPUState, mem: &Memory) -> (r: CPUState)
    requires
        cpu.pc + 1 <= 0xFFFF,
        cpu.tsc + 8 <= u64::MAX,
    ensures
        r@ == cpu@.set_reg(REG_A as int, mem@.read(cpu@.de())).adv_pc(1).tick(8),
{
    let mut reg = cpu.reg;
    reg[REG_A] = mem.read(cpu.DE());
    CPUState { pc: cpu.pc + 1, tsc: cpu.tsc + 8, reg, ..cpu }
}

//   ld   A,(nn)      FA nn nn        16 ----
// ----------------------------------------------------------------------------
pub fn ld_a_A16(low: Byte, high: Byte, cpu: CPUState, mem: &Memory) -> (r: CPUState)
    requires
        cpu.pc + 3 <= 0xFFFF,
        cpu.tsc + 16 <= u64::MAX,
    ensures
        r@ == cpu@.set_reg(REG_A as int, mem@.read(bits::word_of(high, low))).adv_pc(3).tick(16),
{
    let mut reg = cpu.reg;
    reg[REG_A] = mem.read(combine(high, low));
    CPUState { reg, ..cpu }.tick(16).adv_pc(3)
}

//   ld   (BC),A      02         8 ----
// ----------------------------------------------------------------------------
pub fn ld_BC_a(cpu: CPUState, mem: &mut Memory) -> (r: CPUState)
    requires
        cpu.pc + 1 <= 0xFFFF,
        cpu.tsc + 8 <= u64::MAX,
    ensures
        r@ == cpu@.adv_pc(1).tick(8),
        final(mem)@ == old(mem)@.write(cpu@.bc(), cpu@.a()),
{
    mem.write(cpu.BC(), cpu.reg[REG_A]);
    CPUState { pc: cpu.pc + 1, tsc: cpu.tsc + 8, ..cpu }
}

//   ld   (DE),A      12         8 ----
// ----------------------------------------------------------------------------
pub fn ld_DE_a(cpu: CPUState, mem: &mut Memory) -> (r: CPUState)
    requires
        cpu.pc + 1 <= 0xFFFF,
        cpu.tsc + 8 <= u64::MAX,
    ensures
        r@ == cpu@.adv_pc(1).tick(8),
        final(mem)@ == old(mem)@.write(cpu@.de(), cpu@.a()),
{
    mem.write(cpu.DE(), cpu.reg[REG_A]);
    CPUState { pc: cpu.pc + 1, tsc: cpu.tsc + 8, ..cpu }
}

//   ld   (nn),A      EA nn nn        16 ----
// ----------------------------------------------------------------------------
pub fn ld_A16_a(low: Byte, high: Byte, cpu: CPUState, mem: &mut Memory) -> (r: CPUState)
    requires
        cpu.pc + 3 <= 0xFFFF,
        cpu.tsc + 16 <= u64::MAX,
    ensures
        r@ == cpu@.adv_pc(3).tick(16),
        final(mem)@ == old(mem)@.write(bits::word_of(high, low), cpu@.a()),
{
    let addr = combine(high, low);
    mem.write(addr, cpu.reg[REG_A]);
    cpu.tick(16).adv_pc(3)
}

//   ld   (nn),SP      08 nn nn        20 ----
// ----------------------------------------------------------------------------
pub fn ld_A16_sp(low: Byte, high: Byte, cpu: CPUState, mem: &mut Memory) -> (r: CPUState)
    requires
        bits::word_of(high, low) < 0xFFFF,
        cpu.pc + 3 <= 0xFFFF,
        cpu.tsc + 20 <= u64::MAX,
    ensures
        r@ == cpu@.adv_pc(3).tick(20),
        final(mem)@ == old(mem)@.write(
            bits::word_of(high, low) + 1,
            bits::high_byte(cpu@.sp),
        ).write(bits::word_of(high, low), bits::low_byte(cpu@.sp)),
{
    let addr = combine(high, low);
    mem.write(addr + 1, hi(cpu.sp));
    mem.write(addr, lo(cpu.sp));
    cpu.tick(20).adv_pc(3)
}

//   ld   A,(FF00+n)  F0 nn     12 ---- read from io-port n (memory FF00+n)
// ----------------------------------------------------------------------------
pub fn ld_a_FF00_A8(cpu: CPUState, mem: &Memory, off: Byte) -> (r: CPUState)
    requires
        cpu.pc + 2 <= 0xFFFF,
        cpu.tsc + 12 <= u64::MAX,
    ensures
        r@ == cpu@.set_reg(REG_A as int, mem@.read(0xFF00 + off)).adv_pc(2).tick(12),
{
    let mut reg = cpu.reg;
    reg[REG_A] = mem.read(MEM_IO_PORTS + off as Word);
    CPUState { pc: cpu.pc + 2, tsc: cpu.tsc + 12, reg, ..cpu }
}

//   ld   (FF00+n),A  E0 nn     12 ---- write to io-port n (memory FF00+n)
// ----------------------------------------------------------------------------
pub fn ld_FF00_A8_a(off: Byte, cpu: CPUState, mem: &mut Memory) -> (r: CPUState)
    requires
        cpu.pc + 2 <= 0xFFFF,
        cpu.tsc + 12 <= u64::MAX,
    ensures
        r@ == cpu@.adv_pc(2).tick(12),
        final(mem)@ == old(mem)@.write(0xFF00 + off, cpu@.a()),
{
    mem.write(MEM_IO_PORTS + off as Word, cpu.reg[REG_A]);
    CPUState { pc: cpu.pc + 2, tsc: cpu.tsc + 12, ..cpu }
}

//   ld   A,(FF00+C)  F2         8 ---- read from io-port C (memory FF00+C)
// ----------------------------------------------------------------------------
pub fn ld_a_FF00_C(cpu: CPUState, mem: &Memory) -> (r: CPUState)
    requires
        cpu.pc + 1 <= 0xFFFF,
        cpu.tsc + 8 <= u64::MAX,
    ensures
        r@ == cpu@.set_reg(
            REG_A as int,
            mem@.read(0xFF00 + cpu.reg[REG_C as int]),
        ).adv_pc(1).tick(8),
{
    let mut reg = cpu.reg;
    reg[REG_A] = mem.read(MEM_IO_PORTS + reg[REG_C] as Word);
    CPUState { pc: cpu.pc + 1, tsc: cpu.tsc + 8, reg, ..cpu }
}

//   ld   (FF00+C),A  E2         8 ---- write to io-port C (memory FF00+C)
// ----------------------------------------------------------------------------
pub fn ld_FF00_C_a(cpu: CPUState, mem: &mut Memory) -> (r: CPUState)
    requires
        cpu.pc + 1 <= 0xFFFF,
        cpu.tsc + 8 <= u64::MAX,
    ensures
        r@ == cpu@.adv_pc(1).tick(8),
        final(mem)@ == old(mem)@.write(0xFF00 + cpu.reg[REG_C as int], cpu@.a()),
{
    mem.write(MEM_IO_PORTS + cpu.reg[REG_C] as Word, cpu.reg[REG_A]);
    CPUState { pc: cpu.pc + 1, tsc: cpu.tsc + 8, ..cpu }
}

//   ldi  (HL),A      22         8 ---- (HL)=A, HL=HL+1
// ----------------------------------------------------------------------------
pub fn ldi_HL_a(cpu: CPUState, mem: &mut Memory) -> (r: CPUState)
    requires
        cpu.pc + 1 <= 0xFFFF,
        cpu.tsc + 8 <= u64::MAX,
    ensures
        r@ == isa::indirect_step(cpu@, 2).adv_pc(1).tick(8),
        final(mem)@ == old(mem)@.write(cpu@.hl(), cpu@.a()),
{
    let mut reg = cpu.reg;
    mem.write(cpu.HL(), reg[REG_A]);

    let next: Word = cpu.HL().wrapping_add(1);
    reg[REG_H] = hi(next);
    reg[REG_L] = lo(next);

    CPUState { pc: cpu.pc + 1, tsc: cpu.tsc + 8, reg, ..cpu }
}

//   ldi  A,(HL)      2A         8 ---- A=(HL), HL=HL+1
// ----------------------------------------------------------------------------
pub fn ldi_a_HL(cpu: CPUState, mem: &mut Memory) -> (r: CPUState)
    requires
        cpu.pc + 1 <= 0xFFFF,
        cpu.tsc + 8 <= u64::MAX,
    ensures
        r@ == isa::indirect_step(
            cpu@.set_reg(REG_A as int, old(mem)@.read(cpu@.hl())),
            2,
        ).adv_pc(1).tick(8),
        final(mem)@ == old(mem)@,
{
    let mut reg = cpu.reg;
    reg[REG_A] = mem.read(cpu.HL());

    let next: Word = cpu.HL().wrapping_add(1);
    reg[REG_H] = hi(next);
    reg[REG_L] = lo(next);

    CPUState { pc: cpu.pc + 1, tsc: cpu.tsc + 8, reg, ..cpu }
}

//   ldd  (HL),A      32         8 ---- (HL)=A, HL=HL-1
// ----------------------------------------------------------------------------
pub fn ldd_HL_a(cpu: CPUState, mem: &mut Memory) -> (r: CPUState)
    requires
        cpu.pc + 1 <= 0xFFFF,
        cpu.tsc + 8 <= u64::MAX,
    ensures
        r@ == isa::indirect_step(cpu@, 3).adv_pc(1).tick(8),
        final(mem)@ == old(mem)@.write(cpu@.hl(), cpu@.a()),
{
    let mut reg = cpu.reg;
    mem.write(cpu.HL(), reg[REG_A]);

    let next: Word = cpu.HL().wrapping_sub(1);
    reg[REG_H] = hi(next);
    reg[REG_L] = lo(next);

    CPUState { pc: cpu.pc + 1, tsc: cpu.tsc + 8, reg, ..cpu }
}

//   ldd  A,(HL)      3A         8 ---- A=(HL), HL=HL-1
// ----------------------------------------------------------------------------
pub fn ldd_a_HL(cpu: CPUState, mem: &mut Memory) -> (r: CPUState)
    requires
        cpu.pc + 1 <= 0xFFFF,
        cpu.tsc + 8 <= u64::MAX,
    ensures
        r@ == isa::indirect_step(
            cpu@.set_reg(REG_A as int, old(mem)@.read(cpu@.hl())),
            3,
        ).adv_pc(1).tick(8),
        final(mem)@ == old(mem)@,
{
    let mut reg = cpu.reg;
    reg[REG_A] = mem.read(cpu.HL());

    let next: Word = cpu.HL().wrapping_sub(1);
    reg[REG_H] = hi(next);
    reg[REG_L] = lo(next);

    CPUState { pc: cpu.pc + 1, tsc: cpu.tsc + 8, reg, ..cpu }
}

// GMB 16bit-Loadcommands
// ============================================================================
pub fn impl_ld_rr_d16(
    cpu: CPUState,
    reg_high: usize,
    reg_low: usize,
    high: Byte,
    low: Byte,
) -> (r: CPUState)
    requires
        reg_high < 8,
        reg_low < 8,
    ensures
        r@ == cpu@.set_reg(reg_high as int, high).set_reg(reg_low as int, low),
{
    let mut reg = cpu.reg;
    reg[reg_high] = high;
    reg[reg_low] = low;
    CPUState { reg, ..cpu }
}

pub fn impl_push_rr(cpu: CPUState, mem: &mut Memory, reg_hi: usize, reg_lo: usize) -> (r: CPUState)
    requires
        reg_hi < 8,
        reg_lo < 8,
        cpu.sp >= 2,
        cpu.pc + 1 <= 0xFFFF,
        cpu.tsc + 16 <= u64::MAX,
    ensures
        r@ == isa::push_pair(
            isa::state(cpu@, old(mem)@),
            reg_hi as int,
            reg_lo as int,
        ).cpu.adv_pc(1).tick(16),
        final(mem)@ == isa::push_pair(
            isa::state(cpu@, old(mem)@),
            reg_hi as int,
            reg_lo as int,
        ).mem,
{
    let val: Word = combine(cpu.reg[reg_hi], cpu.reg[reg_lo]);
    let cpu_pushed = push_d16(cpu, mem, val);
    CPUState { pc: cpu.pc + 1, tsc: cpu.tsc + 16, ..cpu_pushed }
}

pub fn impl_pop_rr(cpu: CPUState, mem: &Memory, reg_hi: usize, reg_lo: usize) -> (r: CPUState)
    requires
        reg_hi < 8,
        reg_lo < 8,
        cpu.sp + 2 <= 0xFFFF,
        cpu.pc + 1 <= 0xFFFF,
        cpu.tsc + 12 <= u64::MAX,
    ensures
        r@ == isa::pop_pair(
            isa::state(cpu@, mem@),
            reg_hi as int,
            reg_lo as int,
        ).adv_pc(1).tick(12),
{
    let (cpu_popped, pval) = pop_d16(cpu, mem);

    let mut reg = cpu_popped.reg;
    reg[reg_hi] = hi(pval);
    reg[reg_lo] = lo(pval);
    if reg_lo == FLAGS {
        // special case: FLAGS low nibble is always 0
        let flags: Byte = lo(pval);
        proof {
            lemma_clear_low_nibble(flags);
        }
        reg[reg_lo] = flags & 0xF0;
    }
    CPUState { pc: cpu.pc + 1, tsc: cpu.tsc + 12, reg, ..cpu_popped }
}

proof fn lemma_clear_low_nibble(v: u8)
    by (bit_vector)
    ensures
        v & 0xF0 == v - v % 16,
{
}

//   ld   rr,nn       x1 nn nn  12 ---- rr=nn (rr may be BC,DE,HL or SP)
// ----------------------------------------------------------------------------
pub fn ld_bc_d16(cpu: CPUState, low: Byte, high: Byte) -> (r: CPUState)
    requires
        cpu.pc + 3 <= 0xFFFF,
        cpu.tsc + 12 <= u64::MAX,
    ensures
        r@ == isa::set_pair(cpu@, 0, bits::word_of(high, low)).adv_pc(3).tick(12),
{
    impl_ld_rr_d16(cpu, REG_B, REG_C, high, low).adv_pc(3).tick(12)
}

pub fn ld_de_d16(cpu: CPUState, low: Byte, high: Byte) -> (r: CPUState)
    requires
        cpu.pc + 3 <= 0xFFFF,
        cpu.tsc + 12 <= u64::MAX,
    ensures
        r@ == isa::set_pair(cpu@, 1, bits::word_of(high, low)).adv_pc(3).tick(12),
{
    impl_ld_rr_d16(cpu, REG_D, REG_E, high, low).adv_pc(3).tick(12)
}

pub fn ld_hl_d16(cpu: CPUState, low: Byte, high: Byte) -> (r: CPUState)
    requires
        cpu.pc + 3 <= 0xFFFF,
        cpu.tsc + 12 <= u64::MAX,
    ensures
        r@ == isa::set_pair(cpu@, 2, bits::word_of(high, low)).adv_pc(3).tick(12),
{
    impl_ld_rr_d16(cpu, REG_H, REG_L, high, low).adv_pc(3).tick(12)
}

pub fn ld_sp_d16(cpu: CPUState, low: Byte, high: Byte) -> (r: CPUState)
    requires
        cpu.pc + 3 <= 0xFFFF,
        cpu.tsc + 12 <= u64::MAX,
    ensures
        r@ == isa::set_pair(cpu@, 3, bits::word_of(high, low)).adv_pc(3).tick(12),
{
    CPUState { pc: cpu.pc + 3, tsc: cpu.tsc + 12, sp: combine(high, low), ..cpu }
}

//   ld   SP,HL       F9         8 ---- SP=HL
// ----------------------------------------------------------------------------
pub fn ld_sp_hl(cpu: CPUState) -> (r: CPUState)
    requires
        cpu.pc + 1 <= 0xFFFF,
        cpu.tsc + 8 <= u64::MAX,
    ensures
        r@ == (Cpu { sp: cpu@.hl(), ..cpu@.adv_pc(1).tick(8) }),
{
    CPUState { sp: cpu.HL(), ..cpu }.tick(8).adv_pc(1)
}

//   push rr          x5        16 ---- (SP-1)=rr  SP=SP-2   (rr may be BC,DE,HL,AF)
// ----------------------------------------------------------------------------
pub fn push_bc(cpu: CPUState, mem: &mut Memory) -> (r: CPUState)
    requires
        cpu.sp >= 2,
        cpu.pc + 1 <= 0xFFFF,
        cpu.tsc + 16 <= u64::MAX,
    ensures
        r@ == (Cpu { sp: cpu.sp - 2, ..cpu@.adv_pc(1).tick(16) }),
        final(mem)@ == old(mem)@.pushed(cpu@.sp, cpu@.bc()),
{
    impl_push_rr(cpu, mem, REG_B, REG_C)
}

pub fn push_de(cpu: CPUState, mem: &mut Memory) -> (r: CPUState)
    requires
        cpu.sp >= 2,
        cpu.pc + 1 <= 0xFFFF,
        cpu.tsc + 16 <= u64::MAX,
    ensures
        r@ == (Cpu { sp: cpu.sp - 2, ..cpu@.adv_pc(1).tick(16) }),
        final(mem)@ == old(mem)@.pushed(cpu@.sp, cpu@.de()),
{
    impl_push_rr(cpu, mem, REG_D, REG_E)
}

pub fn push_hl(cpu: CPUState, mem: &mut Memory) -> (r: CPUState)
    requires
        cpu.sp >= 2,
        cpu.pc + 1 <= 0xFFFF,
        cpu.tsc + 16 <= u64::MAX,
    ensures
        r@ == (Cpu { sp: cpu.sp - 2, ..cpu@.adv_pc(1).tick(16) }),
        final(mem)@ == old(mem)@.pushed(cpu@.sp, cpu@.hl()),
{
    impl_push_rr(cpu, mem, REG_H, REG_L)
}

pub fn push_af(cpu: CPUState, mem: &mut Memory) -> (r: CPUState)
    requires
        cpu.sp >= 2,
        cpu.pc + 1 <= 0xFFFF,
        cpu.tsc + 16 <= u64::MAX,
    ensures
        r@ == (Cpu { sp: cpu.sp - 2, ..cpu@.adv_pc(1).tick(16) }),
        final(mem)@ == old(mem)@.pushed(cpu@.sp, cpu@.af()),
{
    impl_push_rr(cpu, mem, REG_A, FLAGS)
}

//   pop  rr          x1        12 (AF) rr=(SP+1)  SP=SP+2   (rr may be BC,DE,HL,AF)
// ----------------------------------------------------------------------------
pub fn pop_bc(cpu: CPUState, mem: &Memory) -> (r: CPUState)
    requires
        cpu.sp + 2 <= 0xFFFF,
        cpu.pc + 1 <= 0xFFFF,
        cpu.tsc + 12 <= u64::MAX,
    ensures
        r@ == isa::pop_pair(
            isa::state(cpu@, mem@),
            REG_B as int,
            REG_C as int,
        ).adv_pc(1).tick(12),
{
    impl_pop_rr(cpu, mem, REG_B, REG_C)
}

pub fn pop_de(cpu: CPUState, mem: &Memory) -> (r: CPUState)
    requires
        cpu.sp + 2 <= 0xFFFF,
        cpu.pc + 1 <= 0xFFFF,
        cpu.tsc + 12 <= u64::MAX,
    ensures
        r@ == isa::pop_pair(
            isa::state(cpu@, mem@),
            REG_D as int,
            REG_E as int,
        ).adv_pc(1).tick(12),
{
    impl_pop_rr(cpu, mem, REG_D, REG_E)
}

pub fn pop_hl(cpu: CPUState, mem: &Memory) -> (r: CPUState)
    requires
        cpu.sp + 2 <= 0xFFFF,
        cpu.pc + 1 <= 0xFFFF,
        cpu.tsc + 12 <= u64::MAX,
    ensures
        r@ == isa::pop_pair(
            isa::state(cpu@, mem@),
            REG_H as int,
            REG_L as int,
        ).adv_pc(1).tick(12),
{
    impl_pop_rr(cpu, mem, REG_H, REG_L)
}

/// This one writes to the flags.
pub fn pop_af(cpu: CPUState, mem: &Memory) -> (r: CPUState)
    requires
        cpu.sp + 2 <= 0xFFFF,
        cpu.pc + 1 <= 0xFFFF,
        cpu.tsc + 12 <= u64::MAX,
    ensures
        r@ == isa::pop_pair(
            isa::state(cpu@, mem@),
            REG_A as int,
            FLAGS as int,
        ).adv_pc(1).tick(12),
{
    impl_pop_rr(cpu, mem, REG_A, FLAGS)
}

} // verus!
