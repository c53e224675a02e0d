//! Control instructions, jumps, calls, and the way into interrupt handlers.
use vstd::prelude::*;

use crate::bits;
use crate::bits::{combine, fl_pack, sign_extend, HIGH_MASK_NIB};
use crate::cpu::{CPUState, Cpu, FLAGS};
use crate::isa;
use crate::memory::{pop_d16, push_d16, Memory, IF};
use crate::types::{Byte, SByte, Word};

verus! {

// GMB CPU-Controlcommands
// ============================================================================
//   ccf            3F           4 -00c cy=cy xor 1
pub fn ccf(cpu: CPUState) -> (r: CPUState)
    requires
        cpu.pc + 1 <= 0xFFFF,
        cpu.tsc + 4 <= u64::MAX,
    ensures
        r@ == isa::ccf(cpu@).adv_pc(1).tick(4),
{
    let mut reg = cpu.reg;
    reg[FLAGS] = fl_pack(cpu.zero(), false, false, !cpu.carry());
    CPUState { reg, ..cpu }.adv_pc(1).tick(4)
}

//   scf            37           4 -001 cy=1
pub fn scf(cpu: CPUState) -> (r: CPUState)
    requires
        cpu.pc + 1 <= 0xFFFF,
        cpu.tsc + 4 <= u64::MAX,
    ensures
        r@ == isa::scf(cpu@).adv_pc(1).tick(4),
{
    let mut reg = cpu.reg;
    reg[FLAGS] = fl_pack(cpu.zero(), false, false, true);
    CPUState { reg, ..cpu }.adv_pc(1).tick(4)
}

//   nop            00           4 ---- no operation
// ----------------------------------------------------------------------------
pub fn nop(cpu: CPUState) -> (r: CPUState)
    requires
        cpu.pc + 1 <= 0xFFFF,
        cpu.tsc + 4 <= u64::MAX,
    ensures
        r@ == cpu@.adv_pc(1).tick(4),
{
    cpu.adv_pc(1).tick(4)
}

//   halt           76         N*4 ---- halt until interrupt occurs (low power)
pub fn halt(cpu: CPUState) -> (r: CPUState)
    requires
        cpu.pc + 1 <= 0xFFFF,
        cpu.tsc + 4 <= u64::MAX,
    ensures
        r@ == (Cpu { halt: true, ..cpu@.adv_pc(1).tick(4) }),
{
    CPUState { halt: true, ..cpu }.adv_pc(1).tick(4)
}

//   stop           10 00        ? ---- low power standby mode (VERY low power)
// ----------------------------------------------------------------------------
/// The standby mode is not modelled: the instruction is skipped in no time.
pub fn stop(cpu: CPUState) -> (r: CPUState)
    requires
        cpu.pc + 2 <= 0xFFFF,
    ensures
        r@ == cpu@.adv_pc(2),
{
    cpu.adv_pc(2).tick(0)
}

//   di             F3           4 ---- disable interrupts, IME=0
// ----------------------------------------------------------------------------
pub fn di(cpu: CPUState) -> (r: CPUState)
    requires
        cpu.pc + 1 <= 0xFFFF,
        cpu.tsc + 4 <= u64::MAX,
    ensures
        r@ == (Cpu { ime: false, ..cpu@.adv_pc(1).tick(4) }),
{
    CPUState { ime: false, ..cpu.adv_pc(1).tick(4) }
}

//   ei             FB           4 ---- enable interrupts, IME=1
// ----------------------------------------------------------------------------
pub fn ei(cpu: CPUState) -> (r: CPUState)
    requires
        cpu.pc + 1 <= 0xFFFF,
        cpu.tsc + 4 <= u64::MAX,
    ensures
        r@ == (Cpu { ime: true, inst_ei: cpu@.inst_count, ..cpu@.adv_pc(1).tick(4) }),
{
    CPUState { ime: true, inst_ei: cpu.inst_count, ..cpu.adv_pc(1).tick(4) }
}

// GMB Jumpcommands
// ============================================================================
pub fn impl_jp(cpu: CPUState, addr: Word) -> (r: CPUState)
    ensures
        r@ == cpu@.jump(addr as int),
{
    CPUState { pc: addr, ..cpu }
}

pub fn impl_jr(cpu: CPUState, arg: SByte) -> (r: CPUState)
    ensures
        r@ == cpu@.jump((cpu@.pc + arg) % 0x10000),
{
    CPUState { pc: cpu.pc.wrapping_add(sign_extend(arg)), ..cpu }
}

//   jp   nn        C3 nn nn    16 ---- jump to nn, PC=nn
// ----------------------------------------------------------------------------
pub fn jp_d16(cpu: CPUState, low: Byte, high: Byte) -> (r: CPUState)
    requires
        cpu.tsc + 16 <= u64::MAX,
    ensures
        r@ == cpu@.jump(bits::word_of(high, low)).tick(16),
{
    impl_jp(cpu, combine(high, low)).tick(16)
}

//   jp   HL        E9           4 ---- jump to HL, PC=HL
// ----------------------------------------------------------------------------
pub fn jp_hl(cpu: CPUState) -> (r: CPUState)
    requires
        cpu.tsc + 4 <= u64::MAX,
    ensures
        r@ == cpu@.jump(cpu@.hl()).tick(4),
{
    impl_jp(cpu, cpu.HL()).tick(4)
}

/// Whether the condition holds that a conditional jump, call or return names in its opcode.
fn holds(cpu: &CPUState, op: Byte) -> (r: bool)
    requires
        (op as int / 8) % 8 < 4,
    ensures
        r == isa::condition(cpu@, (op as int / 8) % 8),
{
    // NZ | Z | NC | C
    match (op / 8) % 8 {
        0 => !cpu.zero(),
        1 => cpu.zero(),
        2 => !cpu.carry(),
        _ => cpu.carry(),
    }
}

//   jp   f,nn      xx nn nn 16;12 ---- conditional jump if nz,z,nc,c
// ----------------------------------------------------------------------------
pub fn jp_f_d16(cpu: CPUState, low: Byte, high: Byte, op: Byte) -> (r: CPUState)
    requires
        op == 0xC2 || op == 0xD2 || op == 0xCA || op == 0xDA,
        isa::condition(cpu@, (op as int / 8) % 8) ==> cpu.tsc + 16 <= u64::MAX,
        !isa::condition(cpu@, (op as int / 8) % 8) ==> cpu.pc + 3 <= 0xFFFF && cpu.tsc + 12
            <= u64::MAX,
    ensures
        r@ == if isa::condition(cpu@, (op as int / 8) % 8) {
            cpu@.jump(bits::word_of(high, low)).tick(16)
        } else {
            cpu@.adv_pc(3).tick(12)
        },
{
    // 0xC2: NZ | 0xD2: NC | 0xCA: Z | 0xDA: C
    if holds(&cpu, op) {
        impl_jp(cpu, combine(high, low)).tick(16)
    } else {
        cpu.adv_pc(3).tick(12)
    }
}

//   jr   PC+dd     18 dd       12 ---- relative jump to nn (PC=PC+/-7bit)
// ----------------------------------------------------------------------------
pub fn jr_r8(cpu: CPUState, r8: SByte) -> (r: CPUState)
    requires
        cpu.pc + 2 <= 0xFFFF,
        cpu.tsc + 12 <= u64::MAX,
    ensures
        r@ == isa::jr(cpu@, r8 as int).tick(12),
{
    impl_jr(cpu.adv_pc(2), r8).tick(12)
}

//   jr   f,PC+dd   xx dd     12;8 ---- conditional relative jump if nz,z,nc,c
// ----------------------------------------------------------------------------
/// A relative jump if `condition` holds.
fn impl_jr_conditional(condition: bool, cpu: CPUState, r8: SByte) -> (r: CPUState)
    requires
        cpu.pc + 2 <= 0xFFFF,
        condition ==> cpu.tsc + 12 <= u64::MAX,
        cpu.tsc + 8 <= u64::MAX,
    ensures
        r@ == if condition {
            isa::jr(cpu@, r8 as int).tick(12)
        } else {
            cpu@.adv_pc(2).tick(8)
        },
{
    if condition {
        impl_jr(cpu.adv_pc(2), r8).tick(12)
    } else {
        impl_jr(cpu.adv_pc(2), 0).tick(8)
    }
}

pub fn jr_nz_r8(cpu: CPUState, r8: SByte) -> (r: CPUState)
    requires
        cpu.pc + 2 <= 0xFFFF,
        isa::condition(cpu@, 0) ==> cpu.tsc + 12 <= u64::MAX,
        cpu.tsc + 8 <= u64::MAX,
    ensures
        r@ == if isa::condition(cpu@, 0) {
            isa::jr(cpu@, r8 as int).tick(12)
        } else {
            cpu@.adv_pc(2).tick(8)
        },
{
    impl_jr_conditional(!cpu.zero(), cpu, r8)
}

pub fn jr_nc_r8(cpu: CPUState, r8: SByte) -> (r: CPUState)
    requires
        cpu.pc + 2 <= 0xFFFF,
        isa::condition(cpu@, 2) ==> cpu.tsc + 12 <= u64::MAX,
        cpu.tsc + 8 <= u64::MAX,
    ensures
        r@ == if isa::condition(cpu@, 2) {
            isa::jr(cpu@, r8 as int).tick(12)
        } else {
            cpu@.adv_pc(2).tick(8)
        },
{
    impl_jr_conditional(!cpu.carry(), cpu, r8)
}

pub fn jr_z_r8(cpu: CPUState, r8: SByte) -> (r: CPUState)
    requires
        cpu.pc + 2 <= 0xFFFF,
        isa::condition(cpu@, 1) ==> cpu.tsc + 12 <= u64::MAX,
        cpu.tsc + 8 <= u64::MAX,
    ensures
        r@ == if isa::condition(cpu@, 1) {
            isa::jr(cpu@, r8 as int).tick(12)
        } else {
            cpu@.adv_pc(2).tick(8)
        },
{
    impl_jr_conditional(cpu.zero(), cpu, r8)
}

pub fn jr_c_r8(cpu: CPUState, r8: SByte) -> (r: CPUState)
    requires
        cpu.pc + 2 <= 0xFFFF,
        isa::condition(cpu@, 3) ==> cpu.tsc + 12 <= u64::MAX,
        cpu.tsc + 8 <= u64::MAX,
    ensures
        r@ == if isa::condition(cpu@, 3) {
            isa::jr(cpu@, r8 as int).tick(12)
        } else {
            cpu@.adv_pc(2).tick(8)
        },
{
    impl_jr_conditional(cpu.carry(), cpu, r8)
}

//   call nn        CD nn nn    24 ---- call to nn, (SP-1)=PC, SP=SP-2, PC=nn
// ----------------------------------------------------------------------------
pub fn call_d16(low: Byte, high: Byte, cpu: CPUState, mem: &mut Memory) -> (r: CPUState)
    requires
        cpu.sp >= 2,
        cpu.pc + 3 <= 0xFFFF,
        cpu.tsc + 24 <= u64::MAX,
    ensures
        r@ == isa::call(
            isa::state(cpu@, old(mem)@),
            cpu.pc + 3,
            bits::word_of(high, low),
        ).cpu.tick(24),
        final(mem)@ == old(mem)@.pushed(cpu@.sp, cpu.pc + 3),
{
    let next = cpu.adv_pc(3).tick(24);
    let cpu_pushed = push_d16(next, mem, next.pc);
    CPUState { pc: combine(high, low), ..cpu_pushed }
}

//   call f,nn      xx nn nn 24;12 ---- conditional call if nz,z,nc,c
// ----------------------------------------------------------------------------
pub fn call_f_d16(low: Byte, high: Byte, cpu: CPUState, mem: &mut Memory, op: Byte) -> (r: CPUState)
    requires
        op == 0xC4 || op == 0xD4 || op == 0xCC || op == 0xDC,
        cpu.pc + 3 <= 0xFFFF,
        isa::condition(cpu@, (op as int / 8) % 8) ==> cpu.sp >= 2 && cpu.tsc + 24 <= u64::MAX,
        !isa::condition(cpu@, (op as int / 8) % 8) ==> cpu.tsc + 12 <= u64::MAX,
    ensures
        r@ == if isa::condition(cpu@, (op as int / 8) % 8) {
            isa::call(
                isa::state(cpu@, old(mem)@),
                cpu.pc + 3,
                bits::word_of(high, low),
            ).cpu.tick(24)
        } else {
            cpu@.adv_pc(3).tick(12)
        },
        final(mem)@ == if isa::condition(cpu@, (op as int / 8) % 8) {
            old(mem)@.pushed(cpu@.sp, cpu.pc + 3)
        } else {
            old(mem)@
        },
{
    // 0xC4: NZ | 0xD4: NC | 0xCC: Z | 0xDC: C
    if holds(&cpu, op) {
        call_d16(low, high, cpu, mem)
    } else {
        cpu.adv_pc(3).tick(12)
    }
}

//   ret            C9          16 ---- return, PC=(SP+1), SP=SP+2
// ----------------------------------------------------------------------------
pub fn ret(cpu: CPUState, mem: &Memory) -> (r: CPUState)
    requires
        cpu.sp + 2 <= 0xFFFF,
        cpu.tsc + 16 <= u64::MAX,
    ensures
        r@ == isa::ret(isa::state(cpu@, mem@)).tick(16),
{
    let (cpu_popped, pval) = pop_d16(cpu, mem);
    CPUState { pc: pval, tsc: cpu.tsc + 16, ..cpu_popped }
}

//   ret  f         xx        20;8 ---- conditional return if nz,z,nc,c
// ----------------------------------------------------------------------------
pub fn impl_ret_conditional(condition: bool, cpu: CPUState, mem: &Memory) -> (r: CPUState)
    requires
        condition ==> cpu.sp + 2 <= 0xFFFF && cpu.tsc + 20 <= u64::MAX,
        !condition ==> cpu.pc + 1 <= 0xFFFF && cpu.tsc + 8 <= u64::MAX,
    ensures
        r@ == if condition {
            isa::ret(isa::state(cpu@, mem@)).tick(20)
        } else {
            cpu@.adv_pc(1).tick(8)
        },
{
    if condition {
        ret(cpu, mem).tick(4)
    } else {
        CPUState { pc: cpu.pc + 1, tsc: cpu.tsc + 8, ..cpu }
    }
}

pub fn ret_nz(cpu: CPUState, mem: &Memory) -> (r: CPUState)
    requires
        isa::condition(cpu@, 0) ==> cpu.sp + 2 <= 0xFFFF && cpu.tsc + 20 <= u64::MAX,
        !isa::condition(cpu@, 0) ==> cpu.pc + 1 <= 0xFFFF && cpu.tsc + 8 <= u64::MAX,
    ensures
        r@ == if isa::condition(cpu@, 0) {
            isa::ret(isa::state(cpu@, mem@)).tick(20)
        } else {
            cpu@.adv_pc(1).tick(8)
        },
{
    impl_ret_conditional(!cpu.zero(), cpu, mem)
}

pub fn ret_z(cpu: CPUState, mem: &Memory) -> (r: CPUState)
    requires
        isa::condition(cpu@, 1) ==> cpu.sp + 2 <= 0xFFFF && cpu.tsc + 20 <= u64::MAX,
        !isa::condition(cpu@, 1) ==> cpu.pc + 1 <= 0xFFFF && cpu.tsc + 8 <= u64::MAX,
    ensures
        r@ == if isa::condition(cpu@, 1) {
            isa::ret(isa::state(cpu@, mem@)).tick(20)
        } else {
            cpu@.adv_pc(1).tick(8)
        },
{
    impl_ret_conditional(cpu.zero(), cpu, mem)
}

pub fn ret_nc(cpu: CPUState, mem: &Memory) -> (r: CPUState)
    requires
        isa::condition(cpu@, 2) ==> cpu.sp + 2 <= 0xFFFF && cpu.tsc + 20 <= u64::MAX,
        !isa::condition(cpu@, 2) ==> cpu.pc + 1 <= 0xFFFF && cpu.tsc + 8 <= u64::MAX,
    ensures
        r@ == if isa::condition(cpu@, 2) {
            isa::ret(isa::state(cpu@, mem@)).tick(20)
        } else {
            cpu@.adv_pc(1).tick(8)
        },
{
    impl_ret_conditional(!cpu.carry(), cpu, mem)
}

pub fn ret_c(cpu: CPUState, mem: &Memory) -> (r: CPUState)
    requires
        isa::condition(cpu@, 3) ==> cpu.sp + 2 <= 0xFFFF && cpu.tsc + 20 <= u64::MAX,
        !isa::condition(cpu@, 3) ==> cpu.pc + 1 <= 0xFFFF && cpu.tsc + 8 <= u64::MAX,
    ensures
        r@ == if isa::condition(cpu@, 3) {
            isa::ret(isa::state(cpu@, mem@)).tick(20)
        } else {
            cpu@.adv_pc(1).tick(8)
        },
{
    impl_ret_conditional(cpu.carry(), cpu, mem)
}

//   reti           D9          16 ---- return and enable interrupts (IME=1)
// ----------------------------------------------------------------------------
pub fn reti(cpu: CPUState, mem: &Memory) -> (r: CPUState)
    requires
        cpu.sp + 2 <= 0xFFFF,
        cpu.tsc + 16 <= u64::MAX,
    ensures
        r@ == (Cpu {
            ime: true,
            inst_ei: cpu@.inst_count,
            ..isa::ret(isa::state(cpu@, mem@)).tick(16)
        }),
{
    // except for the ime change, reti is identical to ret
    CPUState { ime: true, inst_ei: cpu.inst_count, ..ret(cpu, mem) }
}

//   rst  n         xx          16 ---- call to 00,08,10,18,20,28,30,38
// ----------------------------------------------------------------------------
pub fn rst_n(cpu: CPUState, mem: &mut Memory, opcode: Byte) -> (r: CPUState)
    requires
        opcode >= 0xC0,
        cpu.sp >= 2,
        cpu.pc + 1 <= 0xFFFF,
        cpu.tsc + 16 <= u64::MAX,
    ensures
        r@ == isa::call(
            isa::state(cpu@, old(mem)@),
            cpu.pc + 1,
            8 * ((opcode as int / 8) % 8),
        ).cpu.tick(16),
        final(mem)@ == old(mem)@.pushed(cpu@.sp, cpu.pc + 1),
{
    let next = cpu.adv_pc(1).tick(16);
    proof {
        lemma_rst_address(opcode);
    }
    let rst_hi: Byte = (opcode & HIGH_MASK_NIB) - 0xC0;
    let rst_lo: Byte = opcode & 0x08;
    let rst_addr: Byte = rst_hi | rst_lo;

    let cpu_pushed = push_d16(next, mem, next.pc);

    CPUState { pc: rst_addr as Word, ..cpu_pushed }
}

proof fn lemma_rst_address(op: u8)
    by (bit_vector)
    requires
        op >= 0xC0,
    ensures
        (op & 0xF0) >= 0xC0,
        (((op & 0xF0) - 0xC0) as u8 | (op & 0x08)) == 8 * ((op / 8) % 8),
{
}

// ============================================================================
// interrupts
// ============================================================================
/// Acknowledges the request `fl_int` and goes on at `vec_int`.
pub fn jump_to_int_vec(cpu: CPUState, mem: &mut Memory, fl_int: Byte, vec_int: Word) -> (r: CPUState)
    requires
        cpu.sp >= 2,
        cpu.tsc + 20 <= u64::MAX,
    ensures
        r@ == isa::interrupt(
            isa::state(cpu@, old(mem)@),
            old(mem)@.read(IF as int) & !fl_int,
            vec_int as int,
        ).cpu,
        final(mem)@ == isa::interrupt(
            isa::state(cpu@, old(mem)@),
            old(mem)@.read(IF as int) & !fl_int,
            vec_int as int,
        ).mem,
{
    let flags: Byte = mem.read(IF);
    // acknowledge the request flag (set to 0)
    mem.write(IF, flags & !fl_int);
    // push current position to stack to prepare for jump
    let cpu_pushed = push_d16(cpu, mem, cpu.pc);

    // only lock the ime if we're handling the final request
    CPUState { ime: mem.read(IF) != 0, pc: vec_int, ..cpu_pushed }.tick(20)  // https://gbdev.io/pandocs/Interrupts.html#interrupt-handling
}

/// Requests the interrupts in `int_flag`.
pub fn request_interrupt(mem: &mut Memory, int_flag: Byte)
    ensures
        final(mem)@ == old(mem)@.write(IF as int, old(mem)@.read(IF as int) | int_flag),
{
    let flags: Byte = mem.read(IF);
    mem.write(IF, flags | int_flag);
}

} // verus!
