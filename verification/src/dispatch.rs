//! The opcode table: from an opcode to the function that executes it.
use vstd::prelude::*;

use crate::alu::{
    adc_HL, adc_d8, adc_r, add_HL, add_d8, add_hl_bc, add_hl_de, add_hl_hl, add_hl_sp, add_r,
    add_sp_r8, and_HL, and_d8, and_r, cp_HL, cp_d8, cp_r, cpl, daa, dec_HL, dec_a, dec_b, dec_bc,
    dec_c, dec_d, dec_de, dec_e, dec_h, dec_hl, dec_l, dec_sp, inc_HL, inc_a, inc_b, inc_bc,
    inc_c, inc_d, inc_de, inc_e, inc_h, inc_hl, inc_l, inc_sp, ld_hl_sp_r8, or_HL, or_d8, or_r,
    sbc_HL, sbc_d8, sbc_r, sub_HL, sub_d8, sub_r, xor_HL, xor_d8, xor_r,
};
use crate::bits::signed;
use crate::control::{
    call_d16, call_f_d16, ccf, di, ei, halt, jp_d16, jp_f_d16, jp_hl, jr_c_r8, jr_nc_r8,
    jr_nz_r8, jr_r8, jr_z_r8, nop, ret, ret_c, ret_nc, ret_nz, ret_z, reti, rst_n, scf, stop,
};
use crate::cpu::CPUState;
use crate::isa;
use crate::loads::{
    ld_A16_a, ld_A16_sp, ld_BC_a, ld_DE_a, ld_FF00_A8_a, ld_FF00_C_a, ld_HL_a, ld_HL_b, ld_HL_c,
    ld_HL_d, ld_HL_d8, ld_HL_e, ld_HL_h, ld_HL_l, ld_a_A16, ld_a_BC, ld_a_DE, ld_a_FF00_A8,
    ld_a_FF00_C, ld_a_HL, ld_a_d8, ld_b_HL, ld_b_d8, ld_bc_d16, ld_c_HL, ld_c_d8, ld_d_HL,
    ld_d_d8, ld_de_d16, ld_e_HL, ld_e_d8, ld_h_HL, ld_h_d8, ld_hl_d16, ld_l_HL, ld_l_d8, ld_r_r,
    ld_sp_d16, ld_sp_hl, ldd_HL_a, ldd_a_HL, ldi_HL_a, ldi_a_HL, pop_af, pop_bc, pop_de, pop_hl,
    push_af, push_bc, push_de, push_hl,
};
use crate::memory::Memory;
use crate::rotates::{
    bit_hl, bit_r, res_n_hl, res_n_r, rl_hl, rl_r, rla, rlc_hl, rlc_r, rlca, rr_hl, rr_r, rra,
    rrc_hl, rrc_r, rrca, set_hl, set_r, sla_hl, sla_r, sra_hl, sra_r, srl_hl, srl_r, swap_hl,
    swap_r,
};
use crate::types::Byte;

verus! {

/// NOP, LD (nn), SP, STOP, and relative jumps.
fn execute_jumps_by_offset(cpu: CPUState, mem: &mut Memory, op: Byte) -> (r: CPUState)
    requires
        op < 0x40,
        op % 8 == 0,
        isa::fits(isa::state(cpu@, old(mem)@), op as int),
    ensures
        isa::state(r@, final(mem)@) == isa::jumps_by_offset(isa::state(cpu@, old(mem)@), (op as int / 8) % 8),
{
    proof {
        reveal(isa::jumps_by_offset);
    }
    match op {
        0x00 => nop(cpu),
        0x08 => ld_A16_sp(mem.read(cpu.pc + 1), mem.read(cpu.pc + 2), cpu, mem),
        0x10 => stop(cpu),
        0x18 => jr_r8(cpu, signed(mem.read(cpu.pc + 1))),
        0x20 => jr_nz_r8(cpu, signed(mem.read(cpu.pc + 1))),
        0x28 => jr_z_r8(cpu, signed(mem.read(cpu.pc + 1))),
        0x30 => jr_nc_r8(cpu, signed(mem.read(cpu.pc + 1))),
        _ => jr_c_r8(cpu, signed(mem.read(cpu.pc + 1))),
    }
}

/// LD rr, nn and ADD HL, rr.
fn execute_word_loads(cpu: CPUState, mem: &mut Memory, op: Byte) -> (r: CPUState)
    requires
        op < 0x40,
        op % 8 == 1,
        isa::fits(isa::state(cpu@, old(mem)@), op as int),
    ensures
        isa::state(r@, final(mem)@) == isa::word_loads(isa::state(cpu@, old(mem)@), (op as int / 8) % 8),
{
    proof {
        reveal(isa::word_loads);
    }
    match op {
        0x01 => ld_bc_d16(cpu, mem.read(cpu.pc + 1), mem.read(cpu.pc + 2)),
        0x09 => add_hl_bc(cpu),
        0x11 => ld_de_d16(cpu, mem.read(cpu.pc + 1), mem.read(cpu.pc + 2)),
        0x19 => add_hl_de(cpu),
        0x21 => ld_hl_d16(cpu, mem.read(cpu.pc + 1), mem.read(cpu.pc + 2)),
        0x29 => add_hl_hl(cpu),
        0x31 => ld_sp_d16(cpu, mem.read(cpu.pc + 1), mem.read(cpu.pc + 2)),
        _ => add_hl_sp(cpu),
    }
}

/// LD (rr), A and LD A, (rr).
fn execute_indirect_loads(cpu: CPUState, mem: &mut Memory, op: Byte) -> (r: CPUState)
    requires
        op < 0x40,
        op % 8 == 2,
        isa::fits(isa::state(cpu@, old(mem)@), op as int),
    ensures
        isa::state(r@, final(mem)@) == isa::indirect_loads(isa::state(cpu@, old(mem)@), (op as int / 8) % 8),
{
    proof {
        reveal(isa::indirect_loads);
    }
    match op {
        0x02 => ld_BC_a(cpu, mem),
        0x0A => ld_a_BC(cpu, mem),
        0x12 => ld_DE_a(cpu, mem),
        0x1A => ld_a_DE(cpu, mem),
        0x22 => ldi_HL_a(cpu, mem),
        0x2A => ldi_a_HL(cpu, mem),
        0x32 => ldd_HL_a(cpu, mem),
        _ => ldd_a_HL(cpu, mem),
    }
}

/// INC rr and DEC rr.
fn execute_word_steps(cpu: CPUState, mem: &mut Memory, op: Byte) -> (r: CPUState)
    requires
        op < 0x40,
        op % 8 == 3,
        isa::fits(isa::state(cpu@, old(mem)@), op as int),
    ensures
        isa::state(r@, final(mem)@) == isa::word_steps(isa::state(cpu@, old(mem)@), (op as int / 8) % 8),
{
    proof {
        reveal(isa::word_steps);
    }
    match op {
        0x03 => inc_bc(cpu),
        0x0B => dec_bc(cpu),
        0x13 => inc_de(cpu),
        0x1B => dec_de(cpu),
        0x23 => inc_hl(cpu),
        0x2B => dec_hl(cpu),
        0x33 => inc_sp(cpu),
        _ => dec_sp(cpu),
    }
}

/// INC r.
fn execute_increments(cpu: CPUState, mem: &mut Memory, op: Byte) -> (r: CPUState)
    requires
        op < 0x40,
        op % 8 == 4,
        isa::fits(isa::state(cpu@, old(mem)@), op as int),
    ensures
        isa::state(r@, final(mem)@) == isa::increments(isa::state(cpu@, old(mem)@), (op as int / 8) % 8),
{
    proof {
        reveal(isa::increments);
    }
    match op {
        0x04 => inc_b(cpu),
        0x0C => inc_c(cpu),
        0x14 => inc_d(cpu),
        0x1C => inc_e(cpu),
        0x24 => inc_h(cpu),
        0x2C => inc_l(cpu),
        0x34 => inc_HL(cpu, mem),
        _ => inc_a(cpu),
    }
}

/// DEC r.
fn execute_decrements(cpu: CPUState, mem: &mut Memory, op: Byte) -> (r: CPUState)
    requires
        op < 0x40,
        op % 8 == 5,
        isa::fits(isa::state(cpu@, old(mem)@), op as int),
    ensures
        isa::state(r@, final(mem)@) == isa::decrements(isa::state(cpu@, old(mem)@), (op as int / 8) % 8),
{
    proof {
        reveal(isa::decrements);
    }
    match op {
        0x05 => dec_b(cpu),
        0x0D => dec_c(cpu),
        0x15 => dec_d(cpu),
        0x1D => dec_e(cpu),
        0x25 => dec_h(cpu),
        0x2D => dec_l(cpu),
        0x35 => dec_HL(cpu, mem),
        _ => dec_a(cpu),
    }
}

/// LD r, n.
fn execute_immediate_loads(cpu: CPUState, mem: &mut Memory, op: Byte) -> (r: CPUState)
    requires
        op < 0x40,
        op % 8 == 6,
        isa::fits(isa::state(cpu@, old(mem)@), op as int),
    ensures
        isa::state(r@, final(mem)@) == isa::immediate_loads(isa::state(cpu@, old(mem)@), (op as int / 8) % 8),
{
    proof {
        reveal(isa::immediate_loads);
    }
    match op {
        0x06 => ld_b_d8(cpu, mem.read(cpu.pc + 1)),
        0x0E => ld_c_d8(cpu, mem.read(cpu.pc + 1)),
        0x16 => ld_d_d8(cpu, mem.read(cpu.pc + 1)),
        0x1E => ld_e_d8(cpu, mem.read(cpu.pc + 1)),
        0x26 => ld_h_d8(cpu, mem.read(cpu.pc + 1)),
        0x2E => ld_l_d8(cpu, mem.read(cpu.pc + 1)),
        0x36 => ld_HL_d8(cpu, mem.read(cpu.pc + 1), mem),
        _ => ld_a_d8(cpu, mem.read(cpu.pc + 1)),
    }
}

/// Rotations of the accumulator, DAA, CPL, SCF and CCF.
fn execute_accumulator_ops(cpu: CPUState, mem: &mut Memory, op: Byte) -> (r: CPUState)
    requires
        op < 0x40,
        op % 8 == 7,
        isa::fits(isa::state(cpu@, old(mem)@), op as int),
    ensures
        isa::state(r@, final(mem)@) == isa::accumulator_ops(isa::state(cpu@, old(mem)@), (op as int / 8) % 8),
{
    proof {
        reveal(isa::accumulator_ops);
    }
    match op {
        0x07 => rlca(cpu),
        0x0F => rrca(cpu),
        0x17 => rla(cpu),
        0x1F => rra(cpu),
        0x27 => daa(cpu),
        0x2F => cpl(cpu),
        0x37 => scf(cpu),
        _ => ccf(cpu),
    }
}

/// LD r, r and HALT.
fn execute_operand_loads(cpu: CPUState, mem: &mut Memory, op: Byte) -> (r: CPUState)
    requires
        0x40 <= op < 0x80,
        isa::fits(isa::state(cpu@, old(mem)@), op as int),
    ensures
        isa::state(r@, final(mem)@) == isa::block1(
            isa::state(cpu@, old(mem)@),
            (op as int / 8) % 8,
            op as int % 8,
        ),
{
    proof {
        reveal(isa::block1);
    }
    match op {
        0x46 => ld_b_HL(cpu, mem),
        0x4E => ld_c_HL(cpu, mem),
        0x56 => ld_d_HL(cpu, mem),
        0x5E => ld_e_HL(cpu, mem),
        0x66 => ld_h_HL(cpu, mem),
        0x6E => ld_l_HL(cpu, mem),
        0x76 => halt(cpu),
        0x7E => ld_a_HL(cpu, mem),
        0x70 => ld_HL_b(cpu, mem),
        0x71 => ld_HL_c(cpu, mem),
        0x72 => ld_HL_d(cpu, mem),
        0x73 => ld_HL_e(cpu, mem),
        0x74 => ld_HL_h(cpu, mem),
        0x75 => ld_HL_l(cpu, mem),
        0x77 => ld_HL_a(cpu, mem),
        _ => ld_r_r(cpu, op),
    }
}

/// Sums and differences with a register.
fn execute_alu_sum_r(cpu: CPUState, mem: &mut Memory, op: Byte) -> (r: CPUState)
    requires
        0x80 <= op < 0xC0,
        op % 8 != 6,
        (op as int / 8) % 8 < 4,
        isa::fits(isa::state(cpu@, old(mem)@), op as int),
    ensures
        isa::state(r@, final(mem)@) == isa::block2(
            isa::state(cpu@, old(mem)@),
            (op as int / 8) % 8,
            op as int % 8,
        ),
{
    proof {
        reveal(isa::block2);
        reveal(isa::alu_sum);
    }
    match (op / 8) % 8 {
        0 => add_r(cpu, (op % 8) as usize),
        1 => adc_r(cpu, (op % 8) as usize),
        2 => sub_r(cpu, (op % 8) as usize),
        _ => sbc_r(cpu, (op % 8) as usize),
    }
}

/// Sums and differences with the byte that HL addresses.
fn execute_alu_sum_HL(cpu: CPUState, mem: &mut Memory, op: Byte) -> (r: CPUState)
    requires
        0x80 <= op < 0xC0,
        op % 8 == 6,
        (op as int / 8) % 8 < 4,
        isa::fits(isa::state(cpu@, old(mem)@), op as int),
    ensures
        isa::state(r@, final(mem)@) == isa::block2(
            isa::state(cpu@, old(mem)@),
            (op as int / 8) % 8,
            op as int % 8,
        ),
{
    proof {
        reveal(isa::block2);
        reveal(isa::alu_sum);
    }
    match (op / 8) % 8 {
        0 => add_HL(cpu, mem),
        1 => adc_HL(cpu, mem),
        2 => sub_HL(cpu, mem),
        _ => sbc_HL(cpu, mem),
    }
}

/// Sums and differences with the byte after the opcode.
fn execute_alu_sum_d8(cpu: CPUState, mem: &mut Memory, op: Byte) -> (r: CPUState)
    requires
        op >= 0xC0,
        op % 8 == 6,
        (op as int / 8) % 8 < 4,
        isa::fits(isa::state(cpu@, old(mem)@), op as int),
    ensures
        isa::state(r@, final(mem)@) == isa::immediate_ops(isa::state(cpu@, old(mem)@), (op as int / 8) % 8),
{
    proof {
        reveal(isa::immediate_ops);
        reveal(isa::alu_sum);
    }
    match (op / 8) % 8 {
        0 => add_d8(cpu, mem.read(cpu.pc + 1)),
        1 => adc_d8(cpu, mem.read(cpu.pc + 1)),
        2 => sub_d8(cpu, mem.read(cpu.pc + 1)),
        _ => sbc_d8(cpu, mem.read(cpu.pc + 1)),
    }
}

/// Logic and comparison with a register.
fn execute_alu_logic_r(cpu: CPUState, mem: &mut Memory, op: Byte) -> (r: CPUState)
    requires
        0x80 <= op < 0xC0,
        op % 8 != 6,
        (op as int / 8) % 8 >= 4,
        isa::fits(isa::state(cpu@, old(mem)@), op as int),
    ensures
        isa::state(r@, final(mem)@) == isa::block2(
            isa::state(cpu@, old(mem)@),
            (op as int / 8) % 8,
            op as int % 8,
        ),
{
    proof {
        reveal(isa::block2);
        reveal(isa::alu_logic);
    }
    match (op / 8) % 8 {
        4 => and_r(cpu, (op % 8) as usize),
        5 => xor_r(cpu, (op % 8) as usize),
        6 => or_r(cpu, (op % 8) as usize),
        _ => cp_r(cpu, (op % 8) as usize),
    }
}

/// Logic and comparison with the byte that HL addresses.
fn execute_alu_logic_HL(cpu: CPUState, mem: &mut Memory, op: Byte) -> (r: CPUState)
    requires
        0x80 <= op < 0xC0,
        op % 8 == 6,
        (op as int / 8) % 8 >= 4,
        isa::fits(isa::state(cpu@, old(mem)@), op as int),
    ensures
        isa::state(r@, final(mem)@) == isa::block2(
            isa::state(cpu@, old(mem)@),
            (op as int / 8) % 8,
            op as int % 8,
        ),
{
    proof {
        reveal(isa::block2);
        reveal(isa::alu_logic);
    }
    match (op / 8) % 8 {
        4 => and_HL(cpu, mem),
        5 => xor_HL(cpu, mem),
        6 => or_HL(cpu, mem),
        _ => cp_HL(cpu, mem),
    }
}

/// Logic and comparison with the byte after the opcode.
fn execute_alu_logic_d8(cpu: CPUState, mem: &mut Memory, op: Byte) -> (r: CPUState)
    requires
        op >= 0xC0,
        op % 8 == 6,
        (op as int / 8) % 8 >= 4,
        isa::fits(isa::state(cpu@, old(mem)@), op as int),
    ensures
        isa::state(r@, final(mem)@) == isa::immediate_ops(isa::state(cpu@, old(mem)@), (op as int / 8) % 8),
{
    proof {
        reveal(isa::immediate_ops);
        reveal(isa::alu_logic);
    }
    match (op / 8) % 8 {
        4 => and_d8(cpu, mem.read(cpu.pc + 1)),
        5 => xor_d8(cpu, mem.read(cpu.pc + 1)),
        6 => or_d8(cpu, mem.read(cpu.pc + 1)),
        _ => cp_d8(cpu, mem.read(cpu.pc + 1)),
    }
}

/// Executes the instruction behind the prefix CB.
fn execute_cb(cpu: CPUState, mem: &mut Memory, op: Byte) -> (r: CPUState)
    requires
        cpu.pc + 2 <= 0xFFFF,
        cpu.tsc + isa::cb_cycles(op as int) <= u64::MAX,
    ensures
        isa::state(r@, final(mem)@) == isa::cb(isa::state(cpu@, old(mem)@), op as int),
{
    let bit: Byte = (op / 8) % 8;
    let reg: usize = (op % 8) as usize;
    if reg == 6 {
        if op < 0x40 {
            match bit {
                0 => rlc_hl(cpu, mem),
                1 => rrc_hl(cpu, mem),
                2 => rl_hl(cpu, mem),
                3 => rr_hl(cpu, mem),
                4 => sla_hl(cpu, mem),
                5 => sra_hl(cpu, mem),
                6 => swap_hl(cpu, mem),
                _ => srl_hl(cpu, mem),
            }
        } else if op < 0x80 {
            bit_hl(cpu, mem, bit)
        } else if op < 0xC0 {
            res_n_hl(cpu, mem, bit)
        } else {
            set_hl(cpu, mem, bit)
        }
    } else {
        if op < 0x40 {
            match bit {
                0 => rlc_r(cpu, reg),
                1 => rrc_r(cpu, reg),
                2 => rl_r(cpu, reg),
                3 => rr_r(cpu, reg),
                4 => sla_r(cpu, reg),
                5 => sra_r(cpu, reg),
                6 => swap_r(cpu, reg),
                _ => srl_r(cpu, reg),
            }
        } else if op < 0x80 {
            bit_r(cpu, bit, reg)
        } else if op < 0xC0 {
            res_n_r(cpu, bit, reg)
        } else {
            set_r(cpu, bit, reg)
        }
    }
}

/// RET cc, loads to and from the I/O page, ADD SP, n and LD HL, SP + n.
fn execute_conditional_returns(cpu: CPUState, mem: &mut Memory, op: Byte) -> (r: CPUState)
    requires
        op >= 0xC0,
        op % 8 == 0,
        isa::fits(isa::state(cpu@, old(mem)@), op as int),
    ensures
        isa::state(r@, final(mem)@) == isa::conditional_returns(isa::state(cpu@, old(mem)@), (op as int / 8) % 8),
{
    proof {
        reveal(isa::conditional_returns);
    }
    match op {
        0xC0 => ret_nz(cpu, mem),
        0xC8 => ret_z(cpu, mem),
        0xD0 => ret_nc(cpu, mem),
        0xD8 => ret_c(cpu, mem),
        0xE0 => ld_FF00_A8_a(mem.read(cpu.pc + 1), cpu, mem),
        0xE8 => add_sp_r8(cpu, signed(mem.read(cpu.pc + 1))),
        0xF0 => ld_a_FF00_A8(cpu, mem, mem.read(cpu.pc + 1)),
        _ => ld_hl_sp_r8(cpu, signed(mem.read(cpu.pc + 1))),
    }
}

/// POP rr, RET, RETI, JP HL and LD SP, HL.
fn execute_pops(cpu: CPUState, mem: &mut Memory, op: Byte) -> (r: CPUState)
    requires
        op >= 0xC0,
        op % 8 == 1,
        isa::fits(isa::state(cpu@, old(mem)@), op as int),
    ensures
        isa::state(r@, final(mem)@) == isa::pops(isa::state(cpu@, old(mem)@), (op as int / 8) % 8),
{
    proof {
        reveal(isa::pops);
    }
    match op {
        0xC1 => pop_bc(cpu, mem),
        0xC9 => ret(cpu, mem),
        0xD1 => pop_de(cpu, mem),
        0xD9 => reti(cpu, mem),
        0xE1 => pop_hl(cpu, mem),
        0xE9 => jp_hl(cpu),
        0xF1 => pop_af(cpu, mem),
        _ => ld_sp_hl(cpu),
    }
}

/// JP cc, nn and loads through C or a word.
fn execute_jumps(cpu: CPUState, mem: &mut Memory, op: Byte) -> (r: CPUState)
    requires
        op >= 0xC0,
        op % 8 == 2,
        isa::fits(isa::state(cpu@, old(mem)@), op as int),
    ensures
        isa::state(r@, final(mem)@) == isa::jumps(isa::state(cpu@, old(mem)@), (op as int / 8) % 8),
{
    proof {
        reveal(isa::jumps);
    }
    match op {
        0xC2 => jp_f_d16(cpu, mem.read(cpu.pc + 1), mem.read(cpu.pc + 2), 0xC2),
        0xCA => jp_f_d16(cpu, mem.read(cpu.pc + 1), mem.read(cpu.pc + 2), 0xCA),
        0xD2 => jp_f_d16(cpu, mem.read(cpu.pc + 1), mem.read(cpu.pc + 2), 0xD2),
        0xDA => jp_f_d16(cpu, mem.read(cpu.pc + 1), mem.read(cpu.pc + 2), 0xDA),
        0xE2 => ld_FF00_C_a(cpu, mem),
        0xEA => ld_A16_a(mem.read(cpu.pc + 1), mem.read(cpu.pc + 2), cpu, mem),
        0xF2 => ld_a_FF00_C(cpu, mem),
        _ => ld_a_A16(mem.read(cpu.pc + 1), mem.read(cpu.pc + 2), cpu, mem),
    }
}

/// JP nn, the prefix CB, DI and EI.
fn execute_controls(cpu: CPUState, mem: &mut Memory, op: Byte) -> (r: CPUState)
    requires
        op >= 0xC0,
        op % 8 == 3,
        !isa::undefined(op as int),
        isa::fits(isa::state(cpu@, old(mem)@), op as int),
    ensures
        isa::state(r@, final(mem)@) == isa::controls(isa::state(cpu@, old(mem)@), (op as int / 8) % 8),
{
    proof {
        reveal(isa::controls);
    }
    match op {
        0xC3 => jp_d16(cpu, mem.read(cpu.pc + 1), mem.read(cpu.pc + 2)),
        0xCB => {
            let op_cb: Byte = mem.read(cpu.pc + 1);
            execute_cb(cpu, mem, op_cb)
        },
        0xF3 => di(cpu),
        _ => ei(cpu),
    }
}

/// CALL cc, nn and CALL nn.
fn execute_calls(cpu: CPUState, mem: &mut Memory, op: Byte) -> (r: CPUState)
    requires
        op == 0xC4 || op == 0xCC || op == 0xD4 || op == 0xDC || op == 0xCD,
        isa::fits(isa::state(cpu@, old(mem)@), op as int),
    ensures
        isa::state(r@, final(mem)@) == isa::calls(
            isa::state(cpu@, old(mem)@),
            (op as int / 8) % 8,
            op as int % 8,
        ),
{
    proof {
        reveal(isa::calls);
    }
    match op {
        0xC4 => call_f_d16(mem.read(cpu.pc + 1), mem.read(cpu.pc + 2), cpu, mem, 0xC4),
        0xCC => call_f_d16(mem.read(cpu.pc + 1), mem.read(cpu.pc + 2), cpu, mem, 0xCC),
        0xD4 => call_f_d16(mem.read(cpu.pc + 1), mem.read(cpu.pc + 2), cpu, mem, 0xD4),
        0xDC => call_f_d16(mem.read(cpu.pc + 1), mem.read(cpu.pc + 2), cpu, mem, 0xDC),
        _ => call_d16(mem.read(cpu.pc + 1), mem.read(cpu.pc + 2), cpu, mem),
    }
}

/// PUSH rr.
fn execute_pushes(cpu: CPUState, mem: &mut Memory, op: Byte) -> (r: CPUState)
    requires
        op == 0xC5 || op == 0xD5 || op == 0xE5 || op == 0xF5,
        isa::fits(isa::state(cpu@, old(mem)@), op as int),
    ensures
        isa::state(r@, final(mem)@) == isa::pushes(isa::state(cpu@, old(mem)@), (op as int / 8) % 8),
{
    proof {
        reveal(isa::pushes);
    }
    match op {
        0xC5 => push_bc(cpu, mem),
        0xD5 => push_de(cpu, mem),
        0xE5 => push_hl(cpu, mem),
        _ => push_af(cpu, mem),
    }
}

/// RST.
fn execute_restarts(cpu: CPUState, mem: &mut Memory, op: Byte) -> (r: CPUState)
    requires
        op >= 0xC0,
        op % 8 == 7,
        isa::fits(isa::state(cpu@, old(mem)@), op as int),
    ensures
        isa::state(r@, final(mem)@) == isa::restarts(
            isa::state(cpu@, old(mem)@),
            (op as int / 8) % 8,
        ),
{
    proof {
        reveal(isa::restarts);
    }
    rst_n(cpu, mem, op)
}

/// Executes the instruction `op`, fetched at the program counter.
pub fn execute(cpu: CPUState, mem: &mut Memory, op: Byte) -> (r: CPUState)
    requires
        !isa::undefined(op as int),
        isa::fits(isa::state(cpu@, old(mem)@), op as int),
    ensures
        isa::state(r@, final(mem)@) == isa::execute(isa::state(cpu@, old(mem)@), op as int),
{
    if op < 0x40 {
        match op % 8 {
            0 => execute_jumps_by_offset(cpu, mem, op),
            1 => execute_word_loads(cpu, mem, op),
            2 => execute_indirect_loads(cpu, mem, op),
            3 => execute_word_steps(cpu, mem, op),
            4 => execute_increments(cpu, mem, op),
            5 => execute_decrements(cpu, mem, op),
            6 => execute_immediate_loads(cpu, mem, op),
            _ => execute_accumulator_ops(cpu, mem, op),
        }
    } else if op < 0x80 {
        execute_operand_loads(cpu, mem, op)
    } else if op < 0xC0 {
        let sum = (op / 8) % 8 < 4;
        if op % 8 != 6 {
            if sum {
                execute_alu_sum_r(cpu, mem, op)
            } else {
                execute_alu_logic_r(cpu, mem, op)
            }
        } else if sum {
            execute_alu_sum_HL(cpu, mem, op)
        } else {
            execute_alu_logic_HL(cpu, mem, op)
        }
    } else {
        match op % 8 {
            0 => execute_conditional_returns(cpu, mem, op),
            1 => execute_pops(cpu, mem, op),
            2 => execute_jumps(cpu, mem, op),
            3 => execute_controls(cpu, mem, op),
            4 => execute_calls(cpu, mem, op),
            5 => if op == 0xCD {
                execute_calls(cpu, mem, op)
            } else {
                execute_pushes(cpu, mem, op)
            },
            6 => if (op / 8) % 8 < 4 {
                execute_alu_sum_d8(cpu, mem, op)
            } else {
                execute_alu_logic_d8(cpu, mem, op)
            },
            _ => execute_restarts(cpu, mem, op),
        }
    }
}

} // verus!
