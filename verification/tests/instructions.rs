#![allow(non_snake_case)]
use cerboy::alu::{add_HL, add_hl_bc, add_hl_de, add_hl_hl, add_hl_sp, cp_HL, cp_d8, cp_r, dec_a, dec_b, dec_c, dec_d, dec_e, dec_h, dec_l, impl_adc_sbc, impl_add_sub, impl_xor, inc_HL, inc_a, inc_b, inc_bc, inc_c, inc_d, inc_de, inc_e, inc_h, inc_hl, inc_l, inc_sp, sub_r, xor_d8, xor_r};
use cerboy::bits::{hi, lo};
use cerboy::control::{call_d16, ccf, jp_d16, jp_hl, jr_c_r8, jr_nc_r8, jr_nz_r8, jr_z_r8, ret, rst_n, scf};
use cerboy::cpu::{CPUState, FLAGS, FL_C, FL_H, FL_INT_TIMER, FL_N, FL_Z, HardwareTimers, REG_A, REG_B, REG_C, REG_D, REG_E, REG_H, REG_L, tac_enabled, tima_reset, update_clocks};
use cerboy::dbg::str_flags;
use cerboy::lcd::{lcd_mode, set_lcd_mode};
use cerboy::loads::{impl_ld_HL_d8, ld_A16_a, ld_BC_a, ld_DE_a, ld_FF00_A8_a, ld_FF00_C_a, ld_a_BC, ld_a_DE, ld_a_FF00_A8, ld_a_FF00_C, ld_a_d8, ld_b_d8, ld_bc_d16, ld_c_d8, ld_d_d8, ld_de_d16, ld_e_d8, ld_h_d8, ld_hl_d16, ld_l_d8, ld_r_r, ld_sp_d16, ldd_HL_a, ldi_HL_a, pop_bc, push_bc};
use cerboy::memory::{IF, Memory, ROM_ENTRY, TAC, TIMA, TMA, VEC_RST_00, VEC_RST_08, VEC_RST_10, VEC_RST_18, VEC_RST_20, VEC_RST_28, VEC_RST_30, VEC_RST_38};
use cerboy::rotates::{bit_r, res_n_r, rl_r, rla, rlc_r, rlca, set_r};
use cerboy::types::Byte;

#[test]
fn test_adc() {
    let INITIAL: CPUState = CPUState::new();
    let cpu = CPUState {
        reg: [0xCD, 0x11, 0, 0, 0, 0, 0x00, 0x01],
        ..INITIAL
    };
    let cpu_c = CPUState {
        reg: [0xCD, 0x11, 0, 0, 0, 0, FL_C, 0x01],
        ..INITIAL
    };

    assert_eq!(
        impl_adc_sbc(cpu, 0xFE, 0).reg[REG_A],
        0xFF,
        "failed plain 0xFE"
    );
    assert_eq!(impl_adc_sbc(cpu_c, 0xFE, 0).reg[REG_A], 0x00);
    assert_eq!(
        impl_adc_sbc(cpu_c, 0xFE, 0).reg[FLAGS],
        FL_Z | FL_H | FL_C,
        "failed carry 0xFE"
    );

    assert_eq!(impl_adc_sbc(cpu, 0x0F, 0).reg[REG_A], 0x10);
    assert_eq!(
        impl_adc_sbc(cpu, 0x0F, 0).reg[FLAGS],
        FL_H,
        "failed plain 0x0F"
    );

    assert_eq!(impl_adc_sbc(cpu_c, 0x0F, 0).reg[REG_A], 0x11);
    assert_eq!(
        impl_adc_sbc(cpu_c, 0x0F, 0).reg[FLAGS],
        FL_H,
        "failed carry 0x0F"
    );

    assert_eq!(
        impl_adc_sbc(cpu, 0x01, 0).reg[REG_A],
        0x02,
        "failed plain 0x01"
    );
    assert_eq!(
        impl_adc_sbc(cpu, 0x01, 0).reg[FLAGS],
        0,
        "failed plain 0x01"
    );

    assert_eq!(
        impl_adc_sbc(cpu_c, 0x01, 0).reg[REG_A],
        0x03,
        "failed carry 0x01"
    );
    assert_eq!(
        impl_adc_sbc(cpu_c, 0x01, 0).reg[FLAGS],
        0,
        "failed carry flags 0x01"
    );
}

#[test]
fn test_res_n_r() {
    let cpu = CPUState {
        reg: [0xFE, 0, 0, 0, 0, 0, 0, 0],
        ..CPUState::new()
    };
    assert_eq!(res_n_r(cpu, 0, REG_B).reg[REG_B], 0b11111110);
    assert_eq!(res_n_r(cpu, 1, REG_B).reg[REG_B], 0b11111100);
    assert_eq!(res_n_r(cpu, 2, REG_B).reg[REG_B], 0b11111010);
    assert_eq!(res_n_r(cpu, 3, REG_B).reg[REG_B], 0b11110110);
    assert_eq!(res_n_r(cpu, 4, REG_B).reg[REG_B], 0b11101110);
    assert_eq!(res_n_r(cpu, 5, REG_B).reg[REG_B], 0b11011110);
    assert_eq!(res_n_r(cpu, 6, REG_B).reg[REG_B], 0b10111110);
    assert_eq!(res_n_r(cpu, 7, REG_B).reg[REG_B], 0b01111110);
}

#[test]
fn test_ccf_scf() {
    let cpu = CPUState::new();
    let cpu_zeroed = CPUState {
        reg: [0, 0, 0, 0, 0, 0, 0, 0],
        ..cpu
    };

    let ccf0 = ccf(cpu);
    let ccf1 = ccf(ccf0);
    assert_eq!(ccf0.reg[FLAGS] & FL_C, (!(cpu.reg[FLAGS] & FL_C)) & FL_C);
    assert_eq!(ccf1.reg[FLAGS] & FL_C, cpu.reg[FLAGS] & FL_C);

    assert_eq!(scf(cpu).reg[FLAGS] & FL_C, FL_C);
    assert_eq!(scf(cpu_zeroed).reg[FLAGS] & FL_C, FL_C);
}

#[test]
fn test_jp_hl() {
    let cpu = CPUState::new();
    assert_eq!(jp_hl(cpu).pc, cpu.HL())
}

#[test]
fn test_rst_n() {
    let cpu = CPUState::new();
    let mut mem = Memory::new();

    assert_eq!(rst_n(cpu, &mut mem, 0xC7).pc, VEC_RST_00);
    assert_eq!(rst_n(cpu, &mut mem, 0xD7).pc, VEC_RST_10);
    assert_eq!(rst_n(cpu, &mut mem, 0xE7).pc, VEC_RST_20);
    assert_eq!(rst_n(cpu, &mut mem, 0xF7).pc, VEC_RST_30);

    assert_eq!(rst_n(cpu, &mut mem, 0xCF).pc, VEC_RST_08);
    assert_eq!(rst_n(cpu, &mut mem, 0xDF).pc, VEC_RST_18);
    assert_eq!(rst_n(cpu, &mut mem, 0xEF).pc, VEC_RST_28);
    assert_eq!(rst_n(cpu, &mut mem, 0xFF).pc, VEC_RST_38);
}

#[test]
fn test_impl_xor_r() {
    let INITIAL: CPUState = CPUState::new();
    let result = impl_xor(INITIAL, 0x13).adv_pc(1).tick(4);
    assert_eq!(result.pc, INITIAL.pc + 1, "incorrect program counter");
    assert_eq!(result.tsc, INITIAL.tsc + 4, "incorrect time stamp counter");
    assert_eq!(
        result.reg[REG_A], 0x12,
        "incorrect value in reg_a (expected 0x{:X} got 0x{:X})",
        0x12, result.reg[REG_A]
    );
    assert_eq!(
        result.reg[FLAGS], 0x00,
        "incorrect flags (expected 0x{:X} got 0x{:X})",
        0x00, result.reg[FLAGS]
    );
}

#[test]
fn test_xor_r() {
    let INITIAL: CPUState = CPUState::new();
    let result = xor_r(INITIAL, REG_A);
    assert_eq!(result.reg[REG_A], 0x00);
    assert_eq!(result.reg[FLAGS], 0x80);
}

#[test]
fn test_xor_bc() {
    let INITIAL: CPUState = CPUState::new();
    let state = CPUState {
        reg: [0xCD, 0x11, 0, 0, 0, 0, 0x80, 0x01],
        ..INITIAL
    };
    assert_eq!(xor_r(state, REG_B).reg[REG_A], 0xCC);
    assert_eq!(xor_r(state, REG_C).reg[REG_A], 0x10);
}

#[test]
fn test_xor_d8() {
    let INITIAL: CPUState = CPUState::new();
    let result = xor_d8(INITIAL, 0xFF);
    assert_eq!(result.pc, INITIAL.pc + 2, "incorrect program counter");
    assert_eq!(result.tsc, INITIAL.tsc + 8, "incorrect time stamp counter");
    assert_eq!(result.reg[REG_A], 0xFE, "incorrect xor value in reg a");
}

#[test]
fn test_ld_r_r() {
    let INITIAL: CPUState = CPUState::new();
    for op in 0x40..0x80 {
        if op & 0x0F == 0x06 || op & 0x0F == 0x0E || op & 0xF0 == 0x70 {
            continue;
        }
        let dst_idx = ((op - 0x40) / 0x08) as usize;
        let src_idx = (op % 0x08) as usize;
        assert_eq!(ld_r_r(INITIAL, op).reg[dst_idx], INITIAL.reg[src_idx]);
    }
}

#[test]
fn test_ld_r_d8() {
    let INITIAL: CPUState = CPUState::new();
    assert_eq!(ld_b_d8(INITIAL, 0xAF).reg[REG_B], 0xAF);
    assert_eq!(ld_c_d8(INITIAL, 0xAF).reg[REG_C], 0xAF);
    assert_eq!(ld_d_d8(INITIAL, 0xAF).reg[REG_D], 0xAF);
    assert_eq!(ld_e_d8(INITIAL, 0xAF).reg[REG_E], 0xAF);
    assert_eq!(ld_h_d8(INITIAL, 0xAF).reg[REG_H], 0xAF);
    assert_eq!(ld_l_d8(INITIAL, 0xAF).reg[REG_L], 0xAF);
    assert_eq!(ld_a_d8(INITIAL, 0xAF).reg[REG_A], 0xAF);
}

#[test]
fn test_ld_rr_d16() {
    let INITIAL: CPUState = CPUState::new();
    assert_eq!(ld_bc_d16(INITIAL, 0xEF, 0xBE).reg[REG_B], 0xBE);
    assert_eq!(ld_bc_d16(INITIAL, 0xEF, 0xBE).reg[REG_C], 0xEF);
    assert_eq!(ld_de_d16(INITIAL, 0xAD, 0xDE).reg[REG_D], 0xDE);
    assert_eq!(ld_de_d16(INITIAL, 0xAD, 0xDE).reg[REG_E], 0xAD);
    assert_eq!(ld_hl_d16(INITIAL, 0xCE, 0xFA).reg[REG_H], 0xFA);
    assert_eq!(ld_hl_d16(INITIAL, 0xCE, 0xFA).reg[REG_L], 0xCE);
    assert_eq!(ld_sp_d16(INITIAL, 0xED, 0xFE).sp, 0xFEED);
}

#[test]
fn test_add() {
    let INITIAL: CPUState = CPUState::new();
    // reg a inits to 0x01
    assert_eq!(
        impl_add_sub(INITIAL, 0xFF, 0).reg[REG_A],
        0x00,
        "failed 0xff"
    );
    assert_eq!(
        impl_add_sub(INITIAL, 0xFF, 0).reg[FLAGS],
        FL_Z | FL_H | FL_C,
        "failed 0xff flags"
    );

    assert_eq!(
        impl_add_sub(INITIAL, 0x0F, 0).reg[REG_A],
        0x10,
        "failed 0x0f"
    );
    assert_eq!(
        impl_add_sub(INITIAL, 0x0F, 0).reg[FLAGS],
        FL_H,
        "failed 0x0f flags"
    );

    assert_eq!(
        impl_add_sub(INITIAL, 0x01, 0).reg[REG_A],
        0x02,
        "failed 0x01"
    );
    assert_eq!(
        impl_add_sub(INITIAL, 0x01, 0).reg[FLAGS],
        0x00,
        "failed 0x01 flags"
    );
}

#[test]
fn test_add_hl_rr() {
    let INITIAL: CPUState = CPUState::new();
    assert_eq!(
        add_hl_bc(INITIAL).HL(),
        INITIAL.HL().overflowing_add(INITIAL.BC()).0
    );
    assert_eq!(
        add_hl_de(INITIAL).HL(),
        INITIAL.HL().overflowing_add(INITIAL.DE()).0
    );
    assert_eq!(
        add_hl_hl(INITIAL).HL(),
        INITIAL.HL().overflowing_add(INITIAL.HL()).0
    );
    assert_eq!(
        add_hl_sp(INITIAL).HL(),
        INITIAL.HL().overflowing_add(INITIAL.sp).0
    );
}

#[test]
fn test_add_HL() {
    let INITIAL: CPUState = CPUState::new();
    let mut mem = Memory::new();
    let cpu = CPUState {
        reg: [0, 0, 0, 0, 0, 0x01, 0, 0x01],
        ..INITIAL
    };
    mem.write(cpu.HL(), 0x0F);
    assert_eq!(add_HL(cpu, &mem).reg[REG_A], 0x10);
    assert_eq!(add_HL(cpu, &mem).reg[FLAGS], FL_H);
}

#[test]
fn test_inc_HL() {
    let INITIAL: CPUState = CPUState::new();
    let mut mem = Memory::new();
    let mut cpu = CPUState {
        reg: [0, 0, 0, 0, 0, 0x01, FL_Z | FL_N | FL_H | FL_C, 0x01],
        ..INITIAL
    };

    let initial: Byte = 0x0E;
    mem.write(cpu.HL(), initial);
    cpu = inc_HL(cpu, &mut mem);

    assert_eq!(mem.read(cpu.HL()), initial + 1);
    assert_eq!(cpu.reg[FLAGS], FL_C); // FL_C remains untouched by this operation

    // increment again, this time 0x0F should half-carry into 0x10
    cpu = inc_HL(cpu, &mut mem);
    assert_eq!(mem.read(cpu.HL()), initial + 2);
    assert_eq!(cpu.reg[FLAGS], FL_H | FL_C); // FL_H from half-carry

    // reset value to 0xFF, confirm we get a FL_Z flag on overflow
    mem.write(cpu.HL(), 0xFF);
    cpu = inc_HL(cpu, &mut mem);
    assert_eq!(mem.read(cpu.HL()), 0);
    assert_eq!(cpu.reg[FLAGS], FL_Z | FL_H | FL_C);
}

#[test]
fn test_call_d16() {
    let INITIAL: CPUState = CPUState::new();
    let mut mem = Memory::new();
    let result = call_d16(0x01, 0x02, INITIAL, &mut mem);
    assert_eq!(
        mem.read(INITIAL.sp - 0),
        hi(INITIAL.adv_pc(3).pc),
        "failed high check"
    );
    assert_eq!(
        mem.read(INITIAL.sp - 1),
        lo(INITIAL.adv_pc(3).pc),
        "failed low check"
    );
    assert_eq!(result.pc, 0x0201, "failed sp check")
}

#[test]
fn test_inc_dec() {
    let INITIAL: CPUState = CPUState::new();
    let cpu = CPUState {
        //    B     C     D     E     H     L     fl    A
        reg: [0x0F, 0xFF, 0x0E, 0x00, 0x02, 0x03, FL_C, 0x01],
        ..INITIAL
    };
    assert_eq!(inc_b(cpu).reg[REG_B], 0x10);
    assert_eq!(inc_b(cpu).reg[FLAGS], FL_H | FL_C);
    assert_eq!(dec_b(cpu).reg[REG_B], 0x0E);
    assert_eq!(dec_b(cpu).reg[FLAGS], FL_N | FL_C);
    assert_eq!(inc_c(cpu).reg[REG_C], 0x00);
    assert_eq!(inc_c(cpu).reg[FLAGS], FL_Z | FL_H | FL_C);
    assert_eq!(dec_c(cpu).reg[REG_C], 0xFE);
    assert_eq!(dec_c(cpu).reg[FLAGS], FL_N | FL_C);
    assert_eq!(inc_d(cpu).reg[REG_D], 0x0F);
    assert_eq!(inc_d(cpu).reg[FLAGS], FL_C);
    assert_eq!(dec_d(cpu).reg[REG_D], 0x0D);
    assert_eq!(dec_d(cpu).reg[FLAGS], FL_N | FL_C);
    assert_eq!(inc_e(cpu).reg[REG_E], 0x01);
    assert_eq!(inc_e(cpu).reg[FLAGS], FL_C);
    assert_eq!(dec_e(cpu).reg[REG_E], 0xFF);
    assert_eq!(dec_e(cpu).reg[FLAGS], FL_N | FL_H | FL_C);
    assert_eq!(inc_h(cpu).reg[REG_H], 0x03);
    assert_eq!(inc_h(cpu).reg[FLAGS], FL_C);
    assert_eq!(dec_h(cpu).reg[REG_H], 0x01);
    assert_eq!(dec_h(cpu).reg[FLAGS], FL_N | FL_C);
    assert_eq!(inc_l(cpu).reg[REG_L], 0x04);
    assert_eq!(inc_l(cpu).reg[FLAGS], FL_C);
    assert_eq!(dec_l(cpu).reg[REG_L], 0x02);
    assert_eq!(dec_l(cpu).reg[FLAGS], FL_N | FL_C);
    assert_eq!(inc_a(cpu).reg[REG_A], 0x02);
    assert_eq!(inc_a(cpu).reg[FLAGS], FL_C);
    assert_eq!(dec_a(cpu).reg[REG_A], 0x00);
    assert_eq!(dec_a(cpu).reg[FLAGS], FL_Z | FL_N | FL_C);
}

#[test]
fn test_cp() {
    let INITIAL: CPUState = CPUState::new();
    let cpu = CPUState {
        //    B     C     D     E     H     L     fl    A
        reg: [0x00, 0x01, 0x02, 0x03, 0x11, 0x12, FL_C, 0x11],
        ..INITIAL
    };
    let mut mem = Memory::new();
    mem.write(cpu.HL(), cpu.reg[REG_L]);

    assert_eq!(
        cp_r(cpu, REG_B).reg[FLAGS],
        FL_N,
        "flags: expected {}, actual {}",
        str_flags(FL_N),
        str_flags(cp_r(cpu, REG_B).reg[FLAGS])
    );
    assert_eq!(
        cp_r(cpu, REG_C).reg[FLAGS],
        FL_N,
        "flags: expected {}, actual {}",
        str_flags(FL_N),
        str_flags(cp_r(cpu, REG_C).reg[FLAGS])
    );
    assert_eq!(
        cp_r(cpu, REG_D).reg[FLAGS],
        FL_N | FL_H,
        "flags: expected {}, actual {}",
        str_flags(FL_N | FL_H),
        str_flags(cp_r(cpu, REG_D).reg[FLAGS])
    );
    assert_eq!(
        cp_r(cpu, REG_E).reg[FLAGS],
        FL_N | FL_H,
        "flags: expected {}, actual {}",
        str_flags(FL_N | FL_H),
        str_flags(cp_r(cpu, REG_E).reg[FLAGS])
    );
    assert_eq!(
        cp_r(cpu, REG_H).reg[FLAGS],
        FL_Z | FL_N,
        "flags: expected {}, actual {}",
        str_flags(FL_Z | FL_N),
        str_flags(cp_r(cpu, REG_H).reg[FLAGS])
    );
    assert_eq!(
        cp_r(cpu, REG_L).reg[FLAGS],
        FL_N | FL_H | FL_C,
        "flags: expected {}, actual {}",
        str_flags(FL_N | FL_H | FL_C),
        str_flags(cp_r(cpu, REG_L).reg[FLAGS])
    );
    assert_eq!(
        cp_r(cpu, REG_A).reg[FLAGS],
        FL_Z | FL_N,
        "flags: expected {}, actual {}",
        str_flags(FL_Z | FL_N),
        str_flags(cp_r(cpu, REG_A).reg[FLAGS])
    );

    assert_eq!(
        cp_d8(cpu, 0x12).reg[FLAGS],
        FL_N | FL_H | FL_C,
        "flags: expected {}, actual {}",
        str_flags(FL_N | FL_H | FL_C),
        str_flags(cp_d8(cpu, 0x12).reg[FLAGS])
    );
    assert_eq!(
        cp_HL(cpu, &mem).reg[FLAGS],
        FL_N | FL_H | FL_C,
        "flags: expected {}, actual {}",
        str_flags(FL_N | FL_H | FL_C),
        str_flags(cp_HL(cpu, &mem).reg[FLAGS])
    );
}

#[test]
fn test_sub() {
    let INITIAL: CPUState = CPUState::new();
    let cpu = CPUState {
        //    B     C     D     E     H     L     fl    A
        reg: [0x00, 0x01, 0x02, 0x03, 0x11, 0x12, FL_C, 0x11],
        ..INITIAL
    };
    assert_eq!(sub_r(cpu, REG_B).reg[REG_A], 0x11);
    assert_eq!(sub_r(cpu, REG_C).reg[REG_A], 0x10);
    assert_eq!(sub_r(cpu, REG_D).reg[REG_A], 0x0F);
    let result = sub_r(cpu, REG_D).reg[FLAGS];
    assert_eq!(
        result,
        FL_N | FL_H,
        "expected {}, got {}",
        str_flags(FL_N | FL_H),
        str_flags(result)
    );
    assert_eq!(sub_r(cpu, REG_E).reg[REG_A], 0x0E);
    assert_eq!(sub_r(cpu, REG_H).reg[REG_A], 0x00);
    assert_eq!(sub_r(cpu, REG_H).reg[FLAGS], FL_Z | FL_N);
    assert_eq!(sub_r(cpu, REG_L).reg[REG_A], 0xFF);
    assert_eq!(sub_r(cpu, REG_L).reg[FLAGS], FL_N | FL_H | FL_C);
}

#[test]
fn test_inc16() {
    let INITIAL: CPUState = CPUState::new();
    let cpu = CPUState {
        //    B     C     D     E     H     L     fl    A
        reg: [0x00, 0x01, 0x02, 0x03, 0x11, 0xFF, FL_C, 0x11],
        sp: 0x00FF,
        ..INITIAL
    };
    assert_eq!(inc_bc(cpu).reg[REG_B], 0x00);
    assert_eq!(inc_bc(cpu).reg[REG_C], 0x02);
    assert_eq!(inc_de(cpu).reg[REG_D], 0x02);
    assert_eq!(inc_de(cpu).reg[REG_E], 0x04);
    assert_eq!(inc_hl(cpu).reg[REG_H], 0x12);
    assert_eq!(inc_hl(cpu).reg[REG_L], 0x00);
    assert_eq!(inc_sp(cpu).sp, ROM_ENTRY);
}

#[test]
fn test_jp() {
    let INITIAL: CPUState = CPUState::new();
    let cpu_c = CPUState {
        //    B     C     D     E     H     L     fl    A
        reg: [0x00, 0x01, 0x02, 0x03, 0x11, 0xFF, FL_C, 0x11],
        pc: 0xFF,
        ..INITIAL
    };
    let cpu_z = CPUState {
        //    B     C     D     E     H     L     fl    A
        reg: [0x00, 0x01, 0x02, 0x03, 0x11, 0xFF, FL_Z, 0x11],
        ..cpu_c
    };

    assert_eq!(jp_d16(cpu_c, 0x03, 0x02).pc, 0x0203);
    assert_eq!(jp_d16(cpu_c, 0x03, 0x02).tsc, 16);
    assert_eq!(jr_z_r8(cpu_z, 1).pc, cpu_z.adv_pc(2).pc + 1);
    assert_eq!(jr_z_r8(cpu_z, -0xF).pc, cpu_z.adv_pc(2).pc - 0xF);
    assert_eq!(jr_z_r8(cpu_c, 1).pc, cpu_c.adv_pc(2).pc);
    assert_eq!(jr_nz_r8(cpu_c, 1).pc, cpu_c.adv_pc(2).pc + 1);
    assert_eq!(jr_nz_r8(cpu_z, 1).pc, cpu_z.adv_pc(2).pc);
    assert_eq!(jr_nz_r8(cpu_z, 1).tsc, cpu_z.tsc + 8);

    assert_eq!(jr_c_r8(cpu_c, 1).pc, cpu_c.adv_pc(2).pc + 1);
    assert_eq!(jr_c_r8(cpu_z, 1).pc, cpu_z.adv_pc(2).pc);
    assert_eq!(jr_c_r8(cpu_c, 1).tsc, cpu_c.tsc + 12);
    assert_eq!(jr_c_r8(cpu_z, 1).tsc, cpu_z.tsc + 8);

    assert_eq!(jr_nc_r8(cpu_c, 1).pc, cpu_c.adv_pc(2).pc);
    assert_eq!(jr_nc_r8(cpu_z, 1).pc, cpu_z.adv_pc(2).pc + 1);
    assert_eq!(jr_nc_r8(cpu_c, 1).tsc, cpu_c.tsc + 8);
    assert_eq!(jr_nc_r8(cpu_z, 1).tsc, cpu_z.tsc + 12);
}

#[test]
fn test_ld_HL_d8() {
    let INITIAL: CPUState = CPUState::new();
    let cpu = CPUState {
        //    B     C     D     E     H     L     fl    A
        reg: [0x00, 0x01, 0x02, 0x03, 0x11, 0xFF, FL_C, 0xAA],
        ..INITIAL
    };
    let mut mem = Memory::new();
    impl_ld_HL_d8(cpu, &mut mem, 0x22);
    assert_eq!(mem.read(cpu.HL()), 0x22);
}

#[test]
fn test_ldi() {
    let INITIAL: CPUState = CPUState::new();
    let cpu = CPUState {
        //    B     C     D     E     H     L     fl    A
        reg: [0x00, 0x01, 0x02, 0x03, 0x11, 0x22, FL_C, 0xAA],
        ..INITIAL
    };
    let mut mem = Memory::new();
    mem.write(cpu.HL(), 0x0F);
    assert_eq!(ldi_HL_a(cpu, &mut mem).reg[REG_H], cpu.reg[REG_H]);
    assert_eq!(ldi_HL_a(cpu, &mut mem).reg[REG_L], cpu.reg[REG_L] + 1);
    assert_eq!(mem.read(cpu.HL()), cpu.reg[REG_A]);
}

#[test]
fn test_ldd() {
    let INITIAL: CPUState = CPUState::new();
    let cpu = CPUState {
        //    B     C     D     E     H     L     fl    A
        reg: [0x00, 0x01, 0x02, 0x03, 0x11, 0x22, FL_C, 0xAA],
        ..INITIAL
    };
    let mut mem = Memory::new();
    mem.write(cpu.HL(), 0x0F);
    assert_eq!(ldd_HL_a(cpu, &mut mem).reg[REG_H], cpu.reg[REG_H]);
    assert_eq!(ldd_HL_a(cpu, &mut mem).reg[REG_L], cpu.reg[REG_L] - 1);
    assert_eq!(mem.read(cpu.HL()), cpu.reg[REG_A]);
}

#[test]
fn test_push() {
    let INITIAL: CPUState = CPUState::new();
    let cpu = CPUState {
        //    B     C     D     E     H     L     fl    A
        reg: [0x00, 0x01, 0x02, 0x03, 0x11, 0xFF, FL_C, 0xAA],
        ..INITIAL
    };
    let mut mem = Memory::new();
    assert_eq!(push_bc(cpu, &mut mem).sp, cpu.sp - 2);
    assert_eq!(mem.read(cpu.sp - 2), cpu.reg[REG_B]);
    assert_eq!(mem.read(cpu.sp - 1), cpu.reg[REG_C]);
}

#[test]
fn test_pop() {
    let INITIAL: CPUState = CPUState::new();
    let cpu = CPUState {
        sp: 0xDEAD,
        ..INITIAL
    };

    let mut mem = Memory::new();
    mem.write(0xDEAD + 1, 0xAD);
    mem.write(0xDEAD + 2, 0xDE);

    assert_eq!(pop_bc(cpu, &mem).sp, cpu.sp + 2);
    assert_eq!(pop_bc(cpu, &mem).reg[REG_B], 0xDE);
    assert_eq!(pop_bc(cpu, &mem).reg[REG_C], 0xAD);
}

#[test]
fn test_ret() {
    let INITIAL: CPUState = CPUState::new();
    let cpu = CPUState {
        //    B     C     D     E     H     L     fl    A
        reg: [0x00, 0xCC, 0x02, 0x03, 0x11, 0xFF, FL_C, 0xAA],
        sp: 0xFFFC,
        ..INITIAL
    };
    let mut mem = Memory::new();
    mem.write(0xFFFE, 0xBE);
    mem.write(0xFFFD, 0xEF);
    assert_eq!(ret(cpu, &mem).pc, 0xBEEF);
    assert_eq!(ret(cpu, &mem).sp, 0xFFFE);
}

#[test]
fn test_16b_loads() {
    let INITIAL: CPUState = CPUState::new();
    let cpu = CPUState {
        //    B     C     D     E     H     L     fl    A
        reg: [0xBB, 0xCC, 0xDD, 0xEE, 0x11, 0x22, FL_C, 0xAA],
        ..INITIAL
    };
    let mut mem = Memory::new();
    mem.write(0xBBCC, 0xAB);
    mem.write(0xDDEE, 0xAD);
    assert_eq!(ld_a_BC(cpu, &mem).reg[REG_A], mem.read(0xBBCC));
    assert_eq!(ld_a_DE(cpu, &mem).reg[REG_A], mem.read(0xDDEE));

    ld_BC_a(cpu, &mut mem);
    assert_eq!(mem.read(0xBBCC), 0xAA);

    ld_DE_a(cpu, &mut mem);
    assert_eq!(mem.read(0xDDEE), 0xAA);

    ld_A16_a(0xCE, 0xFA, cpu, &mut mem);
    assert_eq!(mem.read(0xFACE), 0xAA);
}

#[test]
fn test_FF00_offsets() {
    let INITIAL: CPUState = CPUState::new();
    let cpu = CPUState {
        //    B     C     D     E     H     L     fl    A
        reg: [0x00, 0xCC, 0x02, 0x03, 0x11, 0xFF, FL_C, 0xAA],
        ..INITIAL
    };
    let mut mem = Memory::new();
    mem.write(0xFF00, 0);
    mem.write(0xFF01, 1);
    mem.write(0xFF02, 2);
    mem.write(0xFF03, 3);
    mem.write(0xFFCC, 0xCC);
    assert_eq!(ld_a_FF00_A8(cpu, &mem, 0x02).reg[REG_A], 0x02);
    assert_eq!(ld_a_FF00_C(cpu, &mem).reg[REG_A], 0xCC);
    ld_FF00_A8_a(0x01, cpu, &mut mem);
    assert_eq!(mem.read(0xFF01), cpu.reg[REG_A]);

    ld_FF00_C_a(cpu, &mut mem);
    assert_eq!(mem.read(0xFFCC), cpu.reg[REG_A]);
}

#[test]
fn test_rotations() {
    let INITIAL: CPUState = CPUState::new();
    let cpu = CPUState {
        //    B     C     D     E     H     L     fl    A
        reg: [0x40, 0x40, 0x40, 0x40, 0x40, 0x40, 0, 0x80],
        ..INITIAL
    };
    // single rotation, store in carry if MSB is set
    assert_eq!(rlca(cpu).reg[REG_A], 0x01);
    assert_eq!(rlca(cpu).reg[FLAGS], FL_C);

    // single rotation through carry
    assert_eq!(rla(cpu).reg[REG_A], 0x00);
    assert_eq!(rla(cpu).reg[FLAGS], FL_C);

    // double rotation through carry, carry should shift back down
    assert_eq!(rla(rla(cpu)).reg[REG_A], 0x01);
    assert_eq!(rla(rla(cpu)).reg[FLAGS], 0x00);

    assert_eq!(rl_r(cpu, REG_B).reg[REG_B], 0x80);
    assert_eq!(rl_r(cpu, REG_C).reg[REG_C], 0x80);
    assert_eq!(rl_r(cpu, REG_D).reg[REG_D], 0x80);
    assert_eq!(rl_r(cpu, REG_E).reg[REG_E], 0x80);
    assert_eq!(rl_r(cpu, REG_H).reg[REG_H], 0x80);
    assert_eq!(rl_r(cpu, REG_L).reg[REG_L], 0x80);
    assert_eq!(rl_r(cpu, REG_A).reg[REG_A], 0x00);
    assert_eq!(rl_r(cpu, REG_A).reg[FLAGS], FL_Z | FL_C);
    assert_eq!(rl_r(rl_r(cpu, REG_A), REG_A).reg[REG_A], 0x01);
}

#[test]
fn test_bit() {
    let INITIAL: CPUState = CPUState::new();
    let cpu = CPUState {
        //    B          C       D       E       H       L      fl     A
        reg: [1 << 0, 1 << 1, 1 << 2, 1 << 3, 1 << 4, 1 << 5, FL_C, 1 << 7],
        ..INITIAL
    };
    assert_eq!(bit_r(cpu, 7, REG_H).reg[FLAGS], FL_H | cpu.reg[FLAGS]);
    assert_eq!(set_r(cpu, 7, REG_H).reg[REG_H], cpu.reg[REG_H] | 0x80);
}

#[test]
fn test_timers() {
    let mut mem = Memory::new();
    mem.write(TIMA, 0);
    mem.write(TMA, 0);
    mem.write(TAC, 0);
    assert_eq!(tac_enabled(&mem), false);
    mem.write(TAC, 0b100); // (enabled, 1024 cycles per tick)
    assert_eq!(tac_enabled(&mem), true);

    let new_timers = update_clocks(HardwareTimers::new(), &mut mem, 1024);
    assert_eq!(new_timers.timer, 0);
    assert_eq!(mem.read(TIMA), 1);

    tima_reset(&mut mem);
    assert_eq!(mem.read(TIMA), 0);

    mem.write(TAC, 0b111); // (enabled, 256 cycles per tick)
    let new_timers = update_clocks(HardwareTimers::new(), &mut mem, 1024);
    assert_eq!(new_timers.timer, 0);
    assert_eq!(mem.read(TIMA), 4);

    mem.write(TMA, 0xFF);
    tima_reset(&mut mem);
    assert_eq!(mem.read(TIMA), mem.read(TMA));

    mem.write(TMA, 0xAA);
    assert_ne!(mem.read(IF), FL_INT_TIMER);
    let _even_newer_timers = update_clocks(new_timers, &mut mem, 256);
    // should have overflowed as we just set it to 0xFF moments ago
    assert_eq!(mem.read(TIMA), 0xAA);
    assert_eq!(mem.read(IF), FL_INT_TIMER);

}

#[test]
fn test_lcd() {
    let mut mem = Memory::new();
    set_lcd_mode(3, &mut mem);
    assert_eq!(lcd_mode(&mem), 3);
}

#[test]
fn test_impl_rlc_r() {
    let INITIAL: CPUState = CPUState::new();
    let cpu = CPUState {
        //    B     C     D     E     H     L     fl    A
        reg: [0x00, 0x01, 0x80, 0x03, 0x11, 0xFF, FL_C, 0xAA],
        ..INITIAL
    };

    let rot_b = rlc_r(cpu, REG_B);
    assert_eq!(rot_b.reg[REG_B], 0x00);
    assert_eq!(rot_b.reg[FLAGS], FL_Z);

    let rot_c = rlc_r(cpu, REG_C);
    assert_eq!(rot_c.reg[REG_C], 0x02);
    assert_eq!(rot_c.reg[FLAGS], 0x00);

    let rot_d = rlc_r(cpu, REG_D);
    assert_eq!(rot_d.reg[REG_D], 0x01);
    assert_eq!(rot_d.reg[FLAGS], FL_C);

    let rot_l = rlc_r(cpu, REG_L);
    assert_eq!(rot_l.reg[REG_L], 0xFF);
    assert_eq!(rot_l.reg[FLAGS], FL_C);
}
