//! The constants of the hardware, written out.
use vstd::prelude::*;

use crate::bits;
use crate::cpu;
use crate::cpu::Cpu;
use crate::dbg;
use crate::lcd;
use crate::memory;

verus! {

/// Addresses, vectors, sizes, weights of flags and lengths of time.
pub proof fn law_constants()
    ensures
        memory::MEM_BANK_00 == 0x0,
        memory::MEM_BANK_NN == 0x4000,
        memory::MEM_VRAM == 0x8000,
        memory::MEM_EXT == 0xA000,
        memory::MEM_WRAM_0 == 0xC000,
        memory::MEM_WRAM_1 == 0xD000,
        memory::MEM_ECHO == 0xE000,
        memory::MEM_OAM == 0xFE00,
        memory::MEM_NOT_USABLE == 0xFEA0,
        memory::MEM_IO_PORTS == 0xFF00,
        memory::MEM_HRAM == 0xFF80,
        memory::VEC_RST_00 == 0x0,
        memory::VEC_RST_08 == 0x8,
        memory::VEC_RST_10 == 0x10,
        memory::VEC_RST_18 == 0x18,
        memory::VEC_RST_20 == 0x20,
        memory::VEC_RST_28 == 0x28,
        memory::VEC_RST_30 == 0x30,
        memory::VEC_RST_38 == 0x38,
        memory::VEC_INT_VBLANK == 0x40,
        memory::VEC_INT_STAT == 0x48,
        memory::VEC_INT_TIMER == 0x50,
        memory::VEC_INT_SERIAL == 0x58,
        memory::VEC_INT_JOYPAD == 0x60,
        memory::JOYP == 0xFF00,
        memory::SB == 0xFF01,
        memory::SC == 0xFF02,
        memory::DIV == 0xFF04,
        memory::TIMA == 0xFF05,
        memory::TMA == 0xFF06,
        memory::TAC == 0xFF07,
        memory::NR10 == 0xFF10,
        memory::NR11 == 0xFF11,
        memory::NR12 == 0xFF12,
        memory::NR14 == 0xFF14,
        memory::NR21 == 0xFF16,
        memory::NR22 == 0xFF17,
        memory::NR24 == 0xFF19,
        memory::NR30 == 0xFF1A,
        memory::NR31 == 0xFF1B,
        memory::NR32 == 0xFF1C,
        memory::NR33 == 0xFF1E,
        memory::NR41 == 0xFF20,
        memory::NR42 == 0xFF21,
        memory::NR43 == 0xFF22,
        memory::NR44 == 0xFF23,
        memory::NR50 == 0xFF24,
        memory::NR51 == 0xFF25,
        memory::NR52 == 0xFF26,
        memory::LCDC == 0xFF40,
        memory::STAT == 0xFF41,
        memory::SCY == 0xFF42,
        memory::SCX == 0xFF43,
        memory::LY == 0xFF44,
        memory::LYC == 0xFF45,
        memory::DMA == 0xFF46,
        memory::BGP == 0xFF47,
        memory::OBP0 == 0xFF48,
        memory::OBP1 == 0xFF49,
        memory::WY == 0xFF4A,
        memory::WX == 0xFF4B,
        memory::IF == 0xFF0F,
        memory::IE == 0xFFFF,
        memory::KB == 0x400,
        memory::CART_SIZE_MAX == 0x200000,
        memory::MEM_SIZE == 0x10000,
        memory::BANK_SIZE == 0x4000,
        memory::ROM_ENTRY == 0x100,
        memory::ROM_LOGO == 0x104,
        memory::ROM_TITLE == 0x134,
        memory::ROM_TITLE_END == 0x144,
        memory::ROM_MFR_CODE == 0x13F,
        memory::ROM_SGB == 0x146,
        memory::ROM_TYPE == 0x147,
        memory::ROM_SIZE == 0x148,
        memory::ROM_RAM_SIZE == 0x149,
        memory::ROM_DESTINATION == 0x14A,
        cpu::REG_B == 0x0,
        cpu::REG_C == 0x1,
        cpu::REG_D == 0x2,
        cpu::REG_E == 0x3,
        cpu::REG_H == 0x4,
        cpu::REG_L == 0x5,
        cpu::FLAGS == 0x6,
        cpu::REG_A == 0x7,
        cpu::FL_Z == 0x80,
        cpu::FL_N == 0x40,
        cpu::FL_H == 0x20,
        cpu::FL_C == 0x10,
        cpu::GB_SCREEN_WIDTH == 0xA0,
        cpu::GB_SCREEN_HEIGHT == 0x90,
        cpu::TICKS_PER_OAM_SEARCH == 0x50,
        cpu::TICKS_PER_VRAM_IO == 0xA8,
        cpu::TICKS_PER_HBLANK == 0xD0,
        cpu::TICKS_PER_SCANLINE == 0x1C8,
        cpu::TICKS_PER_VBLANK == 0x11D0,
        cpu::TICKS_PER_DIV_INC == 0x100,
        cpu::BYTES_PER_TILE == 0x10,
        cpu::FL_INT_VBLANK == 0x1,
        cpu::FL_INT_STAT == 0x2,
        cpu::FL_INT_TIMER == 0x4,
        cpu::FL_INT_SERIAL == 0x8,
        cpu::FL_INT_JOYPAD == 0x10,
        lcd::SPRITE_NOT_HIT == 0xFF,
{
}

/// The shades of the three palettes, from the lightest to the darkest.
pub proof fn law_palettes()
    ensures
        cpu::PAL_CLASSIC@ == seq![0xE0F8D0u32, 0x88C070, 0x346856, 0x081820],
        cpu::PAL_ICE_CREAM@ == seq![0xFFF6D3u32, 0xF9A875, 0xEB6B6F, 0x7C3F58],
        cpu::PAL_VBOY@ == seq![0xEF0000u32, 0xA40000, 0x550000, 0x000000],
{
}

/// A register pair is a word whose high byte is the register that is named first.
pub proof fn law_register_pairs(cpu: Cpu)
    requires
        cpu.reg.len() == 8,
    ensures
        cpu.bc() == 256 * cpu.reg[0] + cpu.reg[1],
        cpu.de() == 256 * cpu.reg[2] + cpu.reg[3],
        cpu.hl() == 256 * cpu.reg[4] + cpu.reg[5],
        cpu.af() == 256 * cpu.reg[7] + cpu.reg[6],
{
}

/// The two's complement of a byte: the upper half counts down from zero.
pub proof fn law_signed(v: u8)
    ensures
        v < 128 ==> bits::signed_value(v) == v,
        v >= 128 ==> bits::signed_value(v) + 256 == v,
{
}

/// The names of the interrupts at 40, 48, 50, 58 and 60.
pub proof fn law_interrupt_names()
    ensures
        dbg::interrupt_name((0x40 - 0x40) / 8) == "VBLANK"@,
        dbg::interrupt_name((0x48 - 0x40) / 8) == "STAT"@,
        dbg::interrupt_name((0x50 - 0x40) / 8) == "TIMER"@,
        dbg::interrupt_name((0x58 - 0x40) / 8) == "SERIAL"@,
        dbg::interrupt_name((0x60 - 0x40) / 8) == "JOYPAD"@,
{
}

} // verus!
