//! Tests for the limits of the hardware, for callers that cannot prove that they respect them.
//!
//! Each public function decides the condition under which another one may be called.
use vstd::prelude::*;

use crate::bits::{bit_test, combine};
use crate::cpu::{
    CPUState, GB_SCREEN_HEIGHT, TICKS_PER_HBLANK, TICKS_PER_OAM_SEARCH, TICKS_PER_VRAM_IO,
};
use crate::decode::{x, y, z};
use crate::isa;
use crate::laws::display;
use crate::lcd;
use crate::lcd::{lcd_mode, Display, Lcd, Sprite, SPRITE_COUNT};
use crate::memory::{Memory, DMA, IE, IF, LCDC, LY};
use crate::types::{Byte, Word};

verus! {

/// Whether the condition holds that a digit names.
fn holds(cpu: &CPUState, cc: Byte) -> (r: bool)
    requires
        cc < 4,
    ensures
        r == isa::condition(cpu@, cc as int),
{
    match cc {
        0 => !cpu.zero(),
        1 => cpu.zero(),
        2 => !cpu.carry(),
        _ => cpu.carry(),
    }
}

/// The number of operand bytes that follow an opcode.
fn operand_count(op: Byte) -> (r: Word)
    ensures
        r == isa::operand_count(op as int),
{
    let (x, y, z) = (x(op), y(op), z(op));
    if x == 0 {
        if z == 0 {
            if y == 1 {
                2
            } else if y >= 3 {
                1
            } else {
                0
            }
        } else if z == 1 && y % 2 == 0 {
            2
        } else if z == 6 {
            1
        } else {
            0
        }
    } else if x == 3 {
        if (z == 0 && y >= 4) || z == 6 || (z == 3 && y == 1) {
            1
        } else if (z == 2 && (y < 4 || y % 2 == 1)) || (z == 3 && y == 0) || (z == 4 && y < 4) || (z
            == 5 && y == 1) {
            2
        } else {
            0
        }
    } else {
        0
    }
}

/// The number of bytes from an opcode to the next instruction.
fn length(op: Byte) -> (r: Word)
    ensures
        r == isa::length(op as int),
{
    if op == 0x10 {
        2
    } else {
        1 + operand_count(op)
    }
}

/// Whether an instruction goes on elsewhere and has no use for the address behind itself.
fn leaves(cpu: &CPUState, mem: &Memory, op: Byte) -> (r: bool)
    ensures
        r == isa::leaves(isa::state(cpu@, mem@), op as int),
{
    let (x, y, z) = (x(op), y(op), z(op));
    x == 3 && match z {
        0 => y < 4 && holds(cpu, y),
        1 => y % 2 == 1 && y < 7,
        2 => y < 4 && holds(cpu, y),
        3 => y == 0,
        _ => false,
    }
}

/// Whether an instruction pushes a word.
fn pushes_word(cpu: &CPUState, mem: &Memory, op: Byte) -> (r: bool)
    requires
        !isa::undefined(op as int),
    ensures
        r == isa::pushes_word(isa::state(cpu@, mem@), op as int),
{
    let (x, y, z) = (x(op), y(op), z(op));
    x == 3 && ((z == 4 && holds(cpu, y)) || z == 5 || z == 7)
}

/// Whether an instruction pops a word.
fn pops_word(cpu: &CPUState, mem: &Memory, op: Byte) -> (r: bool)
    ensures
        r == isa::pops_word(isa::state(cpu@, mem@), op as int),
{
    let (x, y, z) = (x(op), y(op), z(op));
    x == 3 && ((z == 0 && y < 4 && holds(cpu, y)) || (z == 1 && (y % 2 == 0 || y < 4)))
}

/// The number of cycles that an opcode from 00 to 3F takes.
fn cycles0(cpu: &CPUState, mem: &Memory, op: Byte) -> (r: u64)
    requires
        op < 0x40,
    ensures
        r == isa::cycles0(isa::state(cpu@, mem@), (op as int / 8) % 8, op as int % 8),
{
    let (y, z) = (y(op), z(op));
    match z {
        0 => match y {
            0 => 4,
            1 => 20,
            2 => 0,
            3 => 12,
            _ => if holds(cpu, y - 4) {
                12
            } else {
                8
            },
        },
        1 => if y % 2 == 0 {
            12
        } else {
            8
        },
        2 | 3 => 8,
        4 | 5 => if y == 6 {
            12
        } else {
            4
        },
        6 => if y == 6 {
            12
        } else {
            8
        },
        _ => 4,
    }
}

/// The number of cycles that an opcode from C0 to FF takes.
fn cycles3(cpu: &CPUState, mem: &Memory, op: Byte) -> (r: u64)
    requires
        op >= 0xC0,
        !isa::undefined(op as int),
        op == 0xCB ==> cpu.pc < 0xFFFF,
    ensures
        r == isa::cycles3(isa::state(cpu@, mem@), (op as int / 8) % 8, op as int % 8),
{
    let (y, z) = (y(op), z(op));
    match z {
        0 => if y < 4 {
            if holds(cpu, y) {
                20
            } else {
                8
            }
        } else if y == 5 {
            16
        } else {
            12
        },
        1 => if y % 2 == 0 {
            12
        } else if y < 4 {
            16
        } else if y == 5 {
            4
        } else {
            8
        },
        2 => if y < 4 {
            if holds(cpu, y) {
                16
            } else {
                12
            }
        } else if y % 2 == 0 {
            8
        } else {
            16
        },
        3 => if y == 0 {
            16
        } else if y == 1 {
            let op_cb: Byte = mem.read(cpu.pc + 1);
            if op_cb % 8 != 6 {
                8
            } else if op_cb / 64 == 1 {
                12
            } else {
                16
            }
        } else {
            4
        },
        4 => if holds(cpu, y) {
            24
        } else {
            12
        },
        5 => if y % 2 == 1 {
            24
        } else {
            16
        },
        6 => 8,
        _ => 16,
    }
}

/// The number of cycles that an instruction takes.
pub fn cycles(cpu: &CPUState, mem: &Memory, op: Byte) -> (r: u64)
    requires
        !isa::undefined(op as int),
        op == 0xCB ==> cpu.pc < 0xFFFF,
    ensures
        r == isa::cycles(isa::state(cpu@, mem@), op as int),
{
    if op < 0x40 {
        cycles0(cpu, mem, op)
    } else if op >= 0xC0 {
        cycles3(cpu, mem, op)
    } else if op != 0x76 && (z(op) == 6 || (op < 0x80 && y(op) == 6)) {
        8
    } else {
        4
    }
}

/// Whether `execute` can execute an instruction.
pub fn execute_fits(cpu: &CPUState, mem: &Memory, op: Byte) -> (r: bool)
    requires
        !isa::undefined(op as int),
    ensures
        r == isa::fits(isa::state(cpu@, mem@), op as int),
{
    if 0xFFFF - cpu.pc < operand_count(op) {
        return false;
    }
    if !leaves(cpu, mem, op) && 0xFFFF - cpu.pc < length(op) {
        return false;
    }
    if pushes_word(cpu, mem, op) && cpu.sp < 2 {
        return false;
    }
    if pops_word(cpu, mem, op) && cpu.sp > 0xFFFD {
        return false;
    }
    if op == 0x08 && combine(mem.read(cpu.pc + 2), mem.read(cpu.pc + 1)) == 0xFFFF {
        return false;
    }
    u64::MAX - cpu.tsc >= cycles(cpu, mem, op)
}

/// Whether an opcode stands for no instruction.
fn undefined(op: Byte) -> (r: bool)
    ensures
        r == isa::undefined(op as int),
{
    match op {
        0xD3 | 0xDB | 0xDD | 0xE3 | 0xE4 | 0xEB | 0xEC | 0xED | 0xF4 | 0xFC | 0xFD => true,
        _ => false,
    }
}

/// Whether the interrupt with the given number is both enabled and requested.
fn wanted(mem: &Memory, line: Byte) -> (r: bool)
    requires
        line < 5,
    ensures
        r == isa::wanted(mem@, line as int),
{
    bit_test(line, mem.read(IE)) && bit_test(line, mem.read(IF))
}

/// Whether `next` can take a step.
pub fn next_fits(cpu: &CPUState, mem: &Memory) -> (r: bool)
    ensures
        r == isa::step_fits(isa::state(cpu@, mem@)),
{
    if cpu.inst_count == u64::MAX || cpu.inst_ei > cpu.inst_count + 1 {
        return false;
    }
    let pending = wanted(mem, 0) || wanted(mem, 1) || wanted(mem, 2) || wanted(mem, 3) || wanted(
        mem,
        4,
    );
    let op: Byte = mem.read(cpu.pc);
    if cpu.ime && pending && cpu.inst_count + 1 - cpu.inst_ei > 1 {
        cpu.sp >= 2 && cpu.tsc <= u64::MAX - 20
    } else if cpu.halt && !pending {
        cpu.tsc <= u64::MAX - 4
    } else {
        let woken = CPUState { inst_count: cpu.inst_count + 1, halt: false, ..*cpu };
        assert(woken@ =~= isa::woken(isa::state(cpu@, mem@)).cpu);
        undefined(op) || execute_fits(&woken, mem, op)
    }
}

/// Whether `Memory::update` can carry out a pending transfer.
pub fn transfer_fits(mem: &Memory) -> (r: bool)
    ensures
        r == mem@.transfer_fits(),
{
    !mem.dma_req || mem.data[DMA as usize] < 0xFE
}

/// Whether the test for a sprite forms only bytes.
fn sprite_fits(sprite: &Sprite, mem: &Memory) -> (r: bool)
    requires
        sprite.idx < 128,
    ensures
        r == lcd::sprite_fits(mem@, sprite.idx as int),
{
    let height: Byte = if bit_test(2, mem[LCDC]) {
        16
    } else {
        8
    };
    sprite.x(mem) == 0 || (mem[LY] <= 239 && (sprite.y(mem) > mem[LY] + 16 || sprite.y(mem) <= 255
        - height))
}

/// Whether the test for every sprite forms only bytes.
fn sprites_fit(mem: &Memory) -> (r: bool)
    ensures
        r == (forall|n: int| 0 <= n < 40 ==> #[trigger] lcd::sprite_fits(mem@, n)),
{
    let mut n: Word = 0;
    while n < SPRITE_COUNT
        invariant
            0 <= n <= 40,
            forall|k: int| 0 <= k < n ==> #[trigger] lcd::sprite_fits(mem@, k),
        decreases 40 - n,
    {
        if !sprite_fits(&Sprite { idx: n }, mem) {
            assert(!lcd::sprite_fits(mem@, n as int));
            return false;
        }
        n += 1;
    }
    true
}

/// Whether `Display::update` can let `dt` cycles pass.
pub fn refresh_fits(screen: &Display, mem: &Memory, dt: u64) -> (r: bool)
    ensures
        r == lcd::refresh_fits((Lcd { screen: screen@, mem: mem@ }), dt as int),
{
    proof {
        display::law_compared(mem@);
        assert forall|n: int|
            #![trigger lcd::sprite_fits(mem@, n)]
            #![trigger lcd::sprite_fits(lcd::line_compared(mem@), n)]
            0 <= n < 40 implies lcd::sprite_fits(mem@, n) == lcd::sprite_fits(
            lcd::line_compared(mem@),
            n,
        ) by {}
    }
    if dt > u64::MAX - screen.lcd_timing {
        return false;
    }
    let timing: u64 = screen.lcd_timing + dt;
    let line: Byte = if screen.doctor {
        screen.doctor_LY
    } else {
        mem[LY]
    };
    let counter: Byte = if screen.doctor {
        screen.doctor_LY
    } else {
        mem.data[LY as usize]
    };
    match lcd_mode(mem) {
        2 => timing < TICKS_PER_OAM_SEARCH || sprites_fit(mem),
        3 => timing < TICKS_PER_VRAM_IO || line < GB_SCREEN_HEIGHT as Byte,
        0 => timing < TICKS_PER_HBLANK || counter < 255,
        _ => true,
    }
}

} // verus!
