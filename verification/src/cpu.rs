//! The processor: its state, its clocks, and the step that it takes.
use vstd::prelude::*;
use vstd::string::StringExecFns;

use crate::bits;
use crate::bits::{bit_test, combine};
use crate::control::jump_to_int_vec;
pub use crate::control::request_interrupt;
use crate::decode::decode;
use crate::dispatch::execute;
use crate::isa;
use crate::memory::{
    Memory, Ram, DIV, IE, IF, ROM_ENTRY, TAC, TIMA, TMA, VEC_INT_JOYPAD, VEC_INT_SERIAL,
    VEC_INT_STAT, VEC_INT_TIMER, VEC_INT_VBLANK,
};
use crate::text;
use crate::text::{digits_text, join3};
use crate::types::{Byte, Word};

verus! {

// indices
pub const REG_B: usize = 0;

pub const REG_C: usize = 1;

pub const REG_D: usize = 2;

pub const REG_E: usize = 3;

pub const REG_H: usize = 4;

pub const REG_L: usize = 5;

pub const FLAGS: usize = 6;

pub const REG_A: usize = 7;

// cpu flags
pub const FL_Z: Byte = 128;

pub const FL_N: Byte = 64;

pub const FL_H: Byte = 32;

pub const FL_C: Byte = 16;

pub const GB_SCREEN_WIDTH: usize = 160;

pub const GB_SCREEN_HEIGHT: usize = 144;

// classic gameboy only has four shades, white (00), light (01), dark (10), black (11)
pub const PAL_CLASSIC: [u32; 4] = [0xE0F8D0, 0x88C070, 0x346856, 0x081820];

pub const PAL_ICE_CREAM: [u32; 4] = [0xFFF6D3, 0xF9A875, 0xEB6B6F, 0x7C3F58];

pub const PAL_VBOY: [u32; 4] = [0xEF0000, 0xA40000, 0x550000, 0x000000];

// https://gbdev.gg8.se/files/docs/mirrors/pandocs.html#lcdstatusregister
pub const TICKS_PER_OAM_SEARCH: u64 = 80;

pub const TICKS_PER_VRAM_IO: u64 = 168;

pub const TICKS_PER_HBLANK: u64 = 208;

pub const TICKS_PER_SCANLINE: u64 = TICKS_PER_OAM_SEARCH + TICKS_PER_VRAM_IO + TICKS_PER_HBLANK;

// 144 on screen + 10 additional lines
pub const TICKS_PER_VBLANK: u64 = TICKS_PER_SCANLINE * 10;

// 70224 cycles
pub const TICKS_PER_FRAME: u64 = (TICKS_PER_SCANLINE * 144) + TICKS_PER_VBLANK;

pub const TICKS_PER_DIV_INC: u64 = 256;

// tile constants
pub const BYTES_PER_TILE: u16 = 16;

// interrupt flags
pub const FL_INT_VBLANK: Byte = 1;

pub const FL_INT_STAT: Byte = 2;

pub const FL_INT_TIMER: Byte = 4;

pub const FL_INT_SERIAL: Byte = 8;

pub const FL_INT_JOYPAD: Byte = 16;

/// The shade, from 0 to 3, that a palette register gives to a color: two bits per color.
pub open spec fn shade(color: u8, plt: u8) -> int {
    if color % 4 == 0 {
        (plt % 4) as int
    } else if color % 4 == 1 {
        ((plt / 4) % 4) as int
    } else if color % 4 == 2 {
        ((plt / 16) % 4) as int
    } else {
        (plt / 64) as int
    }
}

/// The pixel for a color under a palette register, from a table of four shades.
pub fn palette_lookup(color: Byte, plt: Byte, lut: &[u32; 4]) -> (r: u32)
    ensures
        r == lut[shade(color, plt)],
{
    proof {
        lemma_palette(color, plt);
    }
    let idx: Byte = match color & 0b11 {
        // white
        0b00 => plt & 0b11,
        // light
        0b01 => (plt & (0b11 << 2)) >> 2,
        // dark
        0b10 => (plt & (0b11 << 4)) >> 4,
        // black
        _ => (plt & (0b11 << 6)) >> 6,
    };
    lut[idx as usize]
}

proof fn lemma_palette(color: u8, plt: u8)
    by (bit_vector)
    ensures
        color & 3 == color % 4,
        plt & 3 == plt % 4,
        (plt & (3u8 << 2)) >> 2 == (plt / 4) % 4,
        (plt & (3u8 << 4)) >> 4 == (plt / 16) % 4,
        (plt & (3u8 << 6)) >> 6 == plt / 64,
{
}

/// The processor's state as a value. Counters and addresses are unbounded, so an expression over
/// them says what a value would be whether or not the hardware can hold it.
#[verifier::ext_equal]
pub struct Cpu {
    pub tsc: int,
    pub inst_count: int,
    pub inst_ei: int,
    pub reg: Seq<u8>,
    pub sp: int,
    pub pc: int,
    pub ime: bool,
    pub halt: bool,
}

impl Cpu {
    /// Every register exists and every counter and address is one the hardware can hold.
    pub open spec fn wf(self) -> bool {
        &&& self.reg.len() == 8
        &&& 0 <= self.sp <= 0xFFFF
        &&& 0 <= self.pc <= 0xFFFF
        &&& 0 <= self.tsc <= u64::MAX
        &&& 0 <= self.inst_count <= u64::MAX
        &&& 0 <= self.inst_ei <= u64::MAX
    }

    /// The accumulator.
    pub open spec fn a(self) -> u8 {
        self.reg[REG_A as int]
    }

    /// The flag register.
    pub open spec fn f(self) -> u8 {
        self.reg[FLAGS as int]
    }

    /// The register pair BC.
    pub open spec fn bc(self) -> int {
        bits::word_of(self.reg[REG_B as int], self.reg[REG_C as int])
    }

    /// The register pair DE.
    pub open spec fn de(self) -> int {
        bits::word_of(self.reg[REG_D as int], self.reg[REG_E as int])
    }

    /// The register pair HL.
    pub open spec fn hl(self) -> int {
        bits::word_of(self.reg[REG_H as int], self.reg[REG_L as int])
    }

    /// The register pair AF.
    pub open spec fn af(self) -> int {
        bits::word_of(self.reg[REG_A as int], self.reg[FLAGS as int])
    }

    /// The zero flag.
    pub open spec fn zero(self) -> bool {
        bits::has_bit(self.f(), 7)
    }

    /// The subtraction flag.
    pub open spec fn subtract(self) -> bool {
        bits::has_bit(self.f(), 6)
    }

    /// The half carry flag.
    pub open spec fn half(self) -> bool {
        bits::has_bit(self.f(), 5)
    }

    /// The carry flag.
    pub open spec fn carry(self) -> bool {
        bits::has_bit(self.f(), 4)
    }

    /// The state with one register replaced.
    pub open spec fn set_reg(self, i: int, v: u8) -> Cpu {
        Cpu { reg: self.reg.update(i, v), ..self }
    }

    /// The state with the four flags replaced.
    pub open spec fn set_flags(self, z: bool, n: bool, h: bool, c: bool) -> Cpu {
        self.set_reg(FLAGS as int, bits::flag_byte(z, n, h, c))
    }

    /// The state with a pair of registers replaced by the two bytes of a word.
    pub open spec fn set_pair(self, high: int, low: int, w: int) -> Cpu {
        self.set_reg(high, bits::high_byte(w)).set_reg(low, bits::low_byte(w))
    }

    /// The state with the program counter moved on.
    pub open spec fn adv_pc(self, c: int) -> Cpu {
        Cpu { pc: self.pc + c, ..self }
    }

    /// The state with time passed.
    pub open spec fn tick(self, t: int) -> Cpu {
        Cpu { tsc: self.tsc + t, ..self }
    }

    /// The state with the program counter replaced.
    pub open spec fn jump(self, pc: int) -> Cpu {
        Cpu { pc, ..self }
    }
}

#[derive(Copy, Clone, Debug)]
pub struct CPUState {
    // ------------ meta, not part of actual gb hardware but useful
    /// cycles since reset
    pub tsc: u64,
    /// instructions since reset
    pub inst_count: u64,
    /// the instruction count when interrupts were last enabled
    pub inst_ei: u64,
    // ------------ hardware
    pub reg: [Byte; 8],
    pub sp: Word,
    pub pc: Word,
    /// true == interrupts enabled
    pub ime: bool,
    /// true == don't execute anything until interrupt
    pub halt: bool,
}

impl View for CPUState {
    type V = Cpu;

    open spec fn view(&self) -> Cpu {
        Cpu {
            tsc: self.tsc as int,
            inst_count: self.inst_count as int,
            inst_ei: self.inst_ei as int,
            reg: self.reg@,
            sp: self.sp as int,
            pc: self.pc as int,
            ime: self.ime,
            halt: self.halt,
        }
    }
}

impl CPUState {
    /// The state in which the hardware starts.
    pub fn new() -> (r: CPUState)
        ensures
            r@ == (Cpu {
                tsc: 0,
                inst_count: 0,
                inst_ei: 0,
                reg: seq![0x00u8, 0x13u8, 0x00u8, 0xD8u8, 0x01u8, 0x4Du8, 0xB0u8, 0x01u8],
                sp: 0xFFFE,
                pc: ROM_ENTRY as int,
                ime: false,
                halt: false,
            }),
    {
        CPUState {
            tsc: 0,
            inst_count: 0,
            inst_ei: 0,
            //    B     C     D     E     H     L     fl    A
            reg: [0x00, 0x13, 0x00, 0xD8, 0x01, 0x4D, 0xB0, 0x01],
            sp: 0xFFFE,
            pc: ROM_ENTRY,
            ime: false,
            halt: false,
        }
    }

    /// Combines the H and L registers, commonly for an address.
    pub fn HL(&self) -> (r: Word)
        ensures
            r == self@.hl(),
    {
        combine(self.reg[REG_H], self.reg[REG_L])
    }

    /// Combines the A and FLAG registers for 16b operations.
    pub fn AF(&self) -> (r: Word)
        ensures
            r == self@.af(),
    {
        combine(self.reg[REG_A], self.reg[FLAGS])
    }

    /// Combines the B and C registers for 16b operations.
    pub fn BC(&self) -> (r: Word)
        ensures
            r == self@.bc(),
    {
        combine(self.reg[REG_B], self.reg[REG_C])
    }

    /// Combines the D and E registers for 16b operations.
    pub fn DE(&self) -> (r: Word)
        ensures
            r == self@.de(),
    {
        combine(self.reg[REG_D], self.reg[REG_E])
    }

    /// The zero flag.
    pub fn zero(&self) -> (r: bool)
        ensures
            r == self@.zero(),
    {
        bit_test(7, self.reg[FLAGS])
    }

    /// The subtraction flag.
    pub fn subtract(&self) -> (r: bool)
        ensures
            r == self@.subtract(),
    {
        bit_test(6, self.reg[FLAGS])
    }

    /// The half carry flag.
    pub fn half(&self) -> (r: bool)
        ensures
            r == self@.half(),
    {
        bit_test(5, self.reg[FLAGS])
    }

    /// The carry flag.
    pub fn carry(&self) -> (r: bool)
        ensures
            r == self@.carry(),
    {
        bit_test(4, self.reg[FLAGS])
    }

    /// Advances the program counter.
    pub fn adv_pc(&self, c: Word) -> (r: CPUState)
        requires
            self.pc + c <= 0xFFFF,
        ensures
            r@ == self@.adv_pc(c as int),
    {
        CPUState { pc: self.pc + c, ..*self }
    }

    /// Adds time to the time stamp counter.
    pub fn tick(&self, t: u64) -> (r: CPUState)
        requires
            self.tsc + t <= u64::MAX,
        ensures
            r@ == self@.tick(t as int),
    {
        CPUState { tsc: self.tsc + t, ..*self }
    }
}

/// Cycles that have not yet advanced the timer and the divider.
pub struct HardwareTimers {
    pub timer: u64,
    pub divider: u64,
}

impl HardwareTimers {
    pub fn new() -> (r: HardwareTimers)
        ensures
            r.timer == 0,
            r.divider == 0,
    {
        HardwareTimers { timer: 0, divider: 0 }
    }
}

/// Whether the timer runs.
pub open spec fn timer_on(mem: Ram) -> bool {
    bits::has_bit(mem.read(TAC as int), 2)
}

/// The number of cycles after which the timer advances.
pub open spec fn timer_period(mem: Ram) -> int {
    let rate = mem.read(TAC as int) % 4;
    if rate == 0 {
        1024
    } else if rate == 1 {
        16
    } else if rate == 2 {
        64
    } else {
        256
    }
}

/// The value of the timer that stood at `v` and advanced `k` times. When it passes 255 it starts
/// over from `modulo`, again and again.
pub open spec fn timer_value(v: int, modulo: int, k: int) -> int {
    if v + k < 256 {
        v + k
    } else {
        modulo + (v + k - 256) % (256 - modulo)
    }
}

/// Memory after the timer advanced `k` times: the count, and an interrupt request if it passed 255.
pub open spec fn timer_advanced(mem: Ram, k: int) -> Ram {
    let v = mem.read(TIMA as int) as int;
    let counted = mem.write(
        TIMA as int,
        timer_value(v, mem.read(TMA as int) as int, k) as u8,
    );
    if v + k < 256 {
        counted
    } else {
        counted.write(IF as int, bits::with_bit(mem.read(IF as int), 2, true))
    }
}

/// Memory after the divider advanced `k` times.
pub open spec fn divider_advanced(mem: Ram, k: int) -> Ram {
    mem.write(DIV as int, ((mem.read(DIV as int) + k) % 256) as u8)
}

/// Memory after the given numbers of cycles were counted by the divider and by the timer.
pub open spec fn clocked(mem: Ram, divider: int, timer: int) -> Ram {
    let divided = divider_advanced(mem, divider / 256);
    if timer_on(mem) {
        timer_advanced(divided, timer / timer_period(mem))
    } else {
        divided
    }
}

/// Lets `cycles` pass for the divider and the timer.
pub fn update_clocks(state: HardwareTimers, mem: &mut Memory, cycles: u64) -> (r: HardwareTimers)
    requires
        state.timer + cycles <= u64::MAX,
        state.divider + cycles <= u64::MAX,
    ensures
        r.divider == (state.divider + cycles) % 256,
        r.timer == if timer_on(old(mem)@) {
            (state.timer + cycles) % timer_period(old(mem)@)
        } else {
            state.timer + cycles
        },
        final(mem)@ == clocked(old(mem)@, state.divider + cycles, state.timer + cycles),
{
    let mut result = HardwareTimers {
        timer: state.timer + cycles,
        divider: state.divider + cycles,
    };
    let ghost start = mem@;
    let ghost mut n: int = 0;
    proof {
        assert(divider_advanced(start, 0) =~= start);
    }
    while result.divider >= TICKS_PER_DIV_INC
        invariant
            start.wf(),
            mem@ == divider_advanced(start, n),
            n >= 0,
            result.divider + 256 * n == state.divider + cycles,
            result.timer == state.timer + cycles,
        decreases result.divider,
    {
        result.divider -= TICKS_PER_DIV_INC;
        mem_inc(mem, DIV);
        proof {
            n = n + 1;
            assert(mem@ =~= divider_advanced(start, n));
        }
    }
    assert(n == (state.divider + cycles) / 256);
    assert(mem@.read(TAC as int) == start.read(TAC as int));

    let tac_cpi: u64 = match tac_cycles_per_inc(mem) {
        Ok(result) => result,
        Err(_) => 0,
    };

    if tac_enabled(mem) {
        let ghost divided = mem@;
        let ghost mut k: int = 0;
        proof {
            assert(timer_advanced(divided, 0) =~= divided);
        }
        while result.timer >= tac_cpi
            invariant
                divided.wf(),
                tac_cpi > 0,
                mem@ == timer_advanced(divided, k),
                k >= 0,
                result.timer + tac_cpi * k == state.timer + cycles,
                result.divider == (state.divider + cycles) % 256,
            decreases result.timer,
        {
            result.timer -= tac_cpi;
            proof {
                lemma_timer_step(
                    divided.read(TIMA as int) as int,
                    divided.read(TMA as int) as int,
                    k,
                );
                assert(tac_cpi * (k + 1) == tac_cpi * k + tac_cpi) by (nonlinear_arith);
                k = k + 1;
            }
            let (_result, overflow) = mem_inc(mem, TIMA);
            if overflow {
                tima_reset(mem);
                proof {
                    bits::lemma_bit_mask(mem@.read(IF as int), 2);
                }
                request_interrupt(mem, FL_INT_TIMER);
            }
            assert(mem@ =~= timer_advanced(divided, k));
        }
        proof {
            assert(tac_cpi * k == k * tac_cpi) by (nonlinear_arith);
            vstd::arithmetic::div_mod::lemma_fundamental_div_mod_converse(
                state.timer + cycles,
                tac_cpi as int,
                k,
                result.timer as int,
            );
        }
    }
    result
}

/// One more advance of the timer.
pub proof fn lemma_timer_step(v: int, modulo: int, k: int)
    requires
        0 <= v < 256,
        0 <= modulo < 256,
        k >= 0,
    ensures
        0 <= timer_value(v, modulo, k) < 256,
        timer_value(v, modulo, k) < 255 ==> timer_value(v, modulo, k + 1) == timer_value(
            v,
            modulo,
            k,
        ) + 1 && (v + k < 256 <==> v + k + 1 < 256),
        timer_value(v, modulo, k) == 255 ==> timer_value(v, modulo, k + 1) == modulo && v + k + 1
            >= 256,
{
    let period = 256 - modulo;
    if v + k + 1 == 256 {
        vstd::arithmetic::div_mod::lemma_small_mod(0, period as nat);
    } else if v + k >= 256 {
        let m = v + k - 256;
        vstd::arithmetic::div_mod::lemma_fundamental_div_mod(m, period);
        vstd::arithmetic::div_mod::lemma_mod_bound(m, period);
        if m % period == period - 1 {
            assert(m + 1 == (m / period + 1) * period) by (nonlinear_arith)
                requires
                    m == period * (m / period) + period - 1,
            ;
            vstd::arithmetic::div_mod::lemma_fundamental_div_mod_converse(
                m + 1,
                period,
                m / period + 1,
                0,
            );
        } else {
            assert(m + 1 == (m / period) * period + (m % period + 1)) by (nonlinear_arith)
                requires
                    m == period * (m / period) + m % period,
            ;
            vstd::arithmetic::div_mod::lemma_fundamental_div_mod_converse(
                m + 1,
                period,
                m / period,
                m % period + 1,
            );
        }
    }
}

/// Increments the byte at `loc`; tells its new value, and whether it started over at zero.
pub fn mem_inc(mem: &mut Memory, loc: Word) -> (r: (Byte, bool))
    ensures
        r.0 == isa::up(old(mem)@.read(loc as int)),
        r.1 == (old(mem)@.read(loc as int) == 255),
        final(mem)@ == old(mem)@.write(loc as int, r.0),
{
    let val: Byte = mem.read(loc);
    let result: Byte = val.wrapping_add(1);
    mem.write(loc, result);
    (result, val == 255)
}

/// Starts the timer over from its modulo.
pub fn tima_reset(mem: &mut Memory)
    ensures
        final(mem)@ == old(mem)@.write(TIMA as int, old(mem)@.read(TMA as int)),
{
    let modulo: Byte = mem.read(TMA);
    mem.write(TIMA, modulo);
}

/// Whether the timer runs.
pub fn tac_enabled(mem: &Memory) -> (r: bool)
    ensures
        r == timer_on(mem@),
{
    bit_test(2, mem.read(TAC))
}

/// The number of cycles after which the timer advances. Every setting of the register is valid.
pub fn tac_cycles_per_inc(mem: &Memory) -> (r: Result<u64, &'static str>)
    ensures
        r == Ok::<u64, &'static str>(timer_period(mem@) as u64),
{
    match mem.read(TAC) % 4 {
        0b00 => Ok(1024),
        0b01 => Ok(16),
        0b10 => Ok(64),
        _ => Ok(256),
    }
}

/// The opcode at the program counter stands for no instruction.
#[derive(Debug, Clone)]
pub struct UnknownInstructionError {
    pub mnm: String,
    pub op: Byte,
}

impl UnknownInstructionError {
    /// The message: `unknown instruction 0xD3 (INVALID)`.
    pub fn to_string(&self) -> (r: String)
        ensures
            r@ == "unknown instruction 0x"@ + text::digits(self.op as nat, 16, true) + " ("@
                + self.mnm@ + ")"@,
    {
        let mut out = join3(
            "unknown instruction 0x",
            digits_text(self.op, 16, true).as_str(),
            " (",
        );
        out.append(self.mnm.as_str());
        out.append(")");
        out
    }
}

/// One step of the processor: it serves an interrupt, waits in a halt, or fetches and executes an
/// instruction.
pub fn next(cpu: CPUState, mem: &mut Memory) -> (r: Result<CPUState, UnknownInstructionError>)
    requires
        isa::step_fits(isa::state(cpu@, old(mem)@)),
    ensures
        r is Err <==> isa::stuck(isa::state(cpu@, old(mem)@)),
        r matches Ok(next) ==> isa::state(next@, final(mem)@) == isa::step(
            isa::state(cpu@, old(mem)@),
        ),
        r matches Err(e) ==> e.op == isa::opcode(isa::state(cpu@, old(mem)@)) && e.mnm@
            == "INVALID"@ && final(mem)@ == old(mem)@,
{
    let ghost start = isa::state(cpu@, mem@);

    // referenced by interrupt enabling instructions
    let cpu = CPUState { inst_count: cpu.inst_count + 1, ..cpu };
    let op: Byte = mem.read(cpu.pc);

    // check interrupts
    // -----------------
    // https://gbdev.io/pandocs/single.html#ime-interrupt-master-enable-flag-write-only
    // The effect of EI is delayed by one instruction.
    // This means that EI followed immediately by DI does not
    // allow interrupts between the EI and the DI.
    let ei_valid_delay = (cpu.inst_count - cpu.inst_ei) > 1;
    let enabled_flags: Byte = mem.read(IE) & mem.read(IF);
    proof {
        lemma_interrupt_bits(mem@.read(IE as int), mem@.read(IF as int));
    }

    // possibly unhalt the cpu
    let cpu = if enabled_flags != 0 {
        CPUState { halt: false, ..cpu }
    } else {
        cpu
    };
    assert(cpu@ =~= isa::woken(start).cpu);

    if cpu.ime && ei_valid_delay && enabled_flags != 0 {
        let (line, flag, vector): (Byte, Byte, Word) = if (enabled_flags & FL_INT_VBLANK) != 0 {
            (0, FL_INT_VBLANK, VEC_INT_VBLANK)
        } else if (enabled_flags & FL_INT_STAT) != 0 {
            (1, FL_INT_STAT, VEC_INT_STAT)
        } else if (enabled_flags & FL_INT_TIMER) != 0 {
            (2, FL_INT_TIMER, VEC_INT_TIMER)
        } else if (enabled_flags & FL_INT_SERIAL) != 0 {
            (3, FL_INT_SERIAL, VEC_INT_SERIAL)
        } else {
            (4, FL_INT_JOYPAD, VEC_INT_JOYPAD)
        };
        proof {
            bits::lemma_bit_mask(mem@.read(IF as int), line);
        }
        Ok(jump_to_int_vec(cpu, mem, flag, vector))
    } else if cpu.halt {
        // halted, just pass the time
        Ok(cpu.tick(4))
    } else {
        let inst = decode(op);
        match op {
            0xD3 | 0xDB | 0xDD | 0xE3 | 0xE4 | 0xEB | 0xEC | 0xED | 0xF4 | 0xFC | 0xFD => Err(
                UnknownInstructionError { mnm: inst.mnm, op },
            ),
            _ => Ok(execute(cpu, mem, op)),
        }
    }
}

/// The bits that two five bit registers have in common.
proof fn lemma_interrupt_bits(a: u8, b: u8)
    by (bit_vector)
    requires
        a < 32,
        b < 32,
    ensures
        (a & b) & 1 != 0 <==> (a % 2 == 1 && b % 2 == 1),
        (a & b) & 2 != 0 <==> ((a / 2) % 2 == 1 && (b / 2) % 2 == 1),
        (a & b) & 4 != 0 <==> ((a / 4) % 2 == 1 && (b / 4) % 2 == 1),
        (a & b) & 8 != 0 <==> ((a / 8) % 2 == 1 && (b / 8) % 2 == 1),
        (a & b) & 16 != 0 <==> ((a / 16) % 2 == 1 && (b / 16) % 2 == 1),
        a & b != 0 <==> ((a & b) & 1 != 0 || (a & b) & 2 != 0 || (a & b) & 4 != 0 || (a & b) & 8
            != 0 || (a & b) & 16 != 0),
{
}

} // verus!
