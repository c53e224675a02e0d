//! The instruction set as mathematics: what each opcode does to the processor and to memory.
//!
//! An opcode is read as octal digits, `x` (bits 7-6), `y` (bits 5-3) and `z` (bits 2-0); `y` is
//! split further into `p` (bits 5-4) and `q` (bit 3). The digits index small tables of operands,
//! conditions and operations, and whole families of instructions share one definition.
use vstd::prelude::*;

use crate::bits;
use crate::cpu::{Cpu, FLAGS, REG_A, REG_B, REG_C, REG_D, REG_E, REG_H, REG_L};
use crate::memory::{Ram, IE, IF};

verus! {

/// The processor together with the memory that it works on.
#[verifier::ext_equal]
pub struct State {
    pub cpu: Cpu,
    pub mem: Ram,
}

impl State {
    pub open spec fn wf(self) -> bool {
        self.cpu.wf() && self.mem.wf()
    }

    /// The byte after the opcode.
    pub open spec fn imm8(self) -> u8 {
        self.mem.read(self.cpu.pc + 1)
    }

    /// The word after the opcode, low byte first.
    pub open spec fn imm16(self) -> int {
        bits::word_of(self.mem.read(self.cpu.pc + 2), self.mem.read(self.cpu.pc + 1))
    }

    /// The byte after the opcode as a signed displacement.
    pub open spec fn displacement(self) -> int {
        bits::signed_value(self.imm8())
    }

    /// The operand that an octal digit names: a register, or for 6 the byte that HL addresses.
    pub open spec fn operand(self, digit: int) -> u8 {
        if digit == 6 {
            self.mem.read(self.cpu.hl())
        } else {
            self.cpu.reg[digit]
        }
    }

    /// The state with the processor replaced.
    pub open spec fn with_cpu(self, cpu: Cpu) -> State {
        State { cpu, mem: self.mem }
    }
}

/// A processor and a memory as one state.
pub open spec fn state(cpu: Cpu, mem: Ram) -> State {
    State { cpu, mem }
}

// ---------------------------------------------------------------------------------------------
// operands and conditions
// ---------------------------------------------------------------------------------------------
/// The word register that `p` names: BC, DE, HL or SP.
pub open spec fn pair(cpu: Cpu, p: int) -> int {
    if p == 0 {
        cpu.bc()
    } else if p == 1 {
        cpu.de()
    } else if p == 2 {
        cpu.hl()
    } else {
        cpu.sp
    }
}

/// The state with the word register that `p` names replaced.
pub open spec fn set_pair(cpu: Cpu, p: int, w: int) -> Cpu {
    if p == 0 {
        cpu.set_pair(REG_B as int, REG_C as int, w)
    } else if p == 1 {
        cpu.set_pair(REG_D as int, REG_E as int, w)
    } else if p == 2 {
        cpu.set_pair(REG_H as int, REG_L as int, w)
    } else {
        Cpu { sp: w, ..cpu }
    }
}

/// The condition that a digit names: not zero, zero, no carry or carry.
pub open spec fn condition(cpu: Cpu, cc: int) -> bool {
    if cc == 0 {
        !cpu.zero()
    } else if cc == 1 {
        cpu.zero()
    } else if cc == 2 {
        !cpu.carry()
    } else {
        cpu.carry()
    }
}

// ---------------------------------------------------------------------------------------------
// 8-bit arithmetic and logic
// ---------------------------------------------------------------------------------------------
/// `A = A + v + c`, flags z0hc.
pub open spec fn add8(cpu: Cpu, v: u8, c: int) -> Cpu {
    let sum = cpu.a() + v + c;
    cpu.set_reg(REG_A as int, (sum % 256) as u8).set_flags(
        sum % 256 == 0,
        false,
        cpu.a() % 16 + v % 16 + c >= 16,
        sum >= 256,
    )
}

/// `A = A - v - c`, flags z1hc.
pub open spec fn sub8(cpu: Cpu, v: u8, c: int) -> Cpu {
    let difference = cpu.a() - v - c;
    cpu.set_reg(REG_A as int, (difference % 256) as u8).set_flags(
        difference % 256 == 0,
        true,
        cpu.a() % 16 - v % 16 - c < 0,
        difference < 0,
    )
}

/// `A = A & v`, flags z010.
pub open spec fn and8(cpu: Cpu, v: u8) -> Cpu {
    cpu.set_reg(REG_A as int, cpu.a() & v).set_flags(cpu.a() & v == 0, false, true, false)
}

/// `A = A ^ v`, flags z000.
pub open spec fn xor8(cpu: Cpu, v: u8) -> Cpu {
    cpu.set_reg(REG_A as int, cpu.a() ^ v).set_flags(cpu.a() ^ v == 0, false, false, false)
}

/// `A = A | v`, flags z000.
pub open spec fn or8(cpu: Cpu, v: u8) -> Cpu {
    cpu.set_reg(REG_A as int, cpu.a() | v).set_flags(cpu.a() | v == 0, false, false, false)
}

/// The flags of `A - v`, with A left as it is.
pub open spec fn cp8(cpu: Cpu, v: u8) -> Cpu {
    cpu.set_reg(FLAGS as int, sub8(cpu, v, 0).f())
}

/// The operation that `y` names: ADD, ADC, SUB or SBC.
#[verifier::opaque]
pub open spec fn alu_sum(cpu: Cpu, y: int, v: u8) -> Cpu {
    if y == 0 {
        add8(cpu, v, 0)
    } else if y == 1 {
        add8(cpu, v, bits::digit(cpu.carry()))
    } else if y == 2 {
        sub8(cpu, v, 0)
    } else {
        sub8(cpu, v, bits::digit(cpu.carry()))
    }
}

/// The operation that `y` names: AND, XOR, OR or CP.
#[verifier::opaque]
pub open spec fn alu_logic(cpu: Cpu, y: int, v: u8) -> Cpu {
    if y == 4 {
        and8(cpu, v)
    } else if y == 5 {
        xor8(cpu, v)
    } else if y == 6 {
        or8(cpu, v)
    } else {
        cp8(cpu, v)
    }
}

/// The operation on the accumulator that `y` names.
pub open spec fn alu(cpu: Cpu, y: int, v: u8) -> Cpu {
    if y < 4 {
        alu_sum(cpu, y, v)
    } else {
        alu_logic(cpu, y, v)
    }
}

/// `v + 1` in a byte.
pub open spec fn up(v: u8) -> u8 {
    ((v + 1) % 256) as u8
}

/// `v - 1` in a byte.
pub open spec fn down(v: u8) -> u8 {
    ((v - 1) % 256) as u8
}

/// The flags z0h- of an increment of `v`.
pub open spec fn inc_flags(cpu: Cpu, v: u8) -> Cpu {
    cpu.set_flags(up(v) == 0, false, v % 16 == 15, cpu.carry())
}

/// The flags z1h- of a decrement of `v`.
pub open spec fn dec_flags(cpu: Cpu, v: u8) -> Cpu {
    cpu.set_flags(down(v) == 0, true, v % 16 == 0, cpu.carry())
}

/// `r = r + 1`, flags z0h-.
pub open spec fn inc8(cpu: Cpu, r: int) -> Cpu {
    cpu.set_reg(r, up(cpu.reg[r])).set_flags(
        up(cpu.reg[r]) == 0,
        false,
        cpu.reg[r] % 16 == 15,
        cpu.carry(),
    )
}

/// `r = r - 1`, flags z1h-.
pub open spec fn dec8(cpu: Cpu, r: int) -> Cpu {
    cpu.set_reg(r, down(cpu.reg[r])).set_flags(
        down(cpu.reg[r]) == 0,
        true,
        cpu.reg[r] % 16 == 0,
        cpu.carry(),
    )
}

/// What a decimal adjustment adds to (or, after a subtraction, takes from) the accumulator: 6 for
/// a digit that left the decimal range in the low nibble, and 60 (hex) for one in the high nibble.
pub open spec fn daa_low(cpu: Cpu) -> bool {
    cpu.half() || (!cpu.subtract() && cpu.a() % 16 > 9)
}

pub open spec fn daa_high(cpu: Cpu) -> bool {
    cpu.carry() || (!cpu.subtract() && cpu.a() > 0x99)
}

pub open spec fn daa_result(cpu: Cpu) -> u8 {
    let offset = 6 * bits::digit(daa_low(cpu)) + 0x60 * bits::digit(daa_high(cpu));
    if cpu.subtract() {
        ((cpu.a() - offset) % 256) as u8
    } else {
        ((cpu.a() + offset) % 256) as u8
    }
}

/// Decimal adjustment of the accumulator, flags z-0x.
pub open spec fn daa(cpu: Cpu) -> Cpu {
    cpu.set_reg(REG_A as int, daa_result(cpu)).set_flags(
        daa_result(cpu) == 0,
        cpu.subtract(),
        false,
        daa_high(cpu),
    )
}

/// `A = A xor FF`, flags -11-.
pub open spec fn cpl(cpu: Cpu) -> Cpu {
    cpu.set_reg(REG_A as int, (255 - cpu.a()) as u8).set_flags(cpu.zero(), true, true, cpu.carry())
}

/// Flags -001.
pub open spec fn scf(cpu: Cpu) -> Cpu {
    cpu.set_flags(cpu.zero(), false, false, true)
}

/// Flags -00c, with the carry inverted.
pub open spec fn ccf(cpu: Cpu) -> Cpu {
    cpu.set_flags(cpu.zero(), false, false, !cpu.carry())
}

// ---------------------------------------------------------------------------------------------
// 16-bit arithmetic
// ---------------------------------------------------------------------------------------------
/// `HL = HL + w`, flags -0hc, the half carry out of bit 11.
pub open spec fn add_hl(cpu: Cpu, w: int) -> Cpu {
    cpu.set_flags(
        cpu.zero(),
        false,
        cpu.hl() % 0x1000 + w % 0x1000 >= 0x1000,
        cpu.hl() + w >= 0x10000,
    ).set_pair(REG_H as int, REG_L as int, (cpu.hl() + w) % 0x10000)
}

/// The flags 00hc of `SP + d`, whose carries come out of the low byte.
pub open spec fn sp_flags(cpu: Cpu, d: int) -> Cpu {
    cpu.set_flags(
        false,
        false,
        cpu.sp % 16 + d % 16 >= 16,
        cpu.sp % 256 + d % 256 >= 256,
    )
}

/// `SP = SP + d`, flags 00hc.
pub open spec fn add_sp(cpu: Cpu, d: int) -> Cpu {
    Cpu { sp: (cpu.sp + d) % 0x10000, ..sp_flags(cpu, d) }
}

/// `HL = SP + d`, flags 00hc.
pub open spec fn ld_hl_sp(cpu: Cpu, d: int) -> Cpu {
    sp_flags(cpu, d).set_pair(REG_H as int, REG_L as int, (cpu.sp + d) % 0x10000)
}

// ---------------------------------------------------------------------------------------------
// rotations, shifts and single bits
// ---------------------------------------------------------------------------------------------
/// The result of the rotation or shift that `y` names (RLC, RRC, RL, RR, SLA, SRA, SWAP or SRL)
/// on `v` with carry `c`.
pub open spec fn rotated(y: int, v: u8, c: bool) -> u8 {
    (if y == 0 {
        2 * (v % 128) + v / 128
    } else if y == 1 {
        v / 2 + 128 * (v % 2)
    } else if y == 2 {
        2 * (v % 128) + bits::digit(c)
    } else if y == 3 {
        v / 2 + 128 * bits::digit(c)
    } else if y == 4 {
        2 * (v % 128)
    } else if y == 5 {
        v / 2 + 128 * (v / 128)
    } else if y == 6 {
        16 * (v % 16) + v / 16
    } else {
        (v / 2) as int
    }) as u8
}

/// The bit that such a rotation or shift moves into the carry.
pub open spec fn rotated_out(y: int, v: u8) -> bool {
    if y == 0 || y == 2 || y == 4 {
        v >= 128
    } else if y == 6 {
        false
    } else {
        v % 2 == 1
    }
}

/// The four short rotations of the accumulator, flags 000c.
pub open spec fn rotate_a(cpu: Cpu, y: int) -> Cpu {
    cpu.set_reg(REG_A as int, rotated(y, cpu.a(), cpu.carry())).set_flags(
        false,
        false,
        false,
        rotated_out(y, cpu.a()),
    )
}

/// A rotation or shift of a register, flags z00c.
pub open spec fn rotate_r(cpu: Cpu, y: int, r: int) -> Cpu {
    let result = rotated(y, cpu.reg[r], cpu.carry());
    cpu.set_reg(r, result).set_flags(result == 0, false, false, rotated_out(y, cpu.reg[r]))
}

/// A rotation or shift of the byte that HL addresses, flags z00c. The zero flag follows the
/// result, except for RL, where it follows what the memory then reads.
pub open spec fn rotate_hl(s: State, y: int) -> State {
    let v = s.mem.read(s.cpu.hl());
    let result = rotated(y, v, s.cpu.carry());
    let mem = s.mem.write(s.cpu.hl(), result);
    let z = if y == 2 {
        mem.read(s.cpu.hl()) == 0
    } else {
        result == 0
    };
    State { cpu: s.cpu.set_flags(z, false, false, rotated_out(y, v)), mem }
}

/// The flags 001- of a test of a bit of a register, which clears the zero flag for a set bit and
/// for a clear bit alike.
pub open spec fn bit_r_flags(cpu: Cpu) -> Cpu {
    cpu.set_flags(false, false, true, cpu.carry())
}

/// The flags z01- of a test of bit `n` of the byte that HL addresses, read as `v`. The zero
/// flag is set for a clear bit.
pub open spec fn bit_hl_flags(cpu: Cpu, n: int, v: u8) -> Cpu {
    cpu.set_flags(!bits::has_bit(v, n), false, true, cpu.carry())
}

/// The instructions behind the prefix CB.
pub open spec fn cb(s: State, op: int) -> State {
    let (x, y, z) = (op / 64, (op / 8) % 8, op % 8);
    if x == 0 {
        if z == 6 {
            let t = rotate_hl(s, y);
            t.with_cpu(t.cpu.adv_pc(2).tick(16))
        } else {
            s.with_cpu(rotate_r(s.cpu, y, z).adv_pc(2).tick(8))
        }
    } else if x == 1 {
        if z == 6 {
            s.with_cpu(bit_hl_flags(s.cpu, y, s.operand(6)).adv_pc(2).tick(12))
        } else {
            s.with_cpu(bit_r_flags(s.cpu).adv_pc(2).tick(8))
        }
    } else {
        let result = bits::with_bit(s.operand(z), y, x == 3);
        if z == 6 {
            State { cpu: s.cpu.adv_pc(2).tick(16), mem: s.mem.write(s.cpu.hl(), result) }
        } else {
            s.with_cpu(s.cpu.set_reg(z, result).adv_pc(2).tick(8))
        }
    }
}

// ---------------------------------------------------------------------------------------------
// jumps and calls
// ---------------------------------------------------------------------------------------------
/// A relative jump from behind a two byte instruction.
pub open spec fn jr(cpu: Cpu, d: int) -> Cpu {
    cpu.jump((cpu.pc + 2 + d) % 0x10000)
}

/// Pushes `back` and goes on at `to`.
pub open spec fn call(s: State, back: int, to: int) -> State {
    State {
        cpu: Cpu { sp: s.cpu.sp - 2, pc: to, ..s.cpu },
        mem: s.mem.pushed(s.cpu.sp, back),
    }
}

/// Goes on at the word popped from the stack.
pub open spec fn ret(s: State) -> Cpu {
    Cpu { sp: s.cpu.sp + 2, pc: s.mem.stack_top(s.cpu.sp), ..s.cpu }
}

/// The registers that a push or pop with digit `p` works on: BC, DE, HL or AF.
pub open spec fn stack_high(p: int) -> int {
    if p == 3 {
        REG_A as int
    } else {
        2 * p
    }
}

pub open spec fn stack_low(p: int) -> int {
    if p == 3 {
        FLAGS as int
    } else {
        2 * p + 1
    }
}

pub open spec fn push_pair(s: State, high: int, low: int) -> State {
    State {
        cpu: Cpu { sp: s.cpu.sp - 2, ..s.cpu },
        mem: s.mem.pushed(s.cpu.sp, bits::word_of(s.cpu.reg[high], s.cpu.reg[low])),
    }
}

/// The low nibble of the flag register is always 0, also when the flags are popped.
pub open spec fn pop_pair(s: State, high: int, low: int) -> Cpu {
    let w = s.mem.stack_top(s.cpu.sp);
    let l = if low == FLAGS {
        (bits::low_byte(w) - bits::low_byte(w) % 16) as u8
    } else {
        bits::low_byte(w)
    };
    Cpu { sp: s.cpu.sp + 2, ..s.cpu.set_reg(high, bits::high_byte(w)).set_reg(low, l) }
}

// ---------------------------------------------------------------------------------------------
// the opcode table
// ---------------------------------------------------------------------------------------------
/// The address register that an indirect load with digit `p` uses: BC, DE, or HL twice.
pub open spec fn indirect(cpu: Cpu, p: int) -> int {
    if p == 0 {
        cpu.bc()
    } else if p == 1 {
        cpu.de()
    } else {
        cpu.hl()
    }
}

/// HL moved on by one or back by one, for the digits that ask for it.
pub open spec fn indirect_step(cpu: Cpu, p: int) -> Cpu {
    if p == 2 {
        cpu.set_pair(REG_H as int, REG_L as int, (cpu.hl() + 1) % 0x10000)
    } else if p == 3 {
        cpu.set_pair(REG_H as int, REG_L as int, (cpu.hl() - 1) % 0x10000)
    } else {
        cpu
    }
}

/// NOP, LD (nn), SP, STOP, and relative jumps.
#[verifier::opaque]
pub open spec fn jumps_by_offset(s: State, y: int) -> State {
    if y == 0 {
        // NOP
        s.with_cpu(s.cpu.adv_pc(1).tick(4))
    } else if y == 1 {
        // LD (nn), SP
        State {
            cpu: s.cpu.adv_pc(3).tick(20),
            mem: s.mem.write(s.imm16() + 1, bits::high_byte(s.cpu.sp)).write(
                s.imm16(),
                bits::low_byte(s.cpu.sp),
            ),
        }
    } else if y == 2 {
        // STOP
        s.with_cpu(s.cpu.adv_pc(2))
    } else if y == 3 || condition(s.cpu, y - 4) {
        // JR n, JR cc, n
        s.with_cpu(jr(s.cpu, s.displacement()).tick(12))
    } else {
        s.with_cpu(s.cpu.adv_pc(2).tick(8))
    }
}

/// LD rr, nn and ADD HL, rr.
#[verifier::opaque]
pub open spec fn word_loads(s: State, y: int) -> State {
    let (p, q) = (y / 2, y % 2);
    if q == 0 {
        // LD rr, nn
        s.with_cpu(set_pair(s.cpu, p, s.imm16()).adv_pc(3).tick(12))
    } else {
        // ADD HL, rr
        s.with_cpu(add_hl(s.cpu, pair(s.cpu, p)).adv_pc(1).tick(8))
    }
}

/// LD (rr), A and LD A, (rr).
#[verifier::opaque]
pub open spec fn indirect_loads(s: State, y: int) -> State {
    let (p, q) = (y / 2, y % 2);
    if q == 0 {
        // LD (rr), A
        State {
            cpu: indirect_step(s.cpu, p).adv_pc(1).tick(8),
            mem: s.mem.write(indirect(s.cpu, p), s.cpu.a()),
        }
    } else {
        // LD A, (rr)
        s.with_cpu(
            indirect_step(
                s.cpu.set_reg(REG_A as int, s.mem.read(indirect(s.cpu, p))),
                p,
            ).adv_pc(1).tick(8),
        )
    }
}

/// INC rr and DEC rr.
#[verifier::opaque]
pub open spec fn word_steps(s: State, y: int) -> State {
    let (p, q) = (y / 2, y % 2);
    let w = if q == 0 {
        pair(s.cpu, p) + 1
    } else {
        pair(s.cpu, p) - 1
    };
    s.with_cpu(set_pair(s.cpu, p, w % 0x10000).adv_pc(1).tick(8))
}

/// INC r.
#[verifier::opaque]
pub open spec fn increments(s: State, y: int) -> State {
    if y == 6 {
        State {
            cpu: inc_flags(s.cpu, s.operand(6)).adv_pc(1).tick(12),
            mem: s.mem.write(s.cpu.hl(), up(s.operand(6))),
        }
    } else {
        s.with_cpu(inc8(s.cpu, y).adv_pc(1).tick(4))
    }
}

/// DEC r.
#[verifier::opaque]
pub open spec fn decrements(s: State, y: int) -> State {
    if y == 6 {
        State {
            cpu: dec_flags(s.cpu, s.operand(6)).adv_pc(1).tick(12),
            mem: s.mem.write(s.cpu.hl(), down(s.operand(6))),
        }
    } else {
        s.with_cpu(dec8(s.cpu, y).adv_pc(1).tick(4))
    }
}

/// LD r, n.
#[verifier::opaque]
pub open spec fn immediate_loads(s: State, y: int) -> State {
    if y == 6 {
        State {
            cpu: s.cpu.adv_pc(2).tick(12),
            mem: s.mem.write(s.cpu.hl(), s.imm8()),
        }
    } else {
        s.with_cpu(s.cpu.set_reg(y, s.imm8()).adv_pc(2).tick(8))
    }
}

/// Rotations of the accumulator, DAA, CPL, SCF and CCF.
#[verifier::opaque]
pub open spec fn accumulator_ops(s: State, y: int) -> State {
    s.with_cpu(
        (if y == 4 {
            daa(s.cpu)
        } else if y == 5 {
            cpl(s.cpu)
        } else if y == 6 {
            scf(s.cpu)
        } else if y == 7 {
            ccf(s.cpu)
        } else {
            // RLCA, RRCA, RLA, RRA
            rotate_a(s.cpu, y)
        }).adv_pc(1).tick(4),
    )
}

/// Opcodes 00 to 3F.
pub open spec fn block0(s: State, y: int, z: int) -> State {
    if z == 0 {
        jumps_by_offset(s, y)
    } else if z == 1 {
        word_loads(s, y)
    } else if z == 2 {
        indirect_loads(s, y)
    } else if z == 3 {
        word_steps(s, y)
    } else if z == 4 {
        increments(s, y)
    } else if z == 5 {
        decrements(s, y)
    } else if z == 6 {
        immediate_loads(s, y)
    } else {
        accumulator_ops(s, y)
    }
}

/// Opcodes 40 to 7F: loads between operands, and HALT where both would be memory.
#[verifier::opaque]
pub open spec fn block1(s: State, y: int, z: int) -> State {
    if y == 6 && z == 6 {
        s.with_cpu(Cpu { halt: true, ..s.cpu.adv_pc(1).tick(4) })
    } else if y == 6 {
        State { cpu: s.cpu.adv_pc(1).tick(8), mem: s.mem.write(s.cpu.hl(), s.cpu.reg[z]) }
    } else {
        s.with_cpu(
            s.cpu.set_reg(y, s.operand(z)).adv_pc(1).tick(
                if z == 6 {
                    8
                } else {
                    4
                },
            ),
        )
    }
}

/// Opcodes 80 to BF: arithmetic on the accumulator.
#[verifier::opaque]
pub open spec fn block2(s: State, y: int, z: int) -> State {
    s.with_cpu(
        alu(s.cpu, y, s.operand(z)).adv_pc(1).tick(
            if z == 6 {
                8
            } else {
                4
            },
        ),
    )
}

/// RET cc, loads to and from the I/O page, ADD SP, n and LD HL, SP + n.
#[verifier::opaque]
pub open spec fn conditional_returns(s: State, y: int) -> State {
    if y < 4 {
        // RET cc
        if condition(s.cpu, y) {
            s.with_cpu(ret(s).tick(20))
        } else {
            s.with_cpu(s.cpu.adv_pc(1).tick(8))
        }
    } else if y == 4 {
        // LD (0xFF00 + n), A
        State {
            cpu: s.cpu.adv_pc(2).tick(12),
            mem: s.mem.write(0xFF00 + s.imm8(), s.cpu.a()),
        }
    } else if y == 5 {
        // ADD SP, n
        s.with_cpu(add_sp(s.cpu, s.displacement()).adv_pc(2).tick(16))
    } else if y == 6 {
        // LD A, (0xFF00 + n)
        s.with_cpu(
            s.cpu.set_reg(REG_A as int, s.mem.read(0xFF00 + s.imm8())).adv_pc(2).tick(12),
        )
    } else {
        // LD HL, SP + n
        s.with_cpu(ld_hl_sp(s.cpu, s.displacement()).adv_pc(2).tick(12))
    }
}

/// POP rr, RET, RETI, JP HL and LD SP, HL.
#[verifier::opaque]
pub open spec fn pops(s: State, y: int) -> State {
    let (p, q) = (y / 2, y % 2);
    if q == 0 {
        // POP rr
        s.with_cpu(pop_pair(s, stack_high(p), stack_low(p)).adv_pc(1).tick(12))
    } else if p == 0 {
        // RET
        s.with_cpu(ret(s).tick(16))
    } else if p == 1 {
        // RETI
        s.with_cpu(Cpu { ime: true, inst_ei: s.cpu.inst_count, ..ret(s).tick(16) })
    } else if p == 2 {
        // JP HL
        s.with_cpu(s.cpu.jump(s.cpu.hl()).tick(4))
    } else {
        // LD SP, HL
        s.with_cpu(Cpu { sp: s.cpu.hl(), ..s.cpu.adv_pc(1).tick(8) })
    }
}

/// JP cc, nn and loads through C or a word.
#[verifier::opaque]
pub open spec fn jumps(s: State, y: int) -> State {
    if y < 4 {
        // JP cc, nn
        if condition(s.cpu, y) {
            s.with_cpu(s.cpu.jump(s.imm16()).tick(16))
        } else {
            s.with_cpu(s.cpu.adv_pc(3).tick(12))
        }
    } else if y == 4 {
        // LD (0xFF00 + C), A
        State {
            cpu: s.cpu.adv_pc(1).tick(8),
            mem: s.mem.write(0xFF00 + s.cpu.reg[REG_C as int], s.cpu.a()),
        }
    } else if y == 5 {
        // LD (nn), A
        State { cpu: s.cpu.adv_pc(3).tick(16), mem: s.mem.write(s.imm16(), s.cpu.a()) }
    } else if y == 6 {
        // LD A, (0xFF00 + C)
        s.with_cpu(
            s.cpu.set_reg(
                REG_A as int,
                s.mem.read(0xFF00 + s.cpu.reg[REG_C as int]),
            ).adv_pc(1).tick(8),
        )
    } else {
        // LD A, (nn)
        s.with_cpu(s.cpu.set_reg(REG_A as int, s.mem.read(s.imm16())).adv_pc(3).tick(16))
    }
}

/// JP nn, the prefix CB, DI and EI.
#[verifier::opaque]
pub open spec fn controls(s: State, y: int) -> State {
    if y == 0 {
        // JP nn
        s.with_cpu(s.cpu.jump(s.imm16()).tick(16))
    } else if y == 1 {
        cb(s, s.imm8() as int)
    } else if y == 6 {
        // DI
        s.with_cpu(Cpu { ime: false, ..s.cpu.adv_pc(1).tick(4) })
    } else {
        // EI
        s.with_cpu(
            Cpu { ime: true, inst_ei: s.cpu.inst_count, ..s.cpu.adv_pc(1).tick(4) },
        )
    }
}

/// CALL cc, nn and CALL nn.
#[verifier::opaque]
pub open spec fn calls(s: State, y: int, z: int) -> State {
    if z == 5 || condition(s.cpu, y) {
        let t = call(s, s.cpu.pc + 3, s.imm16());
        t.with_cpu(t.cpu.tick(24))
    } else {
        s.with_cpu(s.cpu.adv_pc(3).tick(12))
    }
}

/// PUSH rr.
#[verifier::opaque]
pub open spec fn pushes(s: State, y: int) -> State {
    let p = y / 2;
    let t = push_pair(s, stack_high(p), stack_low(p));
    t.with_cpu(t.cpu.adv_pc(1).tick(16))
}

/// Operations on the accumulator and n.
#[verifier::opaque]
pub open spec fn immediate_ops(s: State, y: int) -> State {
    s.with_cpu(alu(s.cpu, y, s.imm8()).adv_pc(2).tick(8))
}

/// RST.
#[verifier::opaque]
pub open spec fn restarts(s: State, y: int) -> State {
    let t = call(s, s.cpu.pc + 1, 8 * y);
    t.with_cpu(t.cpu.tick(16))
}

/// Opcodes C0 to FF.
pub open spec fn block3(s: State, y: int, z: int) -> State {
    let q = y % 2;
    if z == 0 {
        conditional_returns(s, y)
    } else if z == 1 {
        pops(s, y)
    } else if z == 2 {
        jumps(s, y)
    } else if z == 3 {
        controls(s, y)
    } else if z == 4 || z == 5 && q == 1 {
        calls(s, y, z)
    } else if z == 5 {
        pushes(s, y)
    } else if z == 6 {
        immediate_ops(s, y)
    } else {
        restarts(s, y)
    }
}

/// The eleven opcodes that stand for no instruction.
pub open spec fn undefined(op: int) -> bool {
    let (y, z) = ((op / 8) % 8, op % 8);
    op >= 0xC0 && (z == 3 && 2 <= y <= 5 || z == 4 && y >= 4 || z == 5 && y % 2 == 1 && y > 1)
}

/// The state after the instruction `op`, fetched at the program counter, has been executed.
pub open spec fn execute(s: State, op: int) -> State {
    let (x, y, z) = (op / 64, (op / 8) % 8, op % 8);
    if x == 0 {
        block0(s, y, z)
    } else if x == 1 {
        block1(s, y, z)
    } else if x == 2 {
        block2(s, y, z)
    } else {
        block3(s, y, z)
    }
}

/// The number of operand bytes that follow the opcode.
pub open spec fn operand_count(op: int) -> int {
    let (x, y, z) = (op / 64, (op / 8) % 8, op % 8);
    let q = y % 2;
    if x == 0 {
        if z == 0 {
            if y == 1 {
                2
            } else if y >= 3 {
                1
            } else {
                0
            }
        } else if z == 1 && q == 0 {
            2
        } else if z == 6 {
            1
        } else {
            0
        }
    } else if x == 3 {
        if z == 0 && y >= 4 || z == 6 || z == 3 && y == 1 {
            1
        } else if z == 2 && (y < 4 || q == 1) || z == 3 && y == 0 || z == 4 && y < 4 || z == 5 && y
            == 1 {
            2
        } else {
            0
        }
    } else {
        0
    }
}

/// The number of bytes from the opcode to the next instruction. STOP skips the byte behind it.
pub open spec fn length(op: int) -> int {
    if op == 0x10 {
        2
    } else {
        1 + operand_count(op)
    }
}

/// Whether the instruction goes on elsewhere and has no use for the address behind itself. Calls
/// push that address and relative jumps start from it.
pub open spec fn leaves(s: State, op: int) -> bool {
    let (x, y, z) = (op / 64, (op / 8) % 8, op % 8);
    ||| x == 3 && z == 0 && y < 4 && condition(s.cpu, y)
    ||| x == 3 && z == 1 && y % 2 == 1 && y < 7
    ||| x == 3 && z == 2 && y < 4 && condition(s.cpu, y)
    ||| x == 3 && z == 3 && y == 0
}

/// Whether the instruction pushes a word.
pub open spec fn pushes_word(s: State, op: int) -> bool {
    let (x, y, z) = (op / 64, (op / 8) % 8, op % 8);
    x == 3 && (z == 4 && condition(s.cpu, y) || z == 5 || z == 7)
}

/// Whether the instruction pops a word.
pub open spec fn pops_word(s: State, op: int) -> bool {
    let (x, y, z) = (op / 64, (op / 8) % 8, op % 8);
    x == 3 && (z == 0 && y < 4 && condition(s.cpu, y) || z == 1 && (y % 2 == 0 || y < 4))
}

/// The number of cycles that an instruction behind the prefix CB takes.
pub open spec fn cb_cycles(op: int) -> int {
    if op % 8 != 6 {
        8
    } else if op / 64 == 1 {
        12
    } else {
        16
    }
}

/// The number of cycles that an opcode from 00 to 3F takes.
pub open spec fn cycles0(s: State, y: int, z: int) -> int {
    if z == 0 {
        if y == 0 {
            4
        } else if y == 1 {
            20
        } else if y == 2 {
            0
        } else if y == 3 || condition(s.cpu, y - 4) {
            12
        } else {
            8
        }
    } else if z == 1 {
        if y % 2 == 0 {
            12
        } else {
            8
        }
    } else if z == 2 || z == 3 {
        8
    } else if z == 4 || z == 5 {
        if y == 6 {
            12
        } else {
            4
        }
    } else if z == 6 {
        if y == 6 {
            12
        } else {
            8
        }
    } else {
        4
    }
}

/// The number of cycles that an opcode from C0 to FF takes.
pub open spec fn cycles3(s: State, y: int, z: int) -> int {
    if z == 0 {
        if y < 4 {
            if condition(s.cpu, y) {
                20
            } else {
                8
            }
        } else if y == 5 {
            16
        } else {
            12
        }
    } else if z == 1 {
        if y % 2 == 0 {
            12
        } else if y < 4 {
            16
        } else if y == 5 {
            4
        } else {
            8
        }
    } else if z == 2 {
        if y < 4 {
            if condition(s.cpu, y) {
                16
            } else {
                12
            }
        } else if y % 2 == 0 {
            8
        } else {
            16
        }
    } else if z == 3 {
        if y == 0 {
            16
        } else if y == 1 {
            cb_cycles(s.imm8() as int)
        } else {
            4
        }
    } else if z == 4 {
        if condition(s.cpu, y) {
            24
        } else {
            12
        }
    } else if z == 5 {
        if y % 2 == 1 {
            24
        } else {
            16
        }
    } else if z == 6 {
        8
    } else {
        16
    }
}

/// The number of cycles that an instruction takes.
pub open spec fn cycles(s: State, op: int) -> int {
    let (x, y, z) = (op / 64, (op / 8) % 8, op % 8);
    if x == 0 {
        cycles0(s, y, z)
    } else if x == 3 {
        cycles3(s, y, z)
    } else if op != 0x76 && (z == 6 || x == 1 && y == 6) {
        8
    } else {
        4
    }
}

/// Whether every address and counter that the instruction forms is one the hardware can hold.
pub open spec fn fits(s: State, op: int) -> bool {
    &&& s.cpu.pc + operand_count(op) <= 0xFFFF
    &&& !leaves(s, op) ==> s.cpu.pc + length(op) <= 0xFFFF
    &&& pushes_word(s, op) ==> s.cpu.sp >= 2
    &&& pops_word(s, op) ==> s.cpu.sp + 2 <= 0xFFFF
    &&& op == 0x08 ==> s.imm16() < 0xFFFF
    &&& s.cpu.tsc + cycles(s, op) <= u64::MAX
}

// ---------------------------------------------------------------------------------------------
// interrupts, and the step of the processor
// ---------------------------------------------------------------------------------------------
/// Whether the interrupt with the given number is both enabled and requested. The numbers are
/// those of the bits: VBLANK, STAT, TIMER, SERIAL and JOYPAD.
pub open spec fn wanted(mem: Ram, line: int) -> bool {
    bits::has_bit(mem.read(IE as int), line) && bits::has_bit(mem.read(IF as int), line)
}

/// Whether some interrupt is both enabled and requested.
pub open spec fn pending(mem: Ram) -> bool {
    wanted(mem, 0) || wanted(mem, 1) || wanted(mem, 2) || wanted(mem, 3) || wanted(mem, 4)
}

/// The interrupt that is served first: the one with the lowest number.
pub open spec fn first_wanted(mem: Ram) -> int {
    if wanted(mem, 0) {
        0
    } else if wanted(mem, 1) {
        1
    } else if wanted(mem, 2) {
        2
    } else if wanted(mem, 3) {
        3
    } else {
        4
    }
}

/// Serves an interrupt: `left` remains requested, the program counter is pushed, and the program
/// goes on at `vector`. Interrupts stay enabled while any request remains.
pub open spec fn interrupt(s: State, left: u8, vector: int) -> State {
    let t = call(State { cpu: s.cpu, mem: s.mem.write(IF as int, left) }, s.cpu.pc, vector);
    t.with_cpu(Cpu { ime: t.mem.read(IF as int) != 0, ..t.cpu.tick(20) })
}

/// The processor at the start of a step: one more instruction is counted, and a wanted interrupt
/// ends a halt, served or not.
pub open spec fn woken(s: State) -> State {
    s.with_cpu(
        Cpu { inst_count: s.cpu.inst_count + 1, halt: s.cpu.halt && !pending(s.mem), ..s.cpu },
    )
}

/// Whether the step serves an interrupt. Enabling them takes effect after one more instruction.
pub open spec fn serves(s: State) -> bool {
    s.cpu.ime && pending(s.mem) && s.cpu.inst_count + 1 - s.cpu.inst_ei > 1
}

/// Whether the step executes an instruction.
pub open spec fn fetches(s: State) -> bool {
    !serves(s) && !woken(s).cpu.halt
}

/// The opcode at the program counter.
pub open spec fn opcode(s: State) -> int {
    s.mem.read(s.cpu.pc) as int
}

/// Whether the step meets an opcode that stands for no instruction.
pub open spec fn stuck(s: State) -> bool {
    fetches(s) && undefined(opcode(s))
}

/// The state after one step: an interrupt is served, time passes in a halt, or an instruction is
/// executed.
pub open spec fn step(s: State) -> State {
    let t = woken(s);
    if serves(s) {
        let line = first_wanted(s.mem);
        interrupt(t, bits::with_bit(s.mem.read(IF as int), line, false), 0x40 + 8 * line)
    } else if t.cpu.halt {
        t.with_cpu(t.cpu.tick(4))
    } else {
        execute(t, opcode(s))
    }
}

/// Whether every address and counter that the step forms is one the hardware can hold.
pub open spec fn step_fits(s: State) -> bool {
    &&& s.cpu.inst_count + 1 <= u64::MAX
    &&& s.cpu.inst_ei <= s.cpu.inst_count + 1
    &&& if serves(s) {
        s.cpu.sp >= 2 && s.cpu.tsc + 20 <= u64::MAX
    } else if woken(s).cpu.halt {
        s.cpu.tsc + 4 <= u64::MAX
    } else {
        undefined(opcode(s)) || fits(woken(s), opcode(s))
    }
}

} // verus!
