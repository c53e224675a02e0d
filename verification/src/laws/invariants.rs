//! What every instruction and every step keeps.
use vstd::prelude::*;

use crate::bits;
use crate::cpu::{Cpu, REG_A};
use crate::isa;
use crate::isa::State;
use crate::laws::timing;

verus! {

/// A sound processor and memory: everything is in range, the low nibble of the flag register is
/// zero, and interrupts were not enabled in the future.
pub open spec fn sound(s: State) -> bool {
    &&& s.wf()
    &&& s.cpu.f() % 16 == 0
    &&& s.cpu.inst_ei <= s.cpu.inst_count
}

/// What an instruction leaves as it was: the instruction count, the debugger's switch, and the
/// number of registers and memory cells.
spec fn same_frame(s: State, t: State) -> bool {
    &&& t.cpu.inst_count == s.cpu.inst_count
    &&& t.mem.doctor == s.mem.doctor
    &&& t.mem.data.len() == s.mem.data.len()
    &&& t.cpu.reg.len() == s.cpu.reg.len()
}

proof fn lemma_sound0(s: State, y: int, z: int)
    requires
        sound(s),
        0 <= y < 8,
        0 <= z < 8,
        isa::fits(s, 8 * y + z),
    ensures
        sound(isa::block0(s, y, z)),
        same_frame(s, isa::block0(s, y, z)),
        isa::block0(s, y, z).cpu.ime == s.cpu.ime,
        isa::block0(s, y, z).cpu.halt == s.cpu.halt,
        isa::block0(s, y, z).cpu.inst_ei == s.cpu.inst_ei,
{
    let op = 8 * y + z;
    assert(op / 64 == 0 && (op / 8) % 8 == y && op % 8 == z);
    timing::law_cycles(s, op);
    reveal(isa::jumps_by_offset);
    reveal(isa::word_loads);
    reveal(isa::indirect_loads);
    reveal(isa::word_steps);
    reveal(isa::increments);
    reveal(isa::decrements);
    reveal(isa::immediate_loads);
    reveal(isa::accumulator_ops);
}

/// The flag register always has a low nibble of zero.
proof fn lemma_flag_byte(z: bool, n: bool, h: bool, c: bool)
    ensures
        bits::flag_byte(z, n, h, c) % 16 == 0,
{
}

/// Arithmetic on the accumulator touches nothing but the registers.
proof fn lemma_alu_frame(cpu: Cpu, y: int, v: u8)
    requires
        cpu.reg.len() == 8,
        0 <= y < 8,
    ensures
        isa::alu(cpu, y, v) == (Cpu { reg: isa::alu(cpu, y, v).reg, ..cpu }),
        isa::alu(cpu, y, v).reg.len() == 8,
        isa::alu(cpu, y, v).f() % 16 == 0,
{
    assert forall|w: u8| (#[trigger] cpu.set_reg(REG_A as int, w)).reg.len() == 8 by {}
    assert forall|w: u8, z: bool, n: bool, h: bool, c: bool|
        (#[trigger] cpu.set_reg(REG_A as int, w).set_flags(z, n, h, c)).f() % 16 == 0 by {
        lemma_flag_byte(z, n, h, c);
    }
    if y < 4 {
        reveal(isa::alu_sum);
    } else {
        reveal(isa::alu_logic);
    }
}

/// A rotation or a change of one bit touches nothing but registers, flags and one memory cell.
proof fn lemma_cb_frame(s: State, op: int)
    requires
        sound(s),
        0 <= op < 256,
    ensures
        same_frame(s, isa::cb(s, op)),
        isa::cb(s, op).cpu == (Cpu {
            reg: isa::cb(s, op).cpu.reg,
            pc: s.cpu.pc + 2,
            tsc: isa::cb(s, op).cpu.tsc,
            ..s.cpu
        }),
        isa::cb(s, op).cpu.f() % 16 == 0,
{
}

proof fn lemma_sound12(s: State, op: int)
    requires
        sound(s),
        64 <= op < 192,
        isa::fits(s, op),
    ensures
        sound(isa::execute(s, op)),
        same_frame(s, isa::execute(s, op)),
        isa::execute(s, op).cpu.ime == s.cpu.ime,
        isa::execute(s, op).cpu.halt == (s.cpu.halt || op == 0x76),
        isa::execute(s, op).cpu.inst_ei == s.cpu.inst_ei,
{
    timing::law_cycles(s, op);
    let (y, z) = ((op / 8) % 8, op % 8);
    if op < 128 {
        reveal(isa::block1);
    } else {
        reveal(isa::block2);
        lemma_alu_frame(s.cpu, y, s.operand(z));
    }
}

proof fn lemma_sound3(s: State, y: int, z: int)
    requires
        sound(s),
        0 <= y < 8,
        0 <= z < 8,
        !isa::undefined(192 + 8 * y + z),
        isa::fits(s, 192 + 8 * y + z),
    ensures
        sound(isa::block3(s, y, z)),
        same_frame(s, isa::block3(s, y, z)),
        isa::block3(s, y, z).cpu.ime == if z == 3 && y == 6 {
            false
        } else if z == 3 && y == 7 || z == 1 && y == 3 {
            true
        } else {
            s.cpu.ime
        },
        isa::block3(s, y, z).cpu.halt == s.cpu.halt,
        isa::block3(s, y, z).cpu.inst_ei == if z == 3 && y == 7 || z == 1 && y == 3 {
            s.cpu.inst_count
        } else {
            s.cpu.inst_ei
        },
{
    let op = 192 + 8 * y + z;
    assert(op / 64 == 3 && (op / 8) % 8 == y && op % 8 == z);
    timing::law_cycles(s, op);
    if z == 0 {
        reveal(isa::conditional_returns);
    } else if z == 1 {
        reveal(isa::pops);
    } else if z == 2 {
        reveal(isa::jumps);
    } else if z == 3 {
        reveal(isa::controls);
        lemma_cb_frame(s, s.imm8() as int);
    } else if z == 6 {
        reveal(isa::immediate_ops);
        lemma_alu_frame(s.cpu, y, s.imm8());
    } else {
        reveal(isa::calls);
        reveal(isa::pushes);
        reveal(isa::restarts);
    }
}

/// Every instruction that fits leaves a sound state. Only DI, EI and RETI change whether
/// interrupts are enabled, and only HALT halts.
pub proof fn law_execute_sound(s: State, op: int)
    requires
        sound(s),
        0 <= op < 256,
        !isa::undefined(op),
        isa::fits(s, op),
    ensures
        sound(isa::execute(s, op)),
        isa::execute(s, op).cpu.inst_count == s.cpu.inst_count,
        isa::execute(s, op).mem.doctor == s.mem.doctor,
        isa::execute(s, op).cpu.ime == if op == 0xF3 {
            false
        } else if op == 0xFB || op == 0xD9 {
            true
        } else {
            s.cpu.ime
        },
        isa::execute(s, op).cpu.halt == (s.cpu.halt || op == 0x76),
        isa::execute(s, op).cpu.inst_ei == if op == 0xFB || op == 0xD9 {
            s.cpu.inst_count
        } else {
            s.cpu.inst_ei
        },
{
    let (x, y, z) = (op / 64, (op / 8) % 8, op % 8);
    if x == 0 {
        assert(op == 8 * y + z);
        lemma_sound0(s, y, z);
    } else if x == 3 {
        assert(op == 192 + 8 * y + z);
        lemma_sound3(s, y, z);
    } else {
        lemma_sound12(s, op);
    }
}

/// Every step that fits leaves a sound state, and counts one instruction.
pub proof fn law_step_sound(s: State)
    requires
        sound(s),
        isa::step_fits(s),
        !isa::stuck(s),
    ensures
        sound(isa::step(s)),
        isa::step(s).cpu.inst_count == s.cpu.inst_count + 1,
        isa::step(s).mem.doctor == s.mem.doctor,
{
    timing::law_step_time(s);
    if isa::fetches(s) {
        law_execute_sound(isa::woken(s), isa::opcode(s));
    }
}

} // verus!
