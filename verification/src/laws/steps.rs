//! What a step of the processor does: which interrupt it serves, and what it does otherwise.
use vstd::prelude::*;

use crate::bits;
use crate::cpu::Cpu;
use crate::isa;
use crate::isa::State;
use crate::laws::raw;
use crate::memory::Ram;

verus! {

/// The weight of the bit that belongs to an interrupt, in the registers at FFFF (enabled) and FF0F
/// (requested).
pub open spec fn weight(line: int) -> int {
    if line == 0 {
        1
    } else if line == 1 {
        2
    } else if line == 2 {
        4
    } else if line == 3 {
        8
    } else {
        16
    }
}

/// Whether an interrupt is both enabled and requested.
pub open spec fn due(mem: Ram, line: int) -> bool {
    raw::on(mem.data[0xFFFF], weight(line)) && raw::on(mem.data[0xFF0F], weight(line))
}

/// Whether any of the five interrupts is.
pub open spec fn any_due(mem: Ram) -> bool {
    due(mem, 0) || due(mem, 1) || due(mem, 2) || due(mem, 3) || due(mem, 4)
}

proof fn lemma_due(mem: Ram, line: int)
    requires
        mem.wf(),
        0 <= line < 5,
    ensures
        isa::wanted(mem, line) == due(mem, line),
{
    lemma_low_bits(mem.data[0xFFFF], line);
    lemma_low_bits(mem.data[0xFF0F], line);
}

proof fn lemma_low_bits(v: u8, line: int)
    requires
        0 <= line < 5,
    ensures
        bits::has_bit((v % 32) as u8, line) == raw::on(v, weight(line)),
{
    lemma_low_five(v);
}

proof fn lemma_low_five(v: u8)
    by (bit_vector)
    ensures
        (v % 32) % 2 == v % 2,
        ((v % 32) / 2) % 2 == (v / 2) % 2,
        ((v % 32) / 4) % 2 == (v / 4) % 2,
        ((v % 32) / 8) % 2 == (v / 8) % 2,
        ((v % 32) / 16) % 2 == (v / 16) % 2,
{
}

proof fn lemma_any_due(mem: Ram)
    requires
        mem.wf(),
    ensures
        isa::pending(mem) == any_due(mem),
{
    lemma_due(mem, 0);
    lemma_due(mem, 1);
    lemma_due(mem, 2);
    lemma_due(mem, 3);
    lemma_due(mem, 4);
}

/// A step serves an interrupt exactly if interrupts are enabled, an instruction has passed since
/// they were, and one is due.
pub proof fn law_serves(s: State)
    requires
        s.mem.wf(),
    ensures
        isa::serves(s) <==> s.cpu.ime && s.cpu.inst_count > s.cpu.inst_ei && any_due(s.mem),
{
    lemma_any_due(s.mem);
}

/// Serving the first interrupt that is due withdraws its request, pushes the program counter, and
/// goes on at 40, 48, 50, 58 or 60. It takes 20 cycles, ends a halt, and leaves interrupts enabled
/// only while requests remain.
pub proof fn law_served(s: State, line: int)
    requires
        raw::ready(s),
        0 <= s.cpu.pc <= 0xFFFF,
        isa::serves(s),
        0 <= line < 5,
        due(s.mem, line),
        forall|l: int| 0 <= l < line ==> !#[trigger] due(s.mem, l),
    ensures
        ({
            let t = isa::step(s);
            &&& t.mem == s.mem.write(
                0xFF0F,
                (s.mem.data[0xFF0F] % 32 - weight(line)) as u8,
            ).write(s.cpu.sp, (s.cpu.pc / 256) as u8).write(
                s.cpu.sp - 1,
                (s.cpu.pc % 256) as u8,
            )
            &&& t.cpu == (Cpu {
                pc: 0x40 + 8 * line,
                sp: s.cpu.sp - 2,
                tsc: s.cpu.tsc + 20,
                inst_count: s.cpu.inst_count + 1,
                halt: false,
                ime: t.mem.data[0xFF0F] % 32 != 0,
                ..s.cpu
            })
        }),
{
    lemma_any_due(s.mem);
    lemma_due(s.mem, 0);
    lemma_due(s.mem, 1);
    lemma_due(s.mem, 2);
    lemma_due(s.mem, 3);
    lemma_due(s.mem, 4);
    assert(line > 0 ==> !due(s.mem, 0));
    assert(line > 1 ==> !due(s.mem, 1));
    assert(line > 2 ==> !due(s.mem, 2));
    assert(line > 3 ==> !due(s.mem, 3));
    lemma_low_bits(s.mem.data[0xFF0F], line);
    assert(bits::bit_weight(line) == weight(line));
}

/// A step that serves nothing counts an instruction, and passes 4 cycles if the processor is
/// halted and no interrupt is due. Otherwise it executes the instruction at the program counter.
pub proof fn law_not_served(s: State)
    requires
        s.mem.wf(),
        !isa::serves(s),
    ensures
        s.cpu.halt && !any_due(s.mem) ==> isa::step(s) == (State {
            cpu: Cpu { tsc: s.cpu.tsc + 4, inst_count: s.cpu.inst_count + 1, ..s.cpu },
            mem: s.mem,
        }),
        !s.cpu.halt || any_due(s.mem) ==> isa::fetches(s) && isa::step(s) == isa::execute(
            State {
                cpu: Cpu { inst_count: s.cpu.inst_count + 1, halt: false, ..s.cpu },
                mem: s.mem,
            },
            s.mem.read(s.cpu.pc) as int,
        ),
{
    lemma_any_due(s.mem);
}

/// A step fails exactly if it would execute one of the eleven opcodes that stand for nothing.
pub proof fn law_stuck(s: State)
    requires
        s.mem.wf(),
    ensures
        ({
            let op = s.mem.read(s.cpu.pc);
            isa::stuck(s) <==> {
                &&& !isa::serves(s)
                &&& !s.cpu.halt || any_due(s.mem)
                &&& (op == 0xD3 || op == 0xDB || op == 0xDD || op == 0xE3 || op == 0xE4 || op
                    == 0xEB || op == 0xEC || op == 0xED || op == 0xF4 || op == 0xFC || op == 0xFD)
            }
        }),
{
    lemma_any_due(s.mem);
}

/// A step can be taken exactly if the counters can be counted on and what it does fits.
pub proof fn law_step_fits(s: State)
    requires
        s.mem.wf(),
        s.cpu.inst_ei <= s.cpu.inst_count < u64::MAX,
        !isa::stuck(s),
    ensures
        isa::serves(s) ==> (isa::step_fits(s) <==> s.cpu.sp >= 2 && s.cpu.tsc + 20 <= u64::MAX),
        !isa::serves(s) && s.cpu.halt && !any_due(s.mem) ==> (isa::step_fits(s) <==> s.cpu.tsc + 4
            <= u64::MAX),
        !isa::serves(s) && (!s.cpu.halt || any_due(s.mem)) ==> (isa::step_fits(s) <==> isa::fits(
            State {
                cpu: Cpu { inst_count: s.cpu.inst_count + 1, halt: false, ..s.cpu },
                mem: s.mem,
            },
            s.mem.read(s.cpu.pc) as int,
        )),
{
    lemma_any_due(s.mem);
}

} // verus!
