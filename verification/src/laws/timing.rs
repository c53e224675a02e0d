//! How long instructions take, and what none of them touches.
use vstd::prelude::*;

use crate::isa;
use crate::isa::State;

verus! {

/// Instructions from 00 to 3F take the cycles that the table gives.
proof fn lemma_cycles0(s: State, y: int, z: int)
    requires
        0 <= y < 8,
        0 <= z < 8,
    ensures
        isa::block0(s, y, z).cpu.tsc == s.cpu.tsc + isa::cycles0(s, y, z),
{
    reveal(isa::jumps_by_offset);
    reveal(isa::word_loads);
    reveal(isa::indirect_loads);
    reveal(isa::word_steps);
    reveal(isa::increments);
    reveal(isa::decrements);
    reveal(isa::immediate_loads);
    reveal(isa::accumulator_ops);
}

/// Instructions from C0 to FF take the cycles that the table gives.
proof fn lemma_cycles3(s: State, y: int, z: int)
    requires
        0 <= y < 8,
        0 <= z < 8,
        !isa::undefined(192 + 8 * y + z),
    ensures
        isa::block3(s, y, z).cpu.tsc == s.cpu.tsc + isa::cycles3(s, y, z),
{
    reveal(isa::alu_sum);
    reveal(isa::alu_logic);
    reveal(isa::conditional_returns);
    reveal(isa::pops);
    reveal(isa::jumps);
    reveal(isa::controls);
    reveal(isa::calls);
    reveal(isa::pushes);
    reveal(isa::immediate_ops);
    reveal(isa::restarts);
}

/// An instruction takes the number of cycles that the table gives: whole machine cycles of four
/// clock cycles each, from one of them to six, but none for STOP.
pub proof fn law_cycles(s: State, op: int)
    requires
        0 <= op < 256,
        !isa::undefined(op),
    ensures
        isa::execute(s, op).cpu.tsc == s.cpu.tsc + isa::cycles(s, op),
        isa::cycles(s, op) % 4 == 0,
        op == 0x10 ==> isa::cycles(s, op) == 0,
        op != 0x10 ==> 4 <= isa::cycles(s, op) <= 24,
{
    let (x, y, z) = (op / 64, (op / 8) % 8, op % 8);
    if x == 0 {
        lemma_cycles0(s, y, z);
    } else if x == 3 {
        lemma_cycles3(s, y, z);
    } else {
        reveal(isa::block1);
        reveal(isa::block2);
        reveal(isa::alu_sum);
        reveal(isa::alu_logic);
    }
}

/// A step takes whole machine cycles: five to serve an interrupt, one in a halt, and otherwise
/// what the instruction takes. Time never runs backwards.
pub proof fn law_step_time(s: State)
    requires
        !isa::stuck(s),
    ensures
        isa::serves(s) ==> isa::step(s).cpu.tsc == s.cpu.tsc + 20,
        !isa::serves(s) && !isa::fetches(s) ==> isa::step(s).cpu.tsc == s.cpu.tsc + 4,
        isa::fetches(s) ==> isa::step(s).cpu.tsc == s.cpu.tsc + isa::cycles(
            isa::woken(s),
            isa::opcode(s),
        ),
        (isa::step(s).cpu.tsc - s.cpu.tsc) % 4 == 0,
        s.cpu.tsc <= isa::step(s).cpu.tsc <= s.cpu.tsc + 24,
{
    if isa::fetches(s) {
        law_cycles(isa::woken(s), isa::opcode(s));
    }
}

} // verus!
