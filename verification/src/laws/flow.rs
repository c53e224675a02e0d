//! Where the program goes on after an instruction.
use vstd::prelude::*;

use crate::isa;
use crate::isa::State;

verus! {

/// Whether the instruction is a relative jump that is taken.
pub open spec fn jumps_by_offset(s: State, op: int) -> bool {
    let (x, y, z) = (op / 64, (op / 8) % 8, op % 8);
    x == 0 && z == 0 && (y == 3 || y > 3 && isa::condition(s.cpu, y - 4))
}

/// Whether the instruction is a call that is taken, or a restart.
pub open spec fn calls(s: State, op: int) -> bool {
    let (x, y, z) = (op / 64, (op / 8) % 8, op % 8);
    x == 3 && (z == 4 && isa::condition(s.cpu, y) || z == 5 && y % 2 == 1 || z == 7)
}

proof fn lemma_passes0(s: State, y: int, z: int)
    requires
        0 <= y < 8,
        0 <= z < 8,
        !jumps_by_offset(s, 8 * y + z),
    ensures
        isa::block0(s, y, z).cpu.pc == s.cpu.pc + isa::length(8 * y + z),
{
    let op = 8 * y + z;
    assert(op / 64 == 0 && (op / 8) % 8 == y && op % 8 == z);
    reveal(isa::jumps_by_offset);
    reveal(isa::word_loads);
    reveal(isa::indirect_loads);
    reveal(isa::word_steps);
    reveal(isa::increments);
    reveal(isa::decrements);
    reveal(isa::immediate_loads);
    reveal(isa::accumulator_ops);
}

proof fn lemma_passes3(s: State, y: int, z: int)
    requires
        0 <= y < 8,
        0 <= z < 8,
        !isa::undefined(192 + 8 * y + z),
        !isa::leaves(s, 192 + 8 * y + z),
        !calls(s, 192 + 8 * y + z),
    ensures
        isa::block3(s, y, z).cpu.pc == s.cpu.pc + isa::length(192 + 8 * y + z),
{
    let op = 192 + 8 * y + z;
    assert(op / 64 == 3 && (op / 8) % 8 == y && op % 8 == z);
    reveal(isa::alu_sum);
    reveal(isa::alu_logic);
    reveal(isa::conditional_returns);
    reveal(isa::pops);
    reveal(isa::jumps);
    reveal(isa::controls);
    reveal(isa::calls);
    reveal(isa::pushes);
    reveal(isa::immediate_ops);
}

/// An instruction that neither jumps, calls nor returns goes on behind itself, as many bytes
/// further as its length says.
pub proof fn law_passes_over(s: State, op: int)
    requires
        0 <= op < 256,
        !isa::undefined(op),
        !isa::leaves(s, op),
        !jumps_by_offset(s, op),
        !calls(s, op),
    ensures
        isa::execute(s, op).cpu.pc == s.cpu.pc + isa::length(op),
{
    let (x, y, z) = (op / 64, (op / 8) % 8, op % 8);
    if x == 0 {
        assert(op == 8 * y + z);
        lemma_passes0(s, y, z);
    } else if x == 3 {
        assert(op == 192 + 8 * y + z);
        lemma_passes3(s, y, z);
    } else {
        reveal(isa::block1);
        reveal(isa::block2);
        reveal(isa::alu_sum);
        reveal(isa::alu_logic);
    }
}

/// A call or restart pushes the address behind itself, and a relative jump counts from there.
pub proof fn law_place_behind(s: State, op: int)
    requires
        0 <= op < 256,
        !isa::undefined(op),
    ensures
        calls(s, op) ==> isa::execute(s, op).mem == s.mem.pushed(
            s.cpu.sp,
            s.cpu.pc + isa::length(op),
        ),
        jumps_by_offset(s, op) ==> isa::execute(s, op).cpu.pc == (s.cpu.pc + isa::length(op)
            + s.displacement()) % 0x10000,
{
    if calls(s, op) {
        reveal(isa::calls);
        reveal(isa::restarts);
    } else if jumps_by_offset(s, op) {
        reveal(isa::jumps_by_offset);
    }
}

} // verus!
