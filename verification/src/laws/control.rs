//! Calls, interrupts and halts over more than one step.
use vstd::prelude::*;

use crate::bits;
use crate::cpu::Cpu;
use crate::isa;
use crate::isa::State;
use crate::laws::arithmetic;
use crate::laws::invariants;
use crate::laws::storage;
use crate::memory::IF;

verus! {

/// Whether a word can be stored on the stack of a state in full.
pub open spec fn stack_keeps(s: State, w: int) -> bool {
    &&& 2 <= s.cpu.sp
    &&& storage::keeps(s.mem, s.cpu.sp, bits::high_byte(w))
    &&& storage::keeps(s.mem, s.cpu.sp - 1, bits::low_byte(w))
}

/// A return right after a call goes on behind the call, with the stack and the registers as they
/// were.
pub proof fn law_call_return(s: State, back: int, to: int)
    requires
        s.wf(),
        0 <= back < 0x10000,
        stack_keeps(s, back),
    ensures
        isa::ret(isa::call(s, back, to)) == (Cpu { pc: back, ..s.cpu }),
{
    storage::law_push_pop(s.mem, s.cpu.sp, back);
}

/// A pop right after a push of the same registers restores them and the stack.
pub proof fn law_push_pop_pair(s: State, p: int)
    requires
        invariants::sound(s),
        0 <= p < 4,
        stack_keeps(
            s,
            bits::word_of(s.cpu.reg[isa::stack_high(p)], s.cpu.reg[isa::stack_low(p)]),
        ),
    ensures
        isa::pop_pair(
            isa::push_pair(s, isa::stack_high(p), isa::stack_low(p)),
            isa::stack_high(p),
            isa::stack_low(p),
        ) == s.cpu,
{
    let (high, low) = (isa::stack_high(p), isa::stack_low(p));
    let w = bits::word_of(s.cpu.reg[high], s.cpu.reg[low]);
    storage::law_push_pop(s.mem, s.cpu.sp, w);
    assert(bits::high_byte(w) == s.cpu.reg[high] && bits::low_byte(w) == s.cpu.reg[low]);
    assert(isa::pop_pair(isa::push_pair(s, high, low), high, low).reg =~= s.cpu.reg);
}

/// Enabling interrupts takes effect after one more instruction: the step after EI or RETI serves
/// none.
pub proof fn law_enable_delay(s: State)
    requires
        invariants::sound(s),
        isa::fetches(s),
        isa::opcode(s) == 0xFB || isa::opcode(s) == 0xD9,
    ensures
        isa::step(s).cpu.ime,
        !isa::serves(isa::step(s)),
{
    reveal(isa::controls);
    reveal(isa::pops);
}

/// An interrupt that is wanted once that instruction is done is served, unless the instruction
/// itself disables interrupts or enables them anew.
pub proof fn law_enable_takes_effect(s: State)
    requires
        invariants::sound(s),
        isa::step_fits(s),
        s.cpu.ime,
        isa::fetches(s),
        !isa::stuck(s),
        isa::opcode(s) != 0xF3 && isa::opcode(s) != 0xFB && isa::opcode(s) != 0xD9,
    ensures
        isa::step(s).cpu.inst_ei == s.cpu.inst_ei,
        isa::pending(isa::step(s).mem) ==> isa::serves(isa::step(s)),
{
    invariants::law_step_sound(s);
    invariants::law_execute_sound(isa::woken(s), isa::opcode(s));
}

/// EI followed at once by DI lets no interrupt through between the two or after them.
pub proof fn law_enable_disable(s: State)
    requires
        invariants::sound(s),
        isa::fetches(s),
        isa::opcode(s) == 0xFB,
        isa::opcode(isa::step(s)) == 0xF3,
        isa::fetches(isa::step(s)),
    ensures
        !isa::serves(isa::step(s)),
        !isa::serves(isa::step(isa::step(s))),
{
    law_enable_delay(s);
    reveal(isa::controls);
}

/// No interrupt is served while interrupts are disabled, or while none is both enabled and
/// requested.
pub proof fn law_masked(s: State)
    requires
        !s.cpu.ime || !isa::pending(s.mem),
    ensures
        !isa::serves(s),
{
}

/// Serving an interrupt takes the one with the lowest number among those wanted, goes on at its
/// vector, leaves the way back on the stack, withdraws this one request and no other, and leaves
/// interrupts enabled only while another request remains.
pub proof fn law_interrupt(s: State, line: int, other: int)
    requires
        invariants::sound(s),
        isa::serves(s),
        0 <= line < 5,
        isa::wanted(s.mem, line),
        forall|l: int| 0 <= l < line ==> !#[trigger] isa::wanted(s.mem, l),
        0 <= other < 5,
        stack_keeps(s, s.cpu.pc),
        s.cpu.sp != IF,
        s.cpu.sp - 1 != IF,
    ensures
        ({
            let t = isa::step(s);
            &&& t.cpu.pc == 0x40 + 8 * line
            &&& t.cpu.sp == s.cpu.sp - 2
            &&& t.cpu.reg == s.cpu.reg
            &&& t.mem.stack_top(t.cpu.sp) == s.cpu.pc
            &&& bits::has_bit(t.mem.read(IF as int), other) == (other != line && bits::has_bit(
                s.mem.read(IF as int),
                other,
            ))
            &&& t.cpu.ime == (t.mem.read(IF as int) != 0)
            &&& !t.cpu.halt
        }),
{
    assert(isa::first_wanted(s.mem) == line) by {
        assert(line > 0 ==> !isa::wanted(s.mem, 0));
        assert(line > 1 ==> !isa::wanted(s.mem, 1));
        assert(line > 2 ==> !isa::wanted(s.mem, 2));
        assert(line > 3 ==> !isa::wanted(s.mem, 3));
    }
    let requests = s.mem.read(IF as int);
    arithmetic::law_bits(requests, line as u8, false, other as u8);
    let left = bits::with_bit(requests, line, false);
    assert(left <= requests < 32);
    let mem = s.mem.write(IF as int, left);
    assert(mem.read(IF as int) == left);
    storage::law_push_pop(mem, s.cpu.sp, s.cpu.pc);
}

/// A halt lasts while no interrupt is wanted: a step only lets time pass.
pub proof fn law_halt(s: State)
    requires
        s.cpu.halt,
        !isa::pending(s.mem),
    ensures
        isa::step(s) == (State {
            cpu: Cpu { inst_count: s.cpu.inst_count + 1, tsc: s.cpu.tsc + 4, ..s.cpu },
            mem: s.mem,
        }),
{
}

/// A wanted interrupt ends a halt even while interrupts are disabled: the program then goes on
/// behind the halt.
pub proof fn law_wake(s: State)
    requires
        s.cpu.halt,
        isa::pending(s.mem),
    ensures
        !isa::woken(s).cpu.halt,
        isa::serves(s) || isa::fetches(s),
        !s.cpu.ime ==> isa::fetches(s),
{
}

/// Eleven opcodes stand for no instruction.
pub proof fn law_undefined(op: int)
    requires
        0 <= op < 256,
    ensures
        isa::undefined(op) <==> (op == 0xD3 || op == 0xDB || op == 0xDD || op == 0xE3 || op == 0xE4
            || op == 0xEB || op == 0xEC || op == 0xED || op == 0xF4 || op == 0xFC || op == 0xFD),
{
}

} // verus!
