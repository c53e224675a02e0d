//! What each load, push and pop moves, and from where to where.
use vstd::prelude::*;

use crate::isa;
use crate::isa::State;
use crate::laws::raw;
use crate::memory::Ram;

verus! {

/// LD d, r copies one operand to another, for every pair but the one that would be memory twice.
pub proof fn law_load(s: State, d: int, r: int)
    requires
        raw::ready(s),
        0 <= d < 8,
        0 <= r < 8,
        !(d == 6 && r == 6),
    ensures
        ({
            let t = isa::execute(s, 0x40 + 8 * d + r);
            if d == 6 {
                raw::only_memory(s, t, s.mem.write(raw::hl(s), s.cpu.reg[r]))
            } else {
                raw::only_registers(s, t, s.cpu.reg.update(d, raw::source(s, r)))
            }
        }),
{
    let op = 0x40 + 8 * d + r;
    assert(op / 64 == 1 && (op / 8) % 8 == d && op % 8 == r);
    reveal(isa::block1);
}

/// LD d, n loads the byte behind the opcode.
pub proof fn law_load_byte(s: State, d: int)
    requires
        raw::ready(s),
        0 <= d < 8,
    ensures
        ({
            let t = isa::execute(s, 0x06 + 8 * d);
            if d == 6 {
                raw::only_memory(s, t, s.mem.write(raw::hl(s), raw::n8(s)))
            } else {
                raw::only_registers(s, t, s.cpu.reg.update(d, raw::n8(s)))
            }
        }),
{
    let op = 0x06 + 8 * d;
    assert(op / 64 == 0 && (op / 8) % 8 == d && op % 8 == 6);
    reveal(isa::immediate_loads);
}

/// The accumulator is stored where BC or DE points, and loaded from there.
pub proof fn law_load_indirect(s: State)
    requires
        raw::ready(s),
    ensures
        ({
            let bc = 256 * s.cpu.reg[0] + s.cpu.reg[1];
            let de = 256 * s.cpu.reg[2] + s.cpu.reg[3];
            let a = s.cpu.reg[7];
            &&& raw::only_memory(s, isa::execute(s, 0x02), s.mem.write(bc, a))
            &&& raw::only_memory(s, isa::execute(s, 0x12), s.mem.write(de, a))
            &&& raw::only_registers(
                s,
                isa::execute(s, 0x0A),
                s.cpu.reg.update(7, s.mem.read(bc)),
            )
            &&& raw::only_registers(
                s,
                isa::execute(s, 0x1A),
                s.cpu.reg.update(7, s.mem.read(de)),
            )
        }),
{
    reveal(isa::indirect_loads);
}

/// The accumulator is stored where HL points, or loaded from there, and HL then moves on by one
/// (22 and 2A) or back by one (32 and 3A).
#[verifier::rlimit(40)]
pub proof fn law_load_and_step(s: State)
    requires
        raw::ready(s),
    ensures
        ({
            let hl = raw::hl(s);
            let next = if hl == 0xFFFF {
                0
            } else {
                hl + 1
            };
            let prior = if hl == 0 {
                0xFFFF
            } else {
                hl - 1
            };
            let a = s.cpu.reg[7];
            let (ni, pi) = (
                s.cpu.reg.update(4, (next / 256) as u8).update(5, (next % 256) as u8),
                s.cpu.reg.update(4, (prior / 256) as u8).update(5, (prior % 256) as u8),
            );
            &&& isa::execute(s, 0x22).mem == s.mem.write(hl, a)
            &&& isa::execute(s, 0x22).cpu.reg == ni
            &&& isa::execute(s, 0x32).mem == s.mem.write(hl, a)
            &&& isa::execute(s, 0x32).cpu.reg == pi
            &&& raw::only_registers(s, isa::execute(s, 0x2A), ni.update(7, s.mem.read(hl)))
            &&& raw::only_registers(s, isa::execute(s, 0x3A), pi.update(7, s.mem.read(hl)))
        }),
{
    reveal(isa::indirect_loads);
    let hl = raw::hl(s);
    assert((hl + 1) % 0x10000 == if hl == 0xFFFF {
        0
    } else {
        hl + 1
    });
    assert((hl - 1) % 0x10000 == if hl == 0 {
        0xFFFF
    } else {
        hl - 1
    });
    assert(isa::execute(s, 0x2A).cpu.reg =~= isa::execute(s, 0x22).cpu.reg.update(
        7,
        s.mem.read(hl),
    ));
    assert(isa::execute(s, 0x3A).cpu.reg =~= isa::execute(s, 0x32).cpu.reg.update(
        7,
        s.mem.read(hl),
    ));
}

/// The accumulator goes to and from the page at FF00, at the byte behind the opcode or at C, and
/// to and from the address behind the opcode.
pub proof fn law_load_direct(s: State)
    requires
        raw::ready(s),
    ensures
        ({
            let a = s.cpu.reg[7];
            let (io, ic, nn) = (0xFF00 + raw::n8(s), 0xFF00 + s.cpu.reg[1], raw::n16(s));
            &&& raw::only_memory(s, isa::execute(s, 0xE0), s.mem.write(io, a))
            &&& raw::only_memory(s, isa::execute(s, 0xE2), s.mem.write(ic, a))
            &&& raw::only_memory(s, isa::execute(s, 0xEA), s.mem.write(nn, a))
            &&& raw::only_registers(
                s,
                isa::execute(s, 0xF0),
                s.cpu.reg.update(7, s.mem.read(io)),
            )
            &&& raw::only_registers(
                s,
                isa::execute(s, 0xF2),
                s.cpu.reg.update(7, s.mem.read(ic)),
            )
            &&& raw::only_registers(
                s,
                isa::execute(s, 0xFA),
                s.cpu.reg.update(7, s.mem.read(nn)),
            )
        }),
{
    reveal(isa::conditional_returns);
    reveal(isa::jumps);
}

/// A word lies on the stack with its high byte where SP pointed and its low byte right below, and
/// SP then points below both. It is read from the two bytes above SP.
pub proof fn law_stack_layout(mem: Ram, sp: int, w: int)
    requires
        mem.wf(),
        0 <= w <= 0xFFFF,
    ensures
        mem.pushed(sp, w) == mem.write(sp, (w / 256) as u8).write(sp - 1, (w % 256) as u8),
        mem.stack_top(sp) == 256 * mem.read(sp + 2) + mem.read(sp + 1),
{
}

/// PUSH stores BC, DE, HL or AF and moves SP down by two.
pub proof fn law_push(s: State, p: int)
    requires
        raw::ready(s),
        0 <= p < 4,
    ensures
        ({
            let t = isa::execute(s, 0xC5 + 16 * p);
            let (high, low) = if p == 3 {
                (s.cpu.reg[7], s.cpu.reg[6])
            } else {
                (s.cpu.reg[2 * p], s.cpu.reg[2 * p + 1])
            };
            &&& t.mem == s.mem.write(s.cpu.sp, high).write(s.cpu.sp - 1, low)
            &&& t.cpu.sp == s.cpu.sp - 2
            &&& t.cpu.reg == s.cpu.reg
            &&& t.cpu.ime == s.cpu.ime
            &&& t.cpu.halt == s.cpu.halt
        }),
{
    let op = 0xC5 + 16 * p;
    assert(op / 64 == 3 && (op / 8) % 8 == 2 * p && op % 8 == 5);
    assert((2 * p) / 2 == p && (2 * p) % 2 == 0);
    reveal(isa::pushes);
}

/// POP loads BC, DE, HL or AF and moves SP up by two. The low nibble of F stays empty.
pub proof fn law_pop(s: State, p: int)
    requires
        raw::ready(s),
        0 <= p < 4,
    ensures
        ({
            let t = isa::execute(s, 0xC1 + 16 * p);
            let (high, low) = (s.mem.read(s.cpu.sp + 2), s.mem.read(s.cpu.sp + 1));
            &&& t.mem == s.mem
            &&& t.cpu.sp == s.cpu.sp + 2
            &&& t.cpu.reg == if p == 3 {
                s.cpu.reg.update(7, high).update(6, (16 * (low / 16)) as u8)
            } else {
                s.cpu.reg.update(2 * p, high).update(2 * p + 1, low)
            }
            &&& t.cpu.ime == s.cpu.ime
            &&& t.cpu.halt == s.cpu.halt
        }),
{
    let op = 0xC1 + 16 * p;
    assert(op / 64 == 3 && (op / 8) % 8 == 2 * p && op % 8 == 1);
    assert((2 * p) / 2 == p && (2 * p) % 2 == 0);
    reveal(isa::pops);
}

} // verus!
