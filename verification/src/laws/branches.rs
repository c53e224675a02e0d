//! Where each jump, call and return goes, and what the control instructions switch.
use vstd::prelude::*;

use crate::cpu::Cpu;
use crate::isa;
use crate::isa::State;
use crate::laws::raw;

verus! {

/// Whether only the program counter, and the time, differ.
pub open spec fn only_place(s: State, t: State, pc: int) -> bool {
    &&& t.mem == s.mem
    &&& t.cpu == (Cpu { pc, tsc: t.cpu.tsc, ..s.cpu })
}

/// JP nn and JP HL jump, and JP cc, nn jumps if its condition holds.
pub proof fn law_jump(s: State, cc: int)
    requires
        raw::ready(s),
        0 <= cc < 4,
    ensures
        only_place(s, isa::execute(s, 0xC3), raw::n16(s)),
        only_place(s, isa::execute(s, 0xE9), raw::hl(s)),
        only_place(
            s,
            isa::execute(s, 0xC2 + 8 * cc),
            if raw::met(s, cc) {
                raw::n16(s)
            } else {
                s.cpu.pc + 3
            },
        ),
{
    let op = 0xC2 + 8 * cc;
    assert(op / 64 == 3 && (op / 8) % 8 == cc && op % 8 == 2);
    reveal(isa::controls);
    reveal(isa::pops);
    reveal(isa::jumps);
}

/// JR n jumps by a distance that counts from behind the instruction, and JR cc, n does so if its
/// condition holds.
pub proof fn law_jump_relative(s: State, cc: int)
    requires
        raw::ready(s),
        0 <= cc < 4,
    ensures
        only_place(s, isa::execute(s, 0x18), (s.cpu.pc + 2 + raw::e8(s)) % 0x10000),
        only_place(
            s,
            isa::execute(s, 0x20 + 8 * cc),
            if raw::met(s, cc) {
                (s.cpu.pc + 2 + raw::e8(s)) % 0x10000
            } else {
                s.cpu.pc + 2
            },
        ),
{
    let op = 0x20 + 8 * cc;
    assert(op / 64 == 0 && (op / 8) % 8 == cc + 4 && op % 8 == 0);
    reveal(isa::jumps_by_offset);
}

/// Whether `t` goes on at `to`, with `back` pushed on the stack.
pub open spec fn called(s: State, t: State, back: int, to: int) -> bool {
    &&& t.mem == s.mem.write(s.cpu.sp, (back / 256) as u8).write(
        s.cpu.sp - 1,
        (back % 256) as u8,
    )
    &&& t.cpu == (Cpu { pc: to, sp: s.cpu.sp - 2, tsc: t.cpu.tsc, ..s.cpu })
}

/// CALL nn pushes the address behind itself and jumps, CALL cc, nn does so if its condition holds,
/// and RST does so to one of eight fixed addresses.
pub proof fn law_call(s: State, cc: int, k: int)
    requires
        raw::ready(s),
        0 <= s.cpu.pc <= 0xFFFC,
        0 <= cc < 4,
        0 <= k < 8,
    ensures
        called(s, isa::execute(s, 0xCD), s.cpu.pc + 3, raw::n16(s)),
        raw::met(s, cc) ==> called(
            s,
            isa::execute(s, 0xC4 + 8 * cc),
            s.cpu.pc + 3,
            raw::n16(s),
        ),
        !raw::met(s, cc) ==> only_place(s, isa::execute(s, 0xC4 + 8 * cc), s.cpu.pc + 3),
        called(s, isa::execute(s, 0xC7 + 8 * k), s.cpu.pc + 1, 8 * k),
{
    let op = 0xC4 + 8 * cc;
    assert(op / 64 == 3 && (op / 8) % 8 == cc && op % 8 == 4);
    let rst = 0xC7 + 8 * k;
    assert(rst / 64 == 3 && (rst / 8) % 8 == k && rst % 8 == 7);
    reveal(isa::calls);
    reveal(isa::restarts);
}

/// Whether `t` goes on at the word that was popped.
pub open spec fn returned(s: State, t: State) -> bool {
    &&& t.mem == s.mem
    &&& t.cpu == (Cpu {
        pc: 256 * s.mem.read(s.cpu.sp + 2) + s.mem.read(s.cpu.sp + 1),
        sp: s.cpu.sp + 2,
        tsc: t.cpu.tsc,
        ime: t.cpu.ime,
        inst_ei: t.cpu.inst_ei,
        ..s.cpu
    })
}

/// RET goes on at the word that it pops, RET cc does so if its condition holds, and RETI enables
/// interrupts as well.
pub proof fn law_return(s: State, cc: int)
    requires
        raw::ready(s),
        0 <= cc < 4,
    ensures
        ({
            let (t, u, i) = (
                isa::execute(s, 0xC9),
                isa::execute(s, 0xC0 + 8 * cc),
                isa::execute(s, 0xD9),
            );
            &&& returned(s, t) && t.cpu.ime == s.cpu.ime && t.cpu.inst_ei == s.cpu.inst_ei
            &&& raw::met(s, cc) ==> returned(s, u) && u.cpu.ime == s.cpu.ime && u.cpu.inst_ei
                == s.cpu.inst_ei
            &&& !raw::met(s, cc) ==> only_place(s, u, s.cpu.pc + 1)
            &&& returned(s, i) && i.cpu.ime && i.cpu.inst_ei == s.cpu.inst_count
        }),
{
    let op = 0xC0 + 8 * cc;
    assert(op / 64 == 3 && (op / 8) % 8 == cc && op % 8 == 0);
    reveal(isa::pops);
    reveal(isa::conditional_returns);
}

/// NOP and STOP do nothing, HALT halts, DI disables interrupts, and EI enables them and remembers
/// when. None touches a register or memory.
pub proof fn law_switches(s: State)
    requires
        raw::ready(s),
    ensures
        only_place(s, isa::execute(s, 0x00), s.cpu.pc + 1),
        only_place(s, isa::execute(s, 0x10), s.cpu.pc + 2),
        isa::execute(s, 0x76).mem == s.mem,
        isa::execute(s, 0x76).cpu == (Cpu {
            halt: true,
            pc: s.cpu.pc + 1,
            tsc: s.cpu.tsc + 4,
            ..s.cpu
        }),
        isa::execute(s, 0xF3).mem == s.mem,
        isa::execute(s, 0xF3).cpu == (Cpu {
            ime: false,
            pc: s.cpu.pc + 1,
            tsc: s.cpu.tsc + 4,
            ..s.cpu
        }),
        isa::execute(s, 0xFB).mem == s.mem,
        isa::execute(s, 0xFB).cpu == (Cpu {
            ime: true,
            inst_ei: s.cpu.inst_count,
            pc: s.cpu.pc + 1,
            tsc: s.cpu.tsc + 4,
            ..s.cpu
        }),
{
    reveal(isa::jumps_by_offset);
    reveal(isa::block1);
    reveal(isa::controls);
}

} // verus!
