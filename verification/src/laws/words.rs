//! What each instruction on words computes.
use vstd::prelude::*;

use crate::isa;
use crate::isa::State;
use crate::laws::raw;

verus! {

/// The word register with the number `p`: BC, DE, HL or SP.
pub open spec fn word(s: State, p: int) -> int {
    if p == 3 {
        s.cpu.sp
    } else {
        256 * s.cpu.reg[2 * p] + s.cpu.reg[2 * p + 1]
    }
}

/// Whether the word register `p` became `w`, and nothing else changed but time and place.
pub open spec fn only_word(s: State, t: State, p: int, w: int) -> bool {
    if p == 3 {
        &&& t.cpu.sp == w
        &&& t.cpu.reg == s.cpu.reg
        &&& t.mem == s.mem
        &&& t.cpu.ime == s.cpu.ime
        &&& t.cpu.halt == s.cpu.halt
    } else {
        raw::only_registers(
            s,
            t,
            s.cpu.reg.update(2 * p, (w / 256) as u8).update(2 * p + 1, (w % 256) as u8),
        )
    }
}

/// LD rr, nn loads the word behind the opcode, whose first byte is the low one.
pub proof fn law_load_word(s: State, p: int)
    requires
        raw::ready(s),
        0 <= p < 4,
    ensures
        only_word(s, isa::execute(s, 0x01 + 16 * p), p, raw::n16(s)),
{
    let op = 0x01 + 16 * p;
    assert(op / 64 == 0 && (op / 8) % 8 == 2 * p && op % 8 == 1);
    reveal(isa::word_loads);
}

/// INC rr counts up, from FFFF to 0, and DEC rr counts down, from 0 to FFFF. The flags stay.
pub proof fn law_step_word(s: State, p: int)
    requires
        raw::ready(s),
        0 <= p < 4,
        0 <= s.cpu.sp <= 0xFFFF,
    ensures
        only_word(
            s,
            isa::execute(s, 0x03 + 16 * p),
            p,
            if word(s, p) == 0xFFFF {
                0
            } else {
                word(s, p) + 1
            },
        ),
        only_word(
            s,
            isa::execute(s, 0x0B + 16 * p),
            p,
            if word(s, p) == 0 {
                0xFFFF
            } else {
                word(s, p) - 1
            },
        ),
{
    let (up, down) = (0x03 + 16 * p, 0x0B + 16 * p);
    assert(up / 64 == 0 && (up / 8) % 8 == 2 * p && up % 8 == 3);
    assert(down / 64 == 0 && (down / 8) % 8 == 2 * p + 1 && down % 8 == 3);
    assert((2 * p + 1) / 2 == p && (2 * p + 1) % 2 == 1);
    reveal(isa::word_steps);
    let w = word(s, p);
    assert(0 <= w <= 0xFFFF);
    assert((w + 1) % 0x10000 == if w == 0xFFFF {
        0
    } else {
        w + 1
    });
    assert((w - 1) % 0x10000 == if w == 0 {
        0xFFFF
    } else {
        w - 1
    });
}

/// ADD HL, rr adds a word: the sum modulo 65536, Z as it was, N clear, H and C for a sum that
/// leaves twelve bits and sixteen.
pub proof fn law_add_word(s: State, p: int)
    requires
        raw::ready(s),
        0 <= p < 4,
        0 <= s.cpu.sp <= 0xFFFF,
    ensures
        ({
            let t = isa::execute(s, 0x09 + 16 * p);
            let (a, w) = (raw::hl(s), word(s, p));
            let sum = (a + w) % 0x10000;
            raw::only_registers(
                s,
                t,
                s.cpu.reg.update(4, (sum / 256) as u8).update(5, (sum % 256) as u8).update(
                    6,
                    raw::flags(
                        raw::z(s),
                        false,
                        a % 0x1000 + w % 0x1000 > 0xFFF,
                        a + w > 0xFFFF,
                    ),
                ),
            )
        }),
{
    let op = 0x09 + 16 * p;
    assert(op / 64 == 0 && (op / 8) % 8 == 2 * p + 1 && op % 8 == 1);
    assert((2 * p + 1) / 2 == p && (2 * p + 1) % 2 == 1);
    reveal(isa::word_loads);
    let (a, w) = (raw::hl(s), word(s, p));
    let sum = (a + w) % 0x10000;
    let f = raw::flags(raw::z(s), false, a % 0x1000 + w % 0x1000 > 0xFFF, a + w > 0xFFFF);
    assert(isa::execute(s, op).cpu.reg =~= s.cpu.reg.update(4, (sum / 256) as u8).update(
        5,
        (sum % 256) as u8,
    ).update(6, f));
}

/// ADD SP, n and LD HL, SP + n add a distance to SP, modulo 65536. Z and N are clear, and H and C
/// are those of adding the byte to the low byte of SP.
pub proof fn law_displace(s: State)
    requires
        raw::ready(s),
        0 <= s.cpu.sp <= 0xFFFF,
    ensures
        ({
            let w = (s.cpu.sp + raw::e8(s)) % 0x10000;
            let f = raw::flags(
                false,
                false,
                s.cpu.sp % 16 + raw::n8(s) % 16 > 15,
                s.cpu.sp % 256 + raw::n8(s) > 255,
            );
            let t = isa::execute(s, 0xE8);
            let u = isa::execute(s, 0xF8);
            &&& t.cpu.sp == w && t.cpu.reg == s.cpu.reg.update(6, f) && t.mem == s.mem
            &&& raw::only_registers(
                s,
                u,
                s.cpu.reg.update(4, (w / 256) as u8).update(5, (w % 256) as u8).update(6, f),
            )
        }),
{
    reveal(isa::conditional_returns);
    assert(raw::e8(s) % 16 == raw::n8(s) % 16 && raw::e8(s) % 256 == raw::n8(s));
    let w = (s.cpu.sp + raw::e8(s)) % 0x10000;
    let f = isa::execute(s, 0xE8).cpu.reg[6];
    assert(isa::execute(s, 0xF8).cpu.reg =~= s.cpu.reg.update(4, (w / 256) as u8).update(
        5,
        (w % 256) as u8,
    ).update(6, f));
}

/// LD SP, HL copies HL, and LD (nn), SP stores SP, its low byte first.
pub proof fn law_stack_pointer(s: State)
    requires
        raw::ready(s),
        0 <= s.cpu.sp <= 0xFFFF,
    ensures
        only_word(s, isa::execute(s, 0xF9), 3, raw::hl(s)),
        raw::only_memory(
            s,
            isa::execute(s, 0x08),
            s.mem.write(raw::n16(s) + 1, (s.cpu.sp / 256) as u8).write(
                raw::n16(s),
                (s.cpu.sp % 256) as u8,
            ),
        ),
{
    reveal(isa::pops);
    reveal(isa::jumps_by_offset);
}

} // verus!
