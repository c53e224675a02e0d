//! How far and how long each opcode goes.
use vstd::prelude::*;

use crate::isa;
use crate::isa::State;
use crate::laws::flow;
use crate::laws::raw;
use crate::laws::timing;

verus! {

/// The opcodes after which the program may go on elsewhere, and STOP.
pub open spec fn branching(op: int) -> bool {
    op == 0x10 || op == 0x18 || op == 0x20 || op == 0x28 || op == 0x30 || op == 0x38
        || op == 0xC0 || op == 0xC8 || op == 0xD0 || op == 0xD8 || op == 0xC9 || op == 0xD9
        || op == 0xC2 || op == 0xCA || op == 0xD2 || op == 0xDA || op == 0xC3 || op == 0xE9
        || op == 0xC4 || op == 0xCC || op == 0xD4 || op == 0xDC || op == 0xCD || op == 0xC7
        || op == 0xCF || op == 0xD7 || op == 0xDF || op == 0xE7 || op == 0xEF || op == 0xF7
        || op == 0xFF
}

/// The number of bytes of the other instructions.
pub open spec fn bytes(op: int) -> int {
    if op == 0x01 || op == 0x11 || op == 0x21 || op == 0x31 || op == 0x08 || op == 0xEA
        || op == 0xFA {
        3
    } else if op == 0x06 || op == 0x0E || op == 0x16 || op == 0x1E || op == 0x26
        || op == 0x2E || op == 0x36 || op == 0x3E || op == 0xC6 || op == 0xCE || op == 0xD6
        || op == 0xDE || op == 0xE6 || op == 0xEE || op == 0xF6 || op == 0xFE || op == 0xE0
        || op == 0xF0 || op == 0xE8 || op == 0xF8 || op == 0xCB {
        2
    } else {
        1
    }
}

/// An instruction that is not a branch goes on right behind its bytes.
pub proof fn law_bytes(s: State, op: int)
    requires
        raw::ready(s),
        0 <= op < 256,
        !isa::undefined(op),
        !branching(op),
    ensures
        isa::execute(s, op).cpu.pc == s.cpu.pc + bytes(op),
{
    flow::law_passes_over(s, op);
}

/// The number of cycles of an instruction. Four conditional families take longer when their
/// condition holds, and behind the prefix memory takes longer than registers.
pub open spec fn cycles(s: State, op: int) -> int {
    if op == 0x10 {
        0
    } else if op == 0x20 || op == 0x28 || op == 0x30 || op == 0x38 {
        if raw::met(s, (op - 0x20) / 8) {
            12
        } else {
            8
        }
    } else if op == 0xC2 || op == 0xCA || op == 0xD2 || op == 0xDA {
        if raw::met(s, (op - 0xC2) / 8) {
            16
        } else {
            12
        }
    } else if op == 0xC4 || op == 0xCC || op == 0xD4 || op == 0xDC {
        if raw::met(s, (op - 0xC4) / 8) {
            24
        } else {
            12
        }
    } else if op == 0xC0 || op == 0xC8 || op == 0xD0 || op == 0xD8 {
        if raw::met(s, (op - 0xC0) / 8) {
            20
        } else {
            8
        }
    } else if op == 0xCB {
        if raw::n8(s) % 8 != 6 {
            8
        } else if 0x40 <= raw::n8(s) < 0x80 {
            12
        } else {
            16
        }
    } else if op == 0xCD {
        24
    } else if op == 0x08 {
        20
    } else if op == 0xC5 || op == 0xD5 || op == 0xE5 || op == 0xF5 || op == 0xC9
        || op == 0xD9 || op == 0xC3 || op == 0xEA || op == 0xFA || op == 0xE8 || op == 0xC7
        || op == 0xCF || op == 0xD7 || op == 0xDF || op == 0xE7 || op == 0xEF || op == 0xF7
        || op == 0xFF {
        16
    } else if op == 0x01 || op == 0x11 || op == 0x21 || op == 0x31 || op == 0x34
        || op == 0x35 || op == 0x36 || op == 0x18 || op == 0xC1 || op == 0xD1 || op == 0xE1
        || op == 0xF1 || op == 0xE0 || op == 0xF0 || op == 0xF8 {
        12
    } else if op == 0x02 || op == 0x12 || op == 0x22 || op == 0x32 || op == 0x0A
        || op == 0x1A || op == 0x2A || op == 0x3A || op == 0x03 || op == 0x13 || op == 0x23
        || op == 0x33 || op == 0x0B || op == 0x1B || op == 0x2B || op == 0x3B || op == 0x09
        || op == 0x19 || op == 0x29 || op == 0x39 || op == 0x06 || op == 0x0E || op == 0x16
        || op == 0x1E || op == 0x26 || op == 0x2E || op == 0x3E || op == 0x46 || op == 0x4E
        || op == 0x56 || op == 0x5E || op == 0x66 || op == 0x6E || op == 0x7E || op == 0x70
        || op == 0x71 || op == 0x72 || op == 0x73 || op == 0x74 || op == 0x75 || op == 0x77
        || op == 0x86 || op == 0x8E || op == 0x96 || op == 0x9E || op == 0xA6 || op == 0xAE
        || op == 0xB6 || op == 0xBE || op == 0xC6 || op == 0xCE || op == 0xD6 || op == 0xDE
        || op == 0xE6 || op == 0xEE || op == 0xF6 || op == 0xFE || op == 0xE2 || op == 0xF2
        || op == 0xF9 {
        8
    } else {
        4
    }
}

/// Every instruction takes its number of cycles.
pub proof fn law_cycle_counts(s: State, op: int)
    requires
        raw::ready(s),
        0 <= op < 256,
        !isa::undefined(op),
    ensures
        isa::execute(s, op).cpu.tsc == s.cpu.tsc + cycles(s, op),
        isa::cycles(s, op) == cycles(s, op),
{
    timing::law_cycles(s, op);
    let (x, y, z) = (op / 64, (op / 8) % 8, op % 8);
    assert(op == 64 * x + 8 * y + z);
}

/// How many bytes behind the opcode lies the last address that an instruction forms, be it of an
/// operand or of the place behind itself.
pub open spec fn reach(s: State, op: int) -> int {
    if !branching(op) {
        bytes(op)
    } else if op == 0xC9 || op == 0xD9 || op == 0xE9 {
        0
    } else if op == 0xC0 || op == 0xC8 || op == 0xD0 || op == 0xD8 {
        if raw::met(s, (op - 0xC0) / 8) {
            0
        } else {
            1
        }
    } else if op % 8 == 7 {
        1
    } else if op == 0xC2 || op == 0xCA || op == 0xD2 || op == 0xDA {
        if raw::met(s, (op - 0xC2) / 8) {
            2
        } else {
            3
        }
    } else if op < 0x40 || op == 0xC3 {
        2
    } else {
        3
    }
}

/// Whether the opcode pushes a word.
pub open spec fn pushing(s: State, op: int) -> bool {
    ||| op == 0xC5 || op == 0xD5 || op == 0xE5 || op == 0xF5 || op == 0xCD
    ||| op >= 0xC0 && op % 8 == 7
    ||| (op == 0xC4 || op == 0xCC || op == 0xD4 || op == 0xDC) && raw::met(s, (op - 0xC4) / 8)
}

/// Whether the opcode pops a word.
pub open spec fn popping(s: State, op: int) -> bool {
    ||| op == 0xC1 || op == 0xD1 || op == 0xE1 || op == 0xF1 || op == 0xC9 || op == 0xD9
    ||| (op == 0xC0 || op == 0xC8 || op == 0xD0 || op == 0xD8) && raw::met(s, (op - 0xC0) / 8)
}

/// An instruction can be executed exactly if it forms no address above FFFF, its stack has room,
/// and the time can be counted. Nothing else stands in its way.
pub proof fn law_fits(s: State, op: int)
    requires
        raw::ready(s),
        0 <= op < 256,
        !isa::undefined(op),
    ensures
        isa::fits(s, op) <==> {
            &&& s.cpu.pc + reach(s, op) <= 0xFFFF
            &&& pushing(s, op) ==> s.cpu.sp >= 2
            &&& popping(s, op) ==> s.cpu.sp <= 0xFFFD
            &&& op == 0x08 ==> raw::n16(s) < 0xFFFF
            &&& s.cpu.tsc + cycles(s, op) <= u64::MAX
        },
{
    law_cycle_counts(s, op);
    let (x, y, z) = (op / 64, (op / 8) % 8, op % 8);
    assert(op == 64 * x + 8 * y + z);
    assert(isa::leaves(s, op) ==> isa::operand_count(op) == reach(s, op));
    assert(!isa::leaves(s, op) ==> isa::length(op) == reach(s, op));
    assert(isa::pushes_word(s, op) == pushing(s, op));
    assert(isa::pops_word(s, op) == popping(s, op));
}

} // verus!
