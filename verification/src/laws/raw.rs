//! Plain words for the laws about instructions: registers by their place in the register file,
//! flags by their weight in the flag register, opcodes by their number.
use vstd::prelude::*;

use crate::isa::State;
use crate::memory::Ram;

verus! {

/// There are eight registers, and a byte at every address.
pub open spec fn ready(s: State) -> bool {
    s.cpu.reg.len() == 8 && s.mem.data.len() == 0x10000
}

/// Whether the bit with the given weight is set.
pub open spec fn on(v: u8, weight: int) -> bool {
    (v as int / weight) % 2 == 1
}

/// The flag register with the given flags: Z has weight 128, N 64, H 32 and C 16.
pub open spec fn flags(z: bool, n: bool, h: bool, c: bool) -> u8 {
    ((if z {
        128int
    } else {
        0
    }) + (if n {
        64int
    } else {
        0
    }) + (if h {
        32int
    } else {
        0
    }) + (if c {
        16int
    } else {
        0
    })) as u8
}

pub open spec fn z(s: State) -> bool {
    on(s.cpu.reg[6], 128)
}

pub open spec fn n(s: State) -> bool {
    on(s.cpu.reg[6], 64)
}

pub open spec fn h(s: State) -> bool {
    on(s.cpu.reg[6], 32)
}

pub open spec fn c(s: State) -> bool {
    on(s.cpu.reg[6], 16)
}

/// The carry as a number.
pub open spec fn carry(s: State) -> int {
    if c(s) {
        1
    } else {
        0
    }
}

/// The word in HL.
pub open spec fn hl(s: State) -> int {
    256 * s.cpu.reg[4] + s.cpu.reg[5]
}

/// The byte behind the opcode.
pub open spec fn n8(s: State) -> u8 {
    s.mem.read(s.cpu.pc + 1)
}

/// The word behind the opcode, its low byte first.
pub open spec fn n16(s: State) -> int {
    s.mem.read(s.cpu.pc + 1) + 256 * s.mem.read(s.cpu.pc + 2)
}

/// The byte behind the opcode as a distance: the upper half of the bytes counts backwards.
pub open spec fn e8(s: State) -> int {
    if n8(s) >= 128 {
        n8(s) - 256
    } else {
        n8(s) as int
    }
}

/// The operand with the number `r`: a register, the byte that HL addresses (6), or the byte behind
/// the opcode (8).
pub open spec fn source(s: State, r: int) -> u8 {
    if r == 8 {
        n8(s)
    } else if r == 6 {
        s.mem.read(hl(s))
    } else {
        s.cpu.reg[r]
    }
}

/// Whether the condition holds: not zero, zero, no carry, carry.
pub open spec fn met(s: State, cc: int) -> bool {
    if cc == 0 {
        !z(s)
    } else if cc == 1 {
        z(s)
    } else if cc == 2 {
        !c(s)
    } else {
        c(s)
    }
}

/// Whether only the given registers, and the counters of time and place, differ.
pub open spec fn only_registers(s: State, t: State, reg: Seq<u8>) -> bool {
    &&& t.cpu.reg == reg
    &&& t.cpu.sp == s.cpu.sp
    &&& t.cpu.ime == s.cpu.ime
    &&& t.cpu.halt == s.cpu.halt
    &&& t.cpu.inst_count == s.cpu.inst_count
    &&& t.cpu.inst_ei == s.cpu.inst_ei
    &&& t.mem == s.mem
}

/// Whether only the given memory, and the counters of time and place, differ.
pub open spec fn only_memory(s: State, t: State, mem: Ram) -> bool {
    &&& t.cpu.reg == s.cpu.reg
    &&& t.cpu.sp == s.cpu.sp
    &&& t.cpu.ime == s.cpu.ime
    &&& t.cpu.halt == s.cpu.halt
    &&& t.cpu.inst_count == s.cpu.inst_count
    &&& t.cpu.inst_ei == s.cpu.inst_ei
    &&& t.mem == mem
}

} // verus!
