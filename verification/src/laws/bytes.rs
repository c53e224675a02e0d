//! What each instruction on bytes computes.
use vstd::prelude::*;

use crate::isa;
use crate::isa::State;
use crate::laws::raw;

verus! {

/// The opcode of the operation `k` on the accumulator and the operand `r`, where `r == 8` is the
/// byte behind the opcode.
pub open spec fn accumulator_op(k: int, r: int) -> int {
    if r == 8 {
        0xC6 + 8 * k
    } else {
        0x80 + 8 * k + r
    }
}

/// The operation behind such an opcode.
proof fn lemma_operation(s: State, k: int, r: int)
    requires
        raw::ready(s),
        0 <= k < 8,
        0 <= r <= 8,
    ensures
        ({
            let t = isa::execute(s, accumulator_op(k, r));
            let u = isa::alu(s.cpu, k, raw::source(s, r));
            &&& t.mem == s.mem
            &&& t.cpu.reg == u.reg
            &&& t.cpu.sp == u.sp
            &&& t.cpu.ime == u.ime
            &&& t.cpu.halt == u.halt
            &&& t.cpu.inst_count == u.inst_count
            &&& t.cpu.inst_ei == u.inst_ei
        }),
{
    let op = accumulator_op(k, r);
    if r == 8 {
        assert(op / 64 == 3 && (op / 8) % 8 == k && op % 8 == 6);
        reveal(isa::immediate_ops);
    } else {
        assert(op / 64 == 2 && (op / 8) % 8 == k && op % 8 == r);
        reveal(isa::block2);
    }
}

/// ADD and ADC add the operand, ADC the carry too: the sum modulo 256, Z for a sum of zero, N
/// clear, H and C for a sum that leaves four bits and eight.
pub proof fn law_add(s: State, r: int, with_carry: bool)
    requires
        raw::ready(s),
        0 <= r <= 8,
    ensures
        ({
            let k = if with_carry {
                1int
            } else {
                0
            };
            let t = isa::execute(s, accumulator_op(k, r));
            let (a, v) = (s.cpu.reg[7], raw::source(s, r));
            let c = if with_carry {
                raw::carry(s)
            } else {
                0
            };
            &&& t.cpu.reg[7] == (a + v + c) % 256
            &&& raw::only_registers(
                s,
                t,
                s.cpu.reg.update(7, t.cpu.reg[7]).update(
                    6,
                    raw::flags(
                        t.cpu.reg[7] == 0,
                        false,
                        a % 16 + v % 16 + c > 15,
                        a + v + c > 255,
                    ),
                ),
            )
        }),
{
    let k = if with_carry {
        1int
    } else {
        0
    };
    lemma_operation(s, k, r);
    reveal(isa::alu_sum);
}

/// SUB and SBC take the operand away, SBC the carry too: the difference modulo 256, Z for a
/// difference of zero, N set, H and C for a borrow from above four bits and eight.
pub proof fn law_sub(s: State, r: int, with_carry: bool)
    requires
        raw::ready(s),
        0 <= r <= 8,
    ensures
        ({
            let k = if with_carry {
                3int
            } else {
                2
            };
            let t = isa::execute(s, accumulator_op(k, r));
            let (a, v) = (s.cpu.reg[7], raw::source(s, r));
            let c = if with_carry {
                raw::carry(s)
            } else {
                0
            };
            &&& t.cpu.reg[7] == (a - v - c) % 256
            &&& raw::only_registers(
                s,
                t,
                s.cpu.reg.update(7, t.cpu.reg[7]).update(
                    6,
                    raw::flags(t.cpu.reg[7] == 0, true, a % 16 < v % 16 + c, a < v + c),
                ),
            )
        }),
{
    let k = if with_carry {
        3int
    } else {
        2
    };
    lemma_operation(s, k, r);
    reveal(isa::alu_sum);
}

/// CP sets the flags that SUB would set, and changes nothing else.
pub proof fn law_cp(s: State, r: int)
    requires
        raw::ready(s),
        0 <= r <= 8,
    ensures
        ({
            let t = isa::execute(s, accumulator_op(7, r));
            let (a, v) = (s.cpu.reg[7], raw::source(s, r));
            raw::only_registers(
                s,
                t,
                s.cpu.reg.update(6, raw::flags(a == v, true, a % 16 < v % 16, a < v)),
            )
        }),
{
    lemma_operation(s, 7, r);
    reveal(isa::alu_logic);
}

/// The bits of a conjunction, an exclusive or and a disjunction, and when these are zero.
proof fn lemma_logic(a: u8, v: u8, i: u8)
    by (bit_vector)
    requires
        i < 8,
    ensures
        ((a & v) >> i) & 1 == 1 <==> ((a >> i) & 1 == 1 && (v >> i) & 1 == 1),
        ((a ^ v) >> i) & 1 == 1 <==> ((a >> i) & 1 != (v >> i) & 1),
        ((a | v) >> i) & 1 == 1 <==> ((a >> i) & 1 == 1 || (v >> i) & 1 == 1),
        a ^ v == 0 <==> a == v,
        a | v == 0 <==> a == 0 && v == 0,
        a & v <= a && a & v <= v,
        a | v >= a && a | v >= v,
{
}

/// AND keeps the bits that both operands have. Z is set exactly for a result of zero, H always; N
/// and C are clear.
pub proof fn law_and(s: State, r: int, i: u8)
    requires
        raw::ready(s),
        0 <= r <= 8,
        i < 8,
    ensures
        ({
            let t = isa::execute(s, accumulator_op(4, r));
            let (a, v, w) = (s.cpu.reg[7], raw::source(s, r), t.cpu.reg[7]);
            &&& (w >> i) & 1 == 1 <==> (a >> i) & 1 == 1 && (v >> i) & 1 == 1
            &&& raw::only_registers(
                s,
                t,
                s.cpu.reg.update(7, w).update(6, raw::flags(w == 0, false, true, false)),
            )
        }),
{
    lemma_operation(s, 4, r);
    reveal(isa::alu_logic);
    lemma_logic(s.cpu.reg[7], raw::source(s, r), i);
}

/// XOR keeps the bits in which the operands differ. Z is set exactly for a result of zero, which
/// is the case exactly for equal operands; N, H and C are clear.
pub proof fn law_xor(s: State, r: int, i: u8)
    requires
        raw::ready(s),
        0 <= r <= 8,
        i < 8,
    ensures
        ({
            let t = isa::execute(s, accumulator_op(5, r));
            let (a, v, w) = (s.cpu.reg[7], raw::source(s, r), t.cpu.reg[7]);
            &&& (w >> i) & 1 == 1 <==> (a >> i) & 1 != (v >> i) & 1
            &&& w == 0 <==> a == v
            &&& raw::only_registers(
                s,
                t,
                s.cpu.reg.update(7, w).update(6, raw::flags(a == v, false, false, false)),
            )
        }),
{
    lemma_operation(s, 5, r);
    reveal(isa::alu_logic);
    lemma_logic(s.cpu.reg[7], raw::source(s, r), i);
}

/// OR keeps the bits that one of the operands has. Z is set exactly for a result of zero, which is
/// the case exactly if both operands are zero; N, H and C are clear.
pub proof fn law_or(s: State, r: int, i: u8)
    requires
        raw::ready(s),
        0 <= r <= 8,
        i < 8,
    ensures
        ({
            let t = isa::execute(s, accumulator_op(6, r));
            let (a, v, w) = (s.cpu.reg[7], raw::source(s, r), t.cpu.reg[7]);
            &&& (w >> i) & 1 == 1 <==> (a >> i) & 1 == 1 || (v >> i) & 1 == 1
            &&& w == 0 <==> a == 0 && v == 0
            &&& raw::only_registers(
                s,
                t,
                s.cpu.reg.update(7, w).update(6, raw::flags(a == 0 && v == 0, false, false, false)),
            )
        }),
{
    lemma_operation(s, 6, r);
    reveal(isa::alu_logic);
    lemma_logic(s.cpu.reg[7], raw::source(s, r), i);
}

/// INC r and INC (HL) count up, from 255 to 0. Z is set for 0, N is clear, H is set when the low
/// nibble starts over, and C stays.
pub proof fn law_inc(s: State, r: int)
    requires
        raw::ready(s),
        0 <= r < 8,
    ensures
        ({
            let t = isa::execute(s, 8 * r + 4);
            let v = raw::source(s, r);
            let w: u8 = if v == 255 {
                0
            } else {
                (v + 1) as u8
            };
            let f = raw::flags(w == 0, false, w % 16 == 0, raw::c(s));
            &&& t.cpu.reg == if r == 6 {
                s.cpu.reg.update(6, f)
            } else {
                s.cpu.reg.update(r, w).update(6, f)
            }
            &&& t.mem == if r == 6 {
                s.mem.write(raw::hl(s), w)
            } else {
                s.mem
            }
            &&& t.cpu.sp == s.cpu.sp
        }),
{
    let op = 8 * r + 4;
    assert(op / 64 == 0 && (op / 8) % 8 == r && op % 8 == 4);
    reveal(isa::increments);
}

/// DEC r and DEC (HL) count down, from 0 to 255. Z is set for 0, N is set, H is set when the low
/// nibble starts over, and C stays.
pub proof fn law_dec(s: State, r: int)
    requires
        raw::ready(s),
        0 <= r < 8,
    ensures
        ({
            let t = isa::execute(s, 8 * r + 5);
            let v = raw::source(s, r);
            let w: u8 = if v == 0 {
                255
            } else {
                (v - 1) as u8
            };
            let f = raw::flags(w == 0, true, w % 16 == 15, raw::c(s));
            &&& t.cpu.reg == if r == 6 {
                s.cpu.reg.update(6, f)
            } else {
                s.cpu.reg.update(r, w).update(6, f)
            }
            &&& t.mem == if r == 6 {
                s.mem.write(raw::hl(s), w)
            } else {
                s.mem
            }
            &&& t.cpu.sp == s.cpu.sp
        }),
{
    let op = 8 * r + 5;
    assert(op / 64 == 0 && (op / 8) % 8 == r && op % 8 == 5);
    reveal(isa::decrements);
}

/// CPL turns A into 255 - A and sets N and H. SCF sets the carry, CCF inverts it; both clear N and
/// H. The other flags stay.
pub proof fn law_complements(s: State)
    requires
        raw::ready(s),
    ensures
        raw::only_registers(
            s,
            isa::execute(s, 0x2F),
            s.cpu.reg.update(7, (255 - s.cpu.reg[7]) as u8).update(
                6,
                raw::flags(raw::z(s), true, true, raw::c(s)),
            ),
        ),
        raw::only_registers(
            s,
            isa::execute(s, 0x37),
            s.cpu.reg.update(6, raw::flags(raw::z(s), false, false, true)),
        ),
        raw::only_registers(
            s,
            isa::execute(s, 0x3F),
            s.cpu.reg.update(6, raw::flags(raw::z(s), false, false, !raw::c(s))),
        ),
{
    reveal(isa::accumulator_ops);
}

/// DAA adds 6 to a low nibble that is above 9 or gave a half carry, and 0x60 to an accumulator
/// that is above 0x99 or gave a carry. After a subtraction it takes them away instead, and only
/// for the half carry and the carry. Z is set for zero, N stays, H is clear, and C tells whether
/// 0x60 was due.
pub proof fn law_daa(s: State)
    requires
        raw::ready(s),
    ensures
        ({
            let t = isa::execute(s, 0x27);
            let (a, w) = (s.cpu.reg[7], t.cpu.reg[7]);
            let low = if raw::h(s) || (!raw::n(s) && a % 16 >= 10) {
                6int
            } else {
                0
            };
            let high = raw::c(s) || (!raw::n(s) && a >= 0x9A);
            let offset = low + (if high {
                0x60int
            } else {
                0
            });
            &&& !raw::n(s) ==> (w - a - offset) % 256 == 0
            &&& raw::n(s) ==> (w - a + offset) % 256 == 0
            &&& raw::only_registers(
                s,
                t,
                s.cpu.reg.update(7, w).update(6, raw::flags(w == 0, raw::n(s), false, high)),
            )
        }),
{
    reveal(isa::accumulator_ops);
}

} // verus!
