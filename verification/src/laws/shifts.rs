//! What each rotation, shift and single bit instruction computes.
use vstd::prelude::*;

use crate::bits;
use crate::isa;
use crate::isa::State;
use crate::laws::raw;

verus! {

/// How a rotation or shift takes `v` and the carry `c` to `w` and the carry `d`, as equations
/// between numbers. The kinds are RLC, RRC, RL, RR, SLA, SRA, SWAP and SRL.
pub open spec fn turned(kind: int, v: u8, c: int, w: u8, d: int) -> bool {
    if kind == 0 {
        w + 255 * d == 2 * v
    } else if kind == 1 {
        2 * w == v + 255 * d
    } else if kind == 2 {
        256 * d + w == 2 * v + c
    } else if kind == 3 {
        2 * w + d == v + 256 * c
    } else if kind == 4 {
        256 * d + w == 2 * v
    } else if kind == 5 {
        2 * w + d == if v >= 128 {
            v + 256
        } else {
            v as int
        }
    } else if kind == 6 {
        w % 16 == v / 16 && w / 16 == v % 16 && d == 0
    } else {
        2 * w + d == v
    }
}

/// The carry that a flag register holds, as a number.
pub open spec fn carry_of(f: u8) -> int {
    if raw::on(f, 16) {
        1
    } else {
        0
    }
}

proof fn lemma_turned(kind: int, v: u8, c: bool)
    requires
        0 <= kind < 8,
    ensures
        turned(
            kind,
            v,
            bits::digit(c),
            isa::rotated(kind, v, c),
            bits::digit(isa::rotated_out(kind, v)),
        ),
{
}

proof fn lemma_carry_of(z: bool, n: bool, h: bool, c: bool)
    ensures
        carry_of(raw::flags(z, n, h, c)) == bits::digit(c),
        raw::flags(z, n, h, c) == bits::flag_byte(z, n, h, c),
{
}

/// RLCA, RRCA, RLA and RRA turn the accumulator. Z, N and H are clear, and C takes the bit that
/// left.
pub proof fn law_turn_accumulator(s: State, kind: int)
    requires
        raw::ready(s),
        0 <= kind < 4,
    ensures
        ({
            let t = isa::execute(s, 8 * kind + 7);
            let d = carry_of(t.cpu.reg[6]);
            &&& turned(kind, s.cpu.reg[7], raw::carry(s), t.cpu.reg[7], d)
            &&& raw::only_registers(
                s,
                t,
                s.cpu.reg.update(7, t.cpu.reg[7]).update(
                    6,
                    raw::flags(false, false, false, d == 1),
                ),
            )
        }),
{
    let op = 8 * kind + 7;
    assert(op / 64 == 0 && (op / 8) % 8 == kind && op % 8 == 7);
    reveal(isa::accumulator_ops);
    let out = isa::rotated_out(kind, s.cpu.reg[7]);
    lemma_turned(kind, s.cpu.reg[7], raw::c(s));
    lemma_carry_of(false, false, false, out);
}

/// The eight rotations and shifts behind the prefix turn a register, or the byte that HL
/// addresses. Z is set exactly for a result of zero, N and H are clear, and C takes the bit that
/// left.
pub proof fn law_turn(s: State, kind: int, r: int)
    requires
        raw::ready(s),
        0 <= kind < 8,
        0 <= r < 8,
        raw::n8(s) == 8 * kind + r,
    ensures
        ({
            let t = isa::execute(s, 0xCB);
            let v = raw::source(s, r);
            let d = carry_of(t.cpu.reg[6]);
            &&& r != 6 ==> turned(kind, v, raw::carry(s), t.cpu.reg[r], d) && raw::only_registers(
                s,
                t,
                s.cpu.reg.update(r, t.cpu.reg[r]).update(
                    6,
                    raw::flags(t.cpu.reg[r] == 0, false, false, d == 1),
                ),
            )
            &&& r == 6 ==> exists|w: u8| #[trigger]
                turned(kind, v, raw::carry(s), w, d) && t.mem == s.mem.write(raw::hl(s), w)
                    && t.cpu.reg == s.cpu.reg.update(
                    6,
                    raw::flags(
                        if kind == 2 {
                            t.mem.read(raw::hl(s)) == 0
                        } else {
                            w == 0
                        },
                        false,
                        false,
                        d == 1,
                    ),
                ) && t.cpu.sp == s.cpu.sp
        }),
{
    let op = raw::n8(s) as int;
    assert(op / 64 == 0 && (op / 8) % 8 == kind && op % 8 == r);
    reveal(isa::controls);
    let v = raw::source(s, r);
    let w = isa::rotated(kind, v, raw::c(s));
    let out = isa::rotated_out(kind, v);
    lemma_turned(kind, v, raw::c(s));
    let z = if r == 6 && kind == 2 {
        s.mem.write(raw::hl(s), w).read(raw::hl(s)) == 0
    } else {
        w == 0
    };
    lemma_carry_of(z, false, false, out);
    let t = isa::execute(s, 0xCB);
    assert(t == isa::cb(s, op));
    if r == 6 {
        assert(t.cpu.reg =~= s.cpu.reg.update(6, raw::flags(z, false, false, out)));
        assert(turned(kind, v, raw::carry(s), w, carry_of(t.cpu.reg[6])));
    } else {
        assert(t.cpu.reg =~= s.cpu.reg.update(r, w).update(
            6,
            raw::flags(z, false, false, out),
        ));
    }
}

/// BIT on a register clears Z and N, sets H and keeps C. BIT on the byte that HL addresses sets Z
/// exactly if the bit is clear.
pub proof fn law_bit(s: State, i: u8, r: int)
    requires
        raw::ready(s),
        i < 8,
        0 <= r < 8,
        raw::n8(s) == 0x40 + 8 * i + r,
    ensures
        raw::only_registers(
            s,
            isa::execute(s, 0xCB),
            s.cpu.reg.update(
                6,
                raw::flags(r == 6 && (raw::source(s, 6) >> i) & 1 == 0, false, true, raw::c(s)),
            ),
        ),
{
    let op = raw::n8(s) as int;
    assert(op / 64 == 1 && (op / 8) % 8 == i && op % 8 == r);
    reveal(isa::controls);
    bits::lemma_bit_mask(raw::source(s, 6), i);
}

/// RES clears one bit and SET sets one, in a register or in the byte that HL addresses. The other
/// bits, the flags and everything else stay.
pub proof fn law_res_set(s: State, i: u8, r: int, set: bool)
    requires
        raw::ready(s),
        i < 8,
        0 <= r < 8,
        raw::n8(s) == (if set {
            0xC0int
        } else {
            0x80
        }) + 8 * i + r,
    ensures
        ({
            let t = isa::execute(s, 0xCB);
            let v = raw::source(s, r);
            let w = if set {
                v | (1u8 << i)
            } else {
                v & !(1u8 << i)
            };
            if r == 6 {
                raw::only_memory(s, t, s.mem.write(raw::hl(s), w))
            } else {
                raw::only_registers(s, t, s.cpu.reg.update(r, w))
            }
        }),
{
    let op = raw::n8(s) as int;
    assert(op / 64 == (if set {
        3int
    } else {
        2
    }) && (op / 8) % 8 == i && op % 8 == r);
    reveal(isa::controls);
    bits::lemma_bit_mask(raw::source(s, r), i);
}

/// Bits as the models read and change them are the bits of the shift and mask operators.
pub proof fn law_bit_operators(v: u8, i: u8)
    requires
        i < 8,
    ensures
        bits::has_bit(v, i as int) <==> (v >> i) & 1 == 1,
        bits::with_bit(v, i as int, true) == v | (1u8 << i),
        bits::with_bit(v, i as int, false) == v & !(1u8 << i),
{
    bits::lemma_bit_mask(v, i);
}

} // verus!
