//! What one refresh of the display does to its registers.
use vstd::prelude::*;

use crate::bits;
use crate::laws::raw;
use crate::lcd;
use crate::lcd::Lcd;
use crate::memory::Ram;

verus! {

/// The scanline as a program reads it.
pub open spec fn shown_line(mem: Ram) -> u8 {
    if mem.doctor {
        0x90
    } else {
        mem.data[0xFF44]
    }
}

/// Whether the scanline is the one that the program waits for.
pub open spec fn matching(mem: Ram) -> bool {
    shown_line(mem) == mem.data[0xFF45]
}

/// The scanline that the display itself counts.
pub open spec fn counter(s: Lcd) -> u8 {
    if s.screen.doctor {
        s.screen.doctor_line
    } else {
        s.mem.data[0xFF44]
    }
}

/// Whether the bits with the weights 1 and 2 were added to a register of five bits, as asked.
pub open spec fn requested(before: u8, after: u8, first: bool, second: bool) -> bool {
    if !first && !second {
        after == before
    } else {
        &&& after < 32
        &&& raw::on(after, 1) == (raw::on(before, 1) || first)
        &&& raw::on(after, 2) == (raw::on(before, 2) || second)
        &&& after / 4 == (before % 32) / 4
    }
}

/// The comparison of the scanline shows its result in bit 2 of the status register. It requests
/// the interrupt with weight 2 exactly if the lines are equal and bit 6 of the status register
/// asks for it. No other request, and nothing else in memory, changes.
pub proof fn law_compare_lines(mem: Ram)
    requires
        mem.wf(),
    ensures
        ({
            let t = lcd::line_compared(mem);
            let (before, after) = (mem.data[0xFF41], t.data[0xFF41]);
            &&& lcd::line_matches(mem) == matching(mem)
            &&& raw::on(after, 4) == matching(mem)
            &&& after % 4 == before % 4
            &&& after / 8 == before / 8
            &&& requested(
                mem.data[0xFF0F],
                t.data[0xFF0F],
                false,
                matching(mem) && raw::on(before, 64),
            )
            &&& forall|a: int|
                0 <= a < 0x10000 && a != 0xFF41 && a != 0xFF0F ==> #[trigger] t.data[a]
                    == mem.data[a]
            &&& t.wf() && t.dma_req == mem.dma_req && t.doctor == mem.doctor
        }),
{
    let stat = mem.data[0xFF41];
    lemma_match_bit(stat);
    lemma_requests(mem.data[0xFF0F]);
}

proof fn lemma_match_bit(stat: u8)
    ensures
        forall|on: bool|
            {
                let w = #[trigger] bits::with_bit(stat, 2, on);
                &&& raw::on(w, 4) == on
                &&& w % 4 == stat % 4
                &&& w / 8 == stat / 8
                &&& bits::has_bit(w, 6) == raw::on(stat, 64)
            },
{
    lemma_match_masks(stat);
    bits::lemma_bit_mask(stat, 2);
    assert(1u8 << 2u8 == 4) by (bit_vector);
}

proof fn lemma_match_masks(stat: u8)
    by (bit_vector)
    ensures
        ((stat | 4) / 4) % 2 == 1,
        ((stat & !4u8) / 4) % 2 == 0,
        (stat | 4) % 4 == stat % 4,
        (stat & !4u8) % 4 == stat % 4,
        (stat | 4) / 8 == stat / 8,
        (stat & !4u8) / 8 == stat / 8,
        ((stat | 4) / 64) % 2 == (stat / 64) % 2,
        ((stat & !4u8) / 64) % 2 == (stat / 64) % 2,
{
}

proof fn lemma_requests(v: u8)
    ensures
        requested(v, bits::with_bit((v % 32) as u8, 1, true), false, true),
        requested(v, bits::with_bit((v % 32) as u8, 0, true), true, false),
        requested(
            v,
            bits::with_bit(bits::with_bit((v % 32) as u8, 1, true), 0, true),
            true,
            true,
        ),
{
    let w = (v % 32) as u8;
    let x = bits::with_bit(w, 1, true);
    bits::lemma_bit_mask(w, 0);
    bits::lemma_bit_mask(w, 1);
    bits::lemma_bit_mask(x, 0);
    assert(1u8 << 0u8 == 1 && 1u8 << 1u8 == 2) by (bit_vector);
    lemma_request_masks(v);
}

proof fn lemma_request_masks(v: u8)
    by (bit_vector)
    ensures
        ((v % 32) | 2) < 32 && ((v % 32) | 1) < 32 && ((v % 32) | 2 | 1) < 32,
        ((v % 32) | 2) % 2 == v % 2,
        (((v % 32) | 2) / 2) % 2 == 1,
        ((v % 32) | 2) / 4 == (v % 32) / 4,
        ((v % 32) | 1) % 2 == 1,
        (((v % 32) | 1) / 2) % 2 == (v / 2) % 2,
        ((v % 32) | 1) / 4 == (v % 32) / 4,
        ((v % 32) | 2 | 1) % 2 == 1,
        (((v % 32) | 2 | 1) / 2) % 2 == 1,
        ((v % 32) | 2 | 1) / 4 == (v % 32) / 4,
{
}

/// Whether the refresh ends the current mode: a search after 80 cycles, a drawing after 168, a
/// horizontal blank after 208, and a vertical blank after 4560.
pub open spec fn ends(m: u8, t: int) -> bool {
    if m == 2 {
        t >= 80
    } else if m == 3 {
        t >= 168
    } else if m == 0 {
        t >= 208
    } else {
        t >= 4560
    }
}

/// A refresh moves the mode in the two low bits of the status register (2, 3, 0 on each line, and
/// 1 after line 143), the scanline counter and the time in the mode. It requests the interrupt
/// with weight 1 exactly when line 143 ends, and that with weight 2 exactly when the comparison
/// does. Of memory nothing else changes.
pub proof fn law_refresh(s: Lcd, dt: int)
    requires
        s.mem.wf(),
        s.mem.data[0xFF41] % 4 == 0 && s.screen.timing + dt >= 208 ==> counter(s) < 255,
    ensures
        ({
            let u = lcd::refreshed(s, dt);
            let (d, e) = (s.mem.data, u.mem.data);
            let m = (d[0xFF41] % 4) as u8;
            let t = s.screen.timing + dt;
            let last = m == 0 && t >= 208 && counter(s) == 143;
            &&& e[0xFF41] / 8 == d[0xFF41] / 8
            &&& raw::on(e[0xFF41], 4) == matching(s.mem)
            &&& e[0xFF41] % 4 == if !ends(m, t) {
                m
            } else if m == 2 {
                3
            } else if m == 3 {
                0
            } else if last {
                1
            } else {
                2
            }
            &&& requested(d[0xFF0F], e[0xFF0F], last, matching(s.mem) && raw::on(d[0xFF41], 64))
            &&& counter(u) == if m == 0 && t >= 208 {
                counter(s) + 1
            } else if m == 1 && t >= 4560 {
                0
            } else if m == 1 {
                (144 + t / 456) % 256
            } else {
                counter(s) as int
            }
            &&& s.screen.doctor ==> e[0xFF44] == d[0xFF44]
            &&& !s.screen.doctor ==> u.screen.doctor_line == s.screen.doctor_line
            &&& u.screen.timing == if !ends(m, t) {
                t
            } else if m == 2 {
                t - 80
            } else if m == 3 {
                t - 168
            } else if m == 0 {
                t - 208
            } else {
                t - 4560
            }
            &&& forall|a: int|
                0 <= a < 0x10000 && a != 0xFF41 && a != 0xFF0F && a != 0xFF44 ==> #[trigger] e[a]
                    == d[a]
            &&& u.mem.wf() && u.mem.dma_req == s.mem.dma_req && u.mem.doctor == s.mem.doctor
            &&& u.screen.doctor == s.screen.doctor
            &&& !(m == 3 && t >= 168) ==> u.screen.buffer == s.screen.buffer
            &&& !(m == 2 && t >= 80) ==> u.screen.sprites == s.screen.sprites
            &&& lcd::completes(s, dt) == (m == 1 && t >= 4560)
        }),
{
    law_compare_lines(s.mem);
    let c = lcd::timed(s, dt);
    lemma_modes(c.mem.data[0xFF41]);
    lemma_requests(s.mem.data[0xFF0F]);
    lemma_request_again(s.mem.data[0xFF0F]);
}

/// A register of five bits reads as it was written.
proof fn lemma_request_again(v: u8)
    ensures
        ({
            let w = bits::with_bit((v % 32) as u8, 1, true);
            w % 32 == w
        }),
{
}

/// Replacing the mode keeps the other bits.
proof fn lemma_modes(stat: u8)
    ensures
        forall|m: u8|
            m < 4 ==> {
                let w = #[trigger] ((stat - stat % 4 + m % 4) as u8);
                &&& w % 4 == m
                &&& w / 8 == stat / 8
                &&& raw::on(w, 4) == raw::on(stat, 4)
            },
{
}

/// The mode is the two low bits of the status register. Setting it changes these two bits, to those
/// of the given number, and nothing else.
pub proof fn law_mode_bits(mem: Ram, m: u8)
    requires
        mem.wf(),
    ensures
        lcd::mode(mem) == mem.data[0xFF41] % 4,
        lcd::with_mode(mem, m).data[0xFF41] % 4 == m % 4,
        lcd::with_mode(mem, m).data[0xFF41] / 4 == mem.data[0xFF41] / 4,
        forall|a: int|
            0 <= a < 0x10000 && a != 0xFF41 ==> #[trigger] lcd::with_mode(mem, m).data[a]
                == mem.data[a],
        lcd::with_mode(mem, m).dma_req == mem.dma_req,
        lcd::with_mode(mem, m).doctor == mem.doctor,
{
}

} // verus!
