//! The display over longer times, and what it draws.
use vstd::prelude::*;

use crate::bits;
use crate::cpu;
use crate::cpu::TICKS_PER_FRAME;
use crate::lcd;
use crate::lcd::{Lcd, SPRITE_NOT_HIT};
use crate::memory::{Ram, IF, LY, LYC, STAT};

verus! {

/// The sprites found for a line are the first ones that the scanline crosses, at most ten of them,
/// in the order of the table.
pub proof fn law_sprites(mem: Ram, n: int)
    requires
        0 <= n <= 40,
    ensures
        ({
            let found = lcd::sprites_found(mem, n);
            &&& found.len() <= 10
            &&& forall|i: int, j: int| 0 <= i < j < found.len() ==> found[i].0 < found[j].0
            &&& forall|i: int|
                0 <= i < found.len() ==> {
                    &&& 0 <= (#[trigger] found[i]).0 < n
                    &&& lcd::crosses(mem, found[i].0)
                    &&& found[i].1 == lcd::sprite_line(mem, found[i].0)
                }
            &&& forall|k: int|
                0 <= k < n && #[trigger] lcd::crosses(mem, k) ==> {
                    ||| exists|i: int| 0 <= i < found.len() && #[trigger] found[i].0 == k
                    ||| found.len() == 10 && found[9].0 < k
                }
        }),
    decreases n,
{
    if n > 0 {
        law_sprites(mem, n - 1);
        let before = lcd::sprites_found(mem, n - 1);
        let found = lcd::sprites_found(mem, n);
        assert(lcd::crosses(mem, n - 1) <==> lcd::sprite_line(mem, n - 1) != SPRITE_NOT_HIT);
        assert forall|k: int| 0 <= k < n && #[trigger] lcd::crosses(mem, k) implies {
            ||| exists|i: int| 0 <= i < found.len() && #[trigger] found[i].0 == k
            ||| found.len() == 10 && found[9].0 < k
        } by {
            if k < n - 1 {
                if exists|i: int| 0 <= i < before.len() && #[trigger] before[i].0 == k {
                    let i = choose|i: int| 0 <= i < before.len() && #[trigger] before[i].0 == k;
                    assert(found[i].0 == k);
                }
            } else if before.len() < 10 {
                assert(found[before.len() as int].0 == k);
            }
        }
    }
}

/// Where every sprite is transparent the background shows.
pub proof fn law_transparent(mem: Ram, sprites: Seq<(int, u8)>, n: int, c: int, under: u32)
    requires
        0 <= n <= sprites.len(),
        forall|i: int| 0 <= i < n ==> lcd::sprite_color(mem, #[trigger] sprites[i], c) == 0,
    ensures
        lcd::with_sprites(mem, sprites, n, c, under) == under,
    decreases n,
{
    if n > 0 {
        law_transparent(mem, sprites, n - 1, c, under);
    }
}

/// A palette maps each of four colors on its own: only the two bits that belong to a color decide
/// its shade.
pub proof fn law_palette(color: u8, plt: u8)
    ensures
        0 <= cpu::shade(color, plt) < 4,
        cpu::shade(color, plt) == cpu::shade((color % 4) as u8, plt),
        plt == 0xE4 ==> cpu::shade(color, plt) == color % 4,
{
}

/// The comparison of the scanline changes the status and interrupt registers only, and keeps the
/// mode. Its result shows in bit 2 of the status register.
pub proof fn law_compared(mem: Ram)
    requires
        mem.wf(),
    ensures
        lcd::line_compared(mem).wf(),
        lcd::mode(lcd::line_compared(mem)) == lcd::mode(mem),
        bits::has_bit(lcd::line_compared(mem).read(STAT as int), 2) == (mem.read(LY as int)
            == mem.read(LYC as int)),
        forall|a: int|
            0 <= a < 0x10000 && a != STAT && a != IF ==> #[trigger] lcd::line_compared(mem).data[a]
                == mem.data[a],
        lcd::line_compared(mem).doctor == mem.doctor,
        lcd::line_compared(mem).dma_req == mem.dma_req,
{
}

/// The modes follow each other: search, drawing and horizontal blank on each line, and after the
/// last line on the screen the vertical blank. Each lasts its number of cycles.
pub proof fn law_modes(s: Lcd, dt: int)
    requires
        s.mem.wf(),
        lcd::mode(s.mem) == 0 && s.screen.timing + dt >= 208 ==> lcd::line_counter(s) < 255,
    ensures
        ({
            let (m, t) = (lcd::mode(s.mem), s.screen.timing + dt);
            let next = lcd::refreshed(s, dt);
            &&& next.mem.wf()
            &&& next.screen.doctor == s.screen.doctor
            &&& lcd::mode(next.mem) == if m == 2 && t >= 80 {
                3
            } else if m == 3 && t >= 168 {
                0
            } else if m == 0 && t >= 208 {
                if lcd::line_counter(s) == 143 {
                    1
                } else {
                    2
                }
            } else if m == 1 && t >= 4560 {
                2
            } else {
                m
            }
            &&& next.screen.timing == if m == 2 && t >= 80 {
                t - 80
            } else if m == 3 && t >= 168 {
                t - 168
            } else if m == 0 && t >= 208 {
                t - 208
            } else if m == 1 && t >= 4560 {
                t - 4560
            } else {
                t
            }
            &&& lcd::line_counter(next) == if m == 0 && t >= 208 {
                lcd::line_counter(s) + 1
            } else if m == 1 && t >= 4560 {
                0
            } else if m == 1 {
                (144 + t / 456) % 256
            } else {
                lcd::line_counter(s) as int
            }
            &&& lcd::completes(s, dt) == (m == 1 && t >= 4560)
        }),
{
    law_compared(s.mem);
    let t = lcd::timed(s, dt);
    assert(t.mem.data[LY as int] == s.mem.data[LY as int]);
    lemma_with_mode(t.mem);
    let l = lcd::with_line(t, (lcd::line_counter(t) + 1) as u8);
    lemma_with_mode(l.mem);
    lemma_with_mode(l.mem.write(IF as int, bits::with_bit(l.mem.read(IF as int), 0, true)));
    lemma_with_mode(lcd::with_line(t, 0).mem);
}

/// The mode reads back as it was set, and setting it touches the status register only.
proof fn lemma_with_mode(mem: Ram)
    requires
        mem.wf(),
    ensures
        forall|m: u8|
            0 <= m < 4 ==> lcd::mode(#[trigger] lcd::with_mode(mem, m)) == m && lcd::with_mode(
                mem,
                m,
            ).wf() && lcd::with_mode(mem, m).data[LY as int] == mem.data[LY as int],
{
}

/// In the vertical blank the counter passes through the ten lines below the screen.
pub proof fn law_blank_lines(s: Lcd, dt: int)
    requires
        s.mem.wf(),
        lcd::mode(s.mem) == 1,
        0 <= s.screen.timing + dt < 4560,
    ensures
        lcd::line_counter(lcd::refreshed(s, dt)) == 144 + (s.screen.timing + dt) / 456,
        144 <= lcd::line_counter(lcd::refreshed(s, dt)) <= 153,
{
    law_modes(s, dt);
}

/// The display after `n` lines were searched, drawn and blanked.
pub open spec fn after_lines(s: Lcd, n: int) -> Lcd
    decreases n,
{
    if n <= 0 {
        s
    } else {
        lcd::refreshed(lcd::refreshed(lcd::refreshed(after_lines(s, n - 1), 80), 168), 208)
    }
}

/// From the start of a frame, each line takes 456 cycles and moves the counter on by one. After
/// the last line on the screen the vertical blank is on, and its interrupt requested.
pub proof fn law_lines(s: Lcd, n: int)
    requires
        s.mem.wf(),
        s.screen.timing == 0,
        lcd::mode(s.mem) == 2,
        lcd::line_counter(s) == 0,
        0 <= n <= 144,
    ensures
        after_lines(s, n).mem.wf(),
        after_lines(s, n).screen.timing == 0,
        lcd::line_counter(after_lines(s, n)) == n,
        lcd::mode(after_lines(s, n).mem) == if n == 144 {
            1int
        } else {
            2int
        },
        n == 144 ==> bits::has_bit(after_lines(s, n).mem.read(IF as int), 0),
    decreases n,
{
    if n > 0 {
        law_lines(s, n - 1);
        let a = after_lines(s, n - 1);
        let b = lcd::refreshed(a, 80);
        let c = lcd::refreshed(b, 168);
        law_modes(a, 80);
        law_modes(b, 168);
        law_modes(c, 208);
        if n == 144 {
            law_blank_request(c, 208);
        }
    }
}

/// The step that ends the last line on the screen requests the interrupt of the vertical blank.
pub proof fn law_blank_request(s: Lcd, dt: int)
    requires
        s.mem.wf(),
        lcd::mode(s.mem) == 0,
        s.screen.timing + dt >= 208,
        lcd::line_counter(s) == 143,
    ensures
        bits::has_bit(lcd::refreshed(s, dt).mem.read(IF as int), 0),
{
    law_compared(s.mem);
}

/// A frame takes 70224 cycles: 144 lines of 456, and a vertical blank of 4560. It is complete at
/// the end of the blank, and the next one starts.
pub proof fn law_frame(s: Lcd)
    requires
        s.mem.wf(),
        s.screen.timing == 0,
        lcd::mode(s.mem) == 2,
        lcd::line_counter(s) == 0,
    ensures
        TICKS_PER_FRAME == 144 * (80 + 168 + 208) + 4560 == 70224,
        lcd::completes(after_lines(s, 144), 4560),
        lcd::mode(lcd::refreshed(after_lines(s, 144), 4560).mem) == 2,
        lcd::line_counter(lcd::refreshed(after_lines(s, 144), 4560)) == 0,
        lcd::refreshed(after_lines(s, 144), 4560).screen.timing == 0,
{
    law_lines(s, 144);
    law_modes(after_lines(s, 144), 4560);
}

} // verus!
