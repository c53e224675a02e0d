//! What the display draws, down to the bits of tiles, maps and palettes.
use vstd::prelude::*;

use crate::cpu;
use crate::laws::display;
use crate::laws::raw;
use crate::laws::scanning;
use crate::lcd;
use crate::lcd::Lcd;
use crate::memory::Ram;

verus! {

/// The weight of the bit that belongs to the column `x` of a tile, whose leftmost column is the
/// highest bit.
pub open spec fn column_weight(x: int) -> int {
    if x == 0 {
        128
    } else if x == 1 {
        64
    } else if x == 2 {
        32
    } else if x == 3 {
        16
    } else if x == 4 {
        8
    } else if x == 5 {
        4
    } else if x == 6 {
        2
    } else {
        1
    }
}

/// The color at the column `x` of the tile line whose two bytes start at `addr`: the first byte
/// gives one, the second gives two.
pub open spec fn line_color(mem: Ram, addr: int, x: int) -> int {
    (if raw::on(mem.data[addr], column_weight(x)) {
        1int
    } else {
        0
    }) + (if raw::on(mem.data[addr + 1], column_weight(x)) {
        2int
    } else {
        0
    })
}

/// The shade that a palette register selects for a color, in two bits for each color.
pub open spec fn selected(palette: u8, color: int) -> int {
    if color == 0 {
        palette as int % 4
    } else if color == 1 {
        (palette as int / 4) % 4
    } else if color == 2 {
        (palette as int / 16) % 4
    } else {
        palette as int / 64
    }
}

/// The four shades of the background.
pub open spec fn background_shade(k: int) -> u32 {
    if k == 0 {
        0xE0F8D0
    } else if k == 1 {
        0x88C070
    } else if k == 2 {
        0x346856
    } else {
        0x081820
    }
}

/// The four shades of sprites.
pub open spec fn sprite_shade(k: int) -> u32 {
    if k == 0 {
        0xFFF6D3
    } else if k == 1 {
        0xF9A875
    } else if k == 2 {
        0xEB6B6F
    } else {
        0x7C3F58
    }
}

/// With bit 4 of the control register set, tile 0 starts at 8000 and each tile 16 bytes behind the
/// one before, so that 256 tiles fill the memory to 8FFF without overlap.
pub proof fn law_tiles_unsigned(mem: Ram, id: u8)
    requires
        raw::on(mem.data[0xFF40], 16),
    ensures
        lcd::tile_address(mem, 0) == 0x8000,
        id < 255 ==> lcd::tile_address(mem, (id + 1) as u8) == lcd::tile_address(mem, id) + 16,
        0x8000 <= lcd::tile_address(mem, id) <= 0x8FF0,
{
}

/// With bit 4 clear, tile 0 starts at 9000 and the tiles from 128 on lie before it, from 8800: in
/// each half every tile starts 16 bytes behind the one before, and 255 lies right before 0.
pub proof fn law_tiles_signed(mem: Ram, id: u8)
    requires
        !raw::on(mem.data[0xFF40], 16),
    ensures
        lcd::tile_address(mem, 0) == 0x9000,
        lcd::tile_address(mem, 128) == 0x8800,
        lcd::tile_address(mem, 255) + 16 == lcd::tile_address(mem, 0),
        id != 127 && id != 255 ==> lcd::tile_address(mem, (id + 1) as u8) == lcd::tile_address(
            mem,
            id,
        ) + 16,
{
}

/// Where the tile with the number `id` starts.
pub open spec fn tile_at(mem: Ram, id: u8) -> int {
    if raw::on(mem.data[0xFF40], 16) || id >= 128 {
        0x8000 + 16 * id
    } else {
        0x9000 + 16 * id
    }
}

/// The background at column `c` of a line: the place on the plane is scrolled by FF43 and FF42, the
/// map at 9800 or 9C00 names its tile, and the palette at FF47 its shade.
pub open spec fn plane_pixel(mem: Ram, line: int, c: int) -> u32 {
    let x = (mem.data[0xFF43] + c) % 256;
    let y = (mem.data[0xFF42] + line) % 256;
    let map = if raw::on(mem.data[0xFF40], 8) {
        0x9C00int
    } else {
        0x9800
    };
    let id = mem.data[map + 32 * (y / 8) + x / 8];
    let color = line_color(mem, tile_at(mem, id) + 2 * (y % 8), x % 8);
    background_shade(selected(mem.data[0xFF47], color))
}

/// The color of a sprite at column `c`: its four bytes lie at FE00, the second is its place and the
/// third its tile, and color 0 is transparent.
pub open spec fn sprite_at(mem: Ram, sprite: (int, u8), c: int) -> int {
    let base = 0xFE00 + 4 * sprite.0;
    let x = c + 8 - mem.data[base + 1];
    let number = if raw::on(mem.data[0xFF40], 4) {
        2 * (mem.data[base + 2] / 2)
    } else {
        mem.data[base + 2] as int
    };
    let scale = if sprite.1 >= 8 {
        32int
    } else {
        16
    };
    if 0 <= x < 8 {
        line_color(mem, 0x8000 + scale * number + 2 * (sprite.1 as int % 8), x)
    } else {
        0
    }
}

proof fn lemma_tile_pixel(mem: Ram, addr: int, x: int)
    requires
        mem.wf(),
        0 <= x < 8,
        0 <= addr < 0xFF00,
    ensures
        lcd::pixel_at(mem, addr, 7 - x) == line_color(mem, addr, x),
        0 <= line_color(mem, addr, x) < 4,
{
    reveal(lcd::tile_pixel);
}

/// The background pixel is the one that scroll, map, tile and palette give.
pub proof fn law_background(mem: Ram, line: u8, c: int)
    requires
        mem.wf(),
        0 <= c < 160,
    ensures
        lcd::background(mem, line, c) == plane_pixel(mem, line as int, c),
{
    let x = (mem.data[0xFF43] + c) % 256;
    let y = (mem.data[0xFF42] + line) % 256;
    let map = if raw::on(mem.data[0xFF40], 8) {
        0x9C00int
    } else {
        0x9800
    };
    assert(lcd::map_start(mem) == map);
    let id = mem.data[map + 32 * (y / 8) + x / 8];
    assert(lcd::tile_address(mem, id) == tile_at(mem, id));
    lemma_tile_pixel(mem, tile_at(mem, id) + 2 * (y % 8), x % 8);
    let color = line_color(mem, tile_at(mem, id) + 2 * (y % 8), x % 8);
    assert(lcd::plane_color(mem, x as u8, y as u8) == color);
    lemma_shades(color, mem.data[0xFF47]);
}

proof fn lemma_shades(color: int, palette: u8)
    requires
        0 <= color < 4,
    ensures
        cpu::shade(color as u8, palette) == selected(palette, color),
        0 <= selected(palette, color) < 4,
        cpu::PAL_CLASSIC[selected(palette, color)] == background_shade(selected(palette, color)),
        cpu::PAL_ICE_CREAM[selected(palette, color)] == sprite_shade(selected(palette, color)),
{
}

/// The color of a sprite is the one that its bytes and its tile give.
pub proof fn law_sprite_color(mem: Ram, sprite: (int, u8), c: int)
    requires
        mem.wf(),
        0 <= sprite.0 < 40,
        0 <= c < 160,
    ensures
        lcd::sprite_color(mem, sprite, c) == sprite_at(mem, sprite, c),
        0 <= sprite_at(mem, sprite, c) < 4,
{
    let base = 0xFE00 + 4 * sprite.0;
    let x = c + 8 - mem.data[base + 1];
    let number = if raw::on(mem.data[0xFF40], 4) {
        2 * (mem.data[base + 2] / 2)
    } else {
        mem.data[base + 2] as int
    };
    assert(lcd::sprite_tile(mem, sprite.0) == number);
    if 0 <= x < 8 {
        let scale = if sprite.1 >= 8 {
            32int
        } else {
            16
        };
        assert(scale * number <= 32 * 255) by (nonlinear_arith)
            requires
                scale == 32 || scale == 16,
                0 <= number <= 255,
        ;
        assert(number * 16 * 2 == 32 * number && number * 16 * 1 == 16 * number);
        lemma_tile_pixel(mem, 0x8000 + scale * number + 2 * (sprite.1 as int % 8), x);
    }
}

/// The last sprite that shows a color at a column gives the pixel: the shade that the palette at
/// FF48 selects for its color, whatever lies under it. Where no sprite shows one, what lies under
/// them stays.
pub proof fn law_sprites_over(mem: Ram, sprites: Seq<(int, u8)>, n: int, k: int, c: int, under: u32)
    requires
        mem.wf(),
        0 <= c < 160,
        0 <= n <= sprites.len(),
        forall|i: int| 0 <= i < sprites.len() ==> 0 <= (#[trigger] sprites[i]).0 < 40,
        -1 <= k < n,
        k >= 0 ==> sprite_at(mem, sprites[k], c) != 0,
        forall|i: int| k < i < n ==> sprite_at(mem, #[trigger] sprites[i], c) == 0,
    ensures
        lcd::with_sprites(mem, sprites, n, c, under) == if k >= 0 {
            sprite_shade(selected(mem.data[0xFF48], sprite_at(mem, sprites[k], c)))
        } else {
            under
        },
    decreases n,
{
    if n > 0 {
        law_sprite_color(mem, sprites[n - 1], c);
        if k == n - 1 {
            lemma_shades(sprite_at(mem, sprites[k], c), mem.data[0xFF48]);
        } else {
            law_sprites_over(mem, sprites, n - 1, k, c, under);
        }
    }
}

/// The end of a drawing replaces one line of the picture, and no other pixel. At each column of
/// it stands the last sprite that shows a color there, or the background if none does.
pub proof fn law_draw(s: Lcd, dt: int, k: int, c: int)
    requires
        s.mem.wf(),
        s.screen.wf(),
        s.mem.data[0xFF41] % 4 == 3,
        s.screen.timing + dt >= 168,
        !s.screen.doctor ==> !s.mem.doctor,
        scanning::counter(s) < 144,
        0 <= c < 160,
        -1 <= k < s.screen.sprites.len(),
        k >= 0 ==> sprite_at(s.mem, s.screen.sprites[k], c) != 0,
        forall|i: int|
            k < i < s.screen.sprites.len() ==> sprite_at(
                s.mem,
                #[trigger] s.screen.sprites[i],
                c,
            ) == 0,
    ensures
        ({
            let u = lcd::refreshed(s, dt).screen.buffer;
            let line = scanning::counter(s) as int;
            &&& u.len() == 160 * 144
            &&& u[160 * line + c] == if k >= 0 {
                sprite_shade(
                    selected(s.mem.data[0xFF48], sprite_at(s.mem, s.screen.sprites[k], c)),
                )
            } else {
                plane_pixel(s.mem, line, c)
            }
            &&& forall|i: int|
                0 <= i < 160 * 144 && !(160 * line <= i < 160 * line + 160) ==> #[trigger] u[i]
                    == s.screen.buffer[i]
        }),
{
    scanning::law_compare_lines(s.mem);
    let t = lcd::timed(s, dt);
    let line = scanning::counter(s);
    assert(lcd::drawn_line(t) == line);
    law_background(t.mem, line, c);
    lemma_same_picture(s.mem, t.mem, line as int, c);
    assert forall|i: int| 0 <= i < s.screen.sprites.len() implies sprite_at(
        t.mem,
        #[trigger] s.screen.sprites[i],
        c,
    ) == sprite_at(s.mem, s.screen.sprites[i], c) by {
        lemma_same_sprite(s.mem, t.mem, s.screen.sprites[i], c);
    }
    law_sprites_over(
        t.mem,
        s.screen.sprites,
        s.screen.sprites.len() as int,
        k,
        c,
        lcd::background(t.mem, line, c),
    );
}

/// Memories that agree below FF00 and in the display's registers show the same.
proof fn lemma_same_picture(m: Ram, t: Ram, line: int, c: int)
    requires
        forall|a: int|
            0 <= a < 0x10000 && a != 0xFF41 && a != 0xFF0F ==> #[trigger] t.data[a] == m.data[a],
        0 <= c < 160,
        0 <= line < 144,
    ensures
        plane_pixel(t, line, c) == plane_pixel(m, line, c),
{
}

proof fn lemma_same_sprite(m: Ram, t: Ram, sprite: (int, u8), c: int)
    requires
        forall|a: int|
            0 <= a < 0x10000 && a != 0xFF41 && a != 0xFF0F ==> #[trigger] t.data[a] == m.data[a],
        0 <= c < 160,
        0 <= sprite.0 < 40,
    ensures
        sprite_at(t, sprite, c) == sprite_at(m, sprite, c),
{
    let number = if raw::on(m.data[0xFF40], 4) {
        2 * (m.data[0xFE00 + 4 * sprite.0 + 2] / 2)
    } else {
        m.data[0xFE00 + 4 * sprite.0 + 2] as int
    };
    assert(0 <= 32 * number <= 32 * 255 && 0 <= 16 * number <= 16 * 255);
}

/// Whether the scanline crosses the sprite with the number `n`: it is not at column 0, and the
/// line, counted from 16 above the screen, is one of its 8 lines, or 16 with bit 2 of the control
/// register.
pub open spec fn crossed(mem: Ram, n: int) -> bool {
    let y = mem.data[0xFE00 + 4 * n] as int;
    let line = scanning::shown_line(mem) + 16;
    &&& mem.data[0xFE00 + 4 * n + 1] != 0
    &&& y <= line
    &&& line < y + (if raw::on(mem.data[0xFF40], 4) {
        16int
    } else {
        8
    })
}

/// The line of that sprite, from its top, or from its bottom with bit 6 of its fourth byte.
pub open spec fn crossed_line(mem: Ram, n: int) -> int {
    let down = scanning::shown_line(mem) + 16 - mem.data[0xFE00 + 4 * n];
    let height = if raw::on(mem.data[0xFF40], 4) {
        16int
    } else {
        8
    };
    if raw::on(mem.data[0xFE00 + 4 * n + 3], 64) {
        height - 1 - down
    } else {
        down
    }
}

proof fn lemma_crossed(mem: Ram, n: int)
    requires
        mem.wf(),
        0 <= n < 40,
    ensures
        lcd::crosses(mem, n) == crossed(mem, n),
        crossed(mem, n) ==> lcd::sprite_line(mem, n) == crossed_line(mem, n),
{
}

/// The end of a search finds the first ten sprites that the scanline crosses, in the order of
/// their numbers, each with its line.
pub proof fn law_search(s: Lcd, dt: int)
    requires
        s.mem.wf(),
        s.mem.data[0xFF41] % 4 == 2,
        s.screen.timing + dt >= 80,
    ensures
        ({
            let found = lcd::refreshed(s, dt).screen.sprites;
            &&& found.len() <= 10
            &&& forall|i: int, j: int| 0 <= i < j < found.len() ==> found[i].0 < found[j].0
            &&& forall|i: int|
                0 <= i < found.len() ==> {
                    &&& 0 <= (#[trigger] found[i]).0 < 40
                    &&& crossed(s.mem, found[i].0)
                    &&& found[i].1 == crossed_line(s.mem, found[i].0)
                }
            &&& forall|k: int|
                0 <= k < 40 && #[trigger] crossed(s.mem, k) ==> {
                    ||| exists|i: int| 0 <= i < found.len() && #[trigger] found[i].0 == k
                    ||| found.len() == 10 && found[9].0 < k
                }
        }),
{
    scanning::law_compare_lines(s.mem);
    let t = lcd::line_compared(s.mem);
    let found = lcd::sprites_found(t, 40);
    display::law_sprites(t, 40);
    assert forall|k: int| 0 <= k < 40 implies #[trigger] crossed(s.mem, k) == lcd::crosses(t, k)
        && (crossed(s.mem, k) ==> lcd::sprite_line(t, k) == crossed_line(s.mem, k)) by {
        lemma_crossed(t, k);
        lemma_same_crossing(s.mem, t, k);
    }
    assert forall|i: int| 0 <= i < found.len() implies {
        &&& 0 <= (#[trigger] found[i]).0 < 40
        &&& crossed(s.mem, found[i].0)
        &&& found[i].1 == crossed_line(s.mem, found[i].0)
    } by {
        assert(crossed(s.mem, found[i].0) == lcd::crosses(t, found[i].0));
    }
}

proof fn lemma_same_crossing(m: Ram, t: Ram, n: int)
    requires
        forall|a: int|
            0 <= a < 0x10000 && a != 0xFF41 && a != 0xFF0F ==> #[trigger] t.data[a] == m.data[a],
        t.doctor == m.doctor,
        0 <= n < 40,
    ensures
        crossed(t, n) == crossed(m, n),
        crossed_line(t, n) == crossed_line(m, n),
{
}

/// A refresh is possible exactly if the time can be counted, a search forms no position above 255
/// for a sprite that is on, a drawing happens on the screen, and the counter has a next line.
pub proof fn law_refresh_fits(s: Lcd, dt: int)
    requires
        s.mem.wf(),
    ensures
        ({
            let m = s.mem.data[0xFF41] % 4;
            let t = s.screen.timing + dt;
            lcd::refresh_fits(s, dt) <==> {
                &&& t <= u64::MAX
                &&& m == 2 && t >= 80 ==> forall|n: int|
                    0 <= n < 40 ==> #[trigger] placed(s.mem, n)
                &&& m == 3 && t >= 168 ==> if s.screen.doctor {
                    s.screen.doctor_line < 144
                } else {
                    scanning::shown_line(s.mem) < 144
                }
                &&& m == 0 && t >= 208 ==> scanning::counter(s) < 255
            }
        }),
{
    scanning::law_compare_lines(s.mem);
    let t = lcd::line_compared(s.mem);
    assert forall|n: int|
        #![trigger placed(s.mem, n)]
        #![trigger lcd::sprite_fits(t, n)]
        0 <= n < 40 implies placed(s.mem, n) == lcd::sprite_fits(t, n) by {
        assert(t.data[0xFE00 + 4 * n] == s.mem.data[0xFE00 + 4 * n]);
        assert(t.data[0xFE00 + 4 * n + 1] == s.mem.data[0xFE00 + 4 * n + 1]);
    }
}

/// Whether the lines of a sprite that is on can be compared with the scanline in bytes.
pub open spec fn placed(mem: Ram, n: int) -> bool {
    let y = mem.data[0xFE00 + 4 * n] as int;
    let line = scanning::shown_line(mem) + 16;
    let height = if raw::on(mem.data[0xFF40], 4) {
        16int
    } else {
        8
    };
    mem.data[0xFE00 + 4 * n + 1] != 0 ==> line <= 255 && (y <= line ==> y + height <= 255)
}

} // verus!
