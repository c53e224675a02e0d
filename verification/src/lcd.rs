//! The display: its registers, the sprites and tiles that it draws, and its passage through a
//! frame.
use core::ops::IndexMut;
use vstd::prelude::*;

use crate::bits;
use crate::bits::{
    bit_set, bit_test, BIT_0, BIT_1, BIT_2, BIT_3, BIT_4, BIT_5, BIT_6, BIT_7,
};
use crate::control::request_interrupt;
use crate::cpu;
use crate::cpu::{
    palette_lookup, BYTES_PER_TILE, FL_INT_STAT, FL_INT_VBLANK, GB_SCREEN_HEIGHT, GB_SCREEN_WIDTH,
    PAL_CLASSIC, PAL_ICE_CREAM, TICKS_PER_HBLANK, TICKS_PER_OAM_SEARCH, TICKS_PER_SCANLINE,
    TICKS_PER_VBLANK, TICKS_PER_VRAM_IO,
};
use crate::memory::{
    Memory, Ram, BGP, IF, LCDC, LY, LYC, MEM_OAM, MEM_VRAM, OBP0, SCX, SCY, STAT,
};
use crate::types::{Byte, Word};

verus! {

// lcdc
pub const LCDC_BIT_ENABLE: Byte = BIT_7;

pub const LCDC_BIT_WINDOW_TILE_MAP_SELECT: Byte = BIT_6;

pub const LCDC_BIT_WINDOW_ENABLE: Byte = BIT_5;

pub const LCDC_BIT_BG_WINDOW_TILE_DATA_SELECT: Byte = BIT_4;

pub const LCDC_BIT_BG_TILE_MAP_SELECT: Byte = BIT_3;

pub const LCDC_BIT_OBJ_SIZE: Byte = BIT_2;

pub const LCDC_BIT_OBJ_ENABLE: Byte = BIT_1;

pub const LCDC_BIT_BG_WINDOW_ENABLE: Byte = BIT_0;

// lcd status
pub const STAT_BIT_NULL: Byte = BIT_7;

pub const STAT_BIT_LYC_INT_SELECT: Byte = BIT_6;

pub const STAT_BIT_MODE_2_INT_SELECT: Byte = BIT_5;

pub const STAT_BIT_MODE_1_INT_SELECT: Byte = BIT_4;

pub const STAT_BIT_MODE_0_INT_SELECT: Byte = BIT_3;

pub const STAT_BIT_LY_LYC_EQ: Byte = BIT_2;

pub const STAT_MASK_PPU_MODE: Byte = 0b011;

// object attribute flags
pub const OAM_BIT_PRIORITY: Byte = BIT_7;

pub const OAM_BIT_FLIP_Y: Byte = BIT_6;

pub const OAM_BIT_FLIP_X: Byte = BIT_5;

// dmg only
pub const OAM_BIT_DMG_PAL: Byte = BIT_4;

pub const OAM_BIT_BANK: Byte = BIT_3;

// color gameboy only
pub const OAM_MASK_CGB_PAL: Byte = 0b111;

pub const OBJ_ATTR_SIZE: Word = 4;

// other constants
pub const PPU_TILE_WIDTH: usize = 8;

/// What stands for the line of a sprite that the scanline does not cross.
pub const SPRITE_NOT_HIT: Byte = 0xFF;

/// The number of sprites in the attribute table.
pub const SPRITE_COUNT: Word = 40;

/// The number of sprites that can be drawn on one line.
pub const SPRITES_PER_LINE: usize = 10;

// ---------------------------------------------------------------------------------------------
// sprites
// ---------------------------------------------------------------------------------------------
/// One of the four attribute bytes of a sprite.
pub open spec fn attribute(mem: Ram, idx: int, k: int) -> u8 {
    mem.peek(MEM_OAM + idx * 4 + k)
}

/// The number of lines that sprites have.
pub open spec fn sprite_height(mem: Ram) -> int {
    if bits::has_bit(mem.peek(LCDC as int), 2) {
        16
    } else {
        8
    }
}

/// The tile of a sprite. A tall sprite starts at an even tile.
pub open spec fn sprite_tile(mem: Ram, idx: int) -> u8 {
    if bits::has_bit(mem.peek(LCDC as int), 2) {
        (attribute(mem, idx, 2) - attribute(mem, idx, 2) % 2) as u8
    } else {
        attribute(mem, idx, 2)
    }
}

/// Whether the scanline crosses a sprite. Sprites are placed 16 lines above the screen, so that
/// they can enter it from the top; at column 0 a sprite is off.
pub open spec fn crosses(mem: Ram, idx: int) -> bool {
    let line = mem.peek(LY as int) + 16;
    &&& attribute(mem, idx, 1) != 0
    &&& attribute(mem, idx, 0) <= line < attribute(mem, idx, 0) + sprite_height(mem)
}

/// The line of the sprite that the scanline crosses, counted from the bottom if it is flipped.
pub open spec fn sprite_line(mem: Ram, idx: int) -> u8 {
    let line = mem.peek(LY as int) + 16 - attribute(mem, idx, 0);
    if !crosses(mem, idx) {
        SPRITE_NOT_HIT
    } else if bits::has_bit(attribute(mem, idx, 3), 6) {
        (sprite_height(mem) - 1 - line) as u8
    } else {
        line as u8
    }
}

/// Whether the positions that the test for a sprite forms are bytes.
pub open spec fn sprite_fits(mem: Ram, idx: int) -> bool {
    let line = mem.peek(LY as int) + 16;
    attribute(mem, idx, 1) != 0 ==> {
        &&& line <= 255
        &&& attribute(mem, idx, 0) <= line ==> attribute(mem, idx, 0) + sprite_height(mem) <= 255
    }
}

/// The sprites among the first `n` that are drawn on the scanline, each with the line of it that
/// is drawn. A line has room for ten.
pub open spec fn sprites_found(mem: Ram, n: int) -> Seq<(int, u8)>
    decreases n,
{
    if n <= 0 {
        Seq::empty()
    } else {
        let found = sprites_found(mem, n - 1);
        if found.len() < 10 && sprite_line(mem, n - 1) != SPRITE_NOT_HIT {
            found.push((n - 1, sprite_line(mem, n - 1)))
        } else {
            found
        }
    }
}

pub struct Sprite {
    pub idx: Word,
}

impl Sprite {
    pub fn y(&self, mem: &Memory) -> (r: Byte)
        requires
            self.idx < 128,
        ensures
            r == attribute(mem@, self.idx as int, 0),
    {
        mem[MEM_OAM + self.idx * OBJ_ATTR_SIZE]
    }

    pub fn x(&self, mem: &Memory) -> (r: Byte)
        requires
            self.idx < 128,
        ensures
            r == attribute(mem@, self.idx as int, 1),
    {
        mem[MEM_OAM + self.idx * OBJ_ATTR_SIZE + 1]
    }

    pub fn tile(&self, mem: &Memory) -> (r: Byte)
        requires
            self.idx < 128,
        ensures
            r == sprite_tile(mem@, self.idx as int),
    {
        let tile: Byte = mem[MEM_OAM + self.idx * OBJ_ATTR_SIZE + 2];
        proof {
            lemma_register_masks(tile);
        }
        if bit_test(2, mem[LCDC]) {
            tile & 0xFE  // masked, ignore least sig. bit (hardware-enforced)

        } else {
            tile
        }
    }

    pub fn flags(&self, mem: &Memory) -> (r: Byte)
        requires
            self.idx < 128,
        ensures
            r == attribute(mem@, self.idx as int, 3),
    {
        mem[MEM_OAM + self.idx * OBJ_ATTR_SIZE + 3]
    }

    /// The line of the sprite that the scanline crosses, or `SPRITE_NOT_HIT`.
    pub fn hit(&self, mem: &Memory) -> (r: Byte)
        requires
            self.idx < 128,
            sprite_fits(mem@, self.idx as int),
        ensures
            r == sprite_line(mem@, self.idx as int),
    {
        if self.x(mem) != 0 {
            let scanline: Byte = mem[LY] + 16;
            let height: Byte = if bit_test(2, mem[LCDC]) {
                16
            } else {
                8
            };
            let yy: Byte = self.y(mem);
            if scanline >= yy && scanline < yy + height {
                if bit_test(6, self.flags(mem)) {
                    (height - 1) - (scanline - yy)
                } else {
                    scanline - yy
                }
            } else {
                SPRITE_NOT_HIT
            }
        } else {
            SPRITE_NOT_HIT
        }
    }
}

/// A sprite on the scanline, and the line of it that is drawn.
pub struct SpriteHit {
    pub sprite: Sprite,
    pub line: Byte,
}

// ---------------------------------------------------------------------------------------------
// pixels
// ---------------------------------------------------------------------------------------------
/// The color of pixel `i` of a tile line: one bit from each of its two bytes.
#[verifier::opaque]
pub open spec fn tile_pixel(low: u8, high: u8, i: int) -> u8 {
    (bits::digit(bits::has_bit(low, i)) + 2 * bits::digit(bits::has_bit(high, i))) as u8
}

/// Decodes a tile line. Pixel 0 is the rightmost.
pub fn ppu_decode_tile_line(low: Byte, high: Byte) -> (r: [Byte; PPU_TILE_WIDTH])
    ensures
        forall|i: int| 0 <= i < 8 ==> r[i] == tile_pixel(low, high, i),
{
    let mut result: [Byte; PPU_TILE_WIDTH] = [0; PPU_TILE_WIDTH];
    let mut i: usize = 0;
    while i < PPU_TILE_WIDTH
        invariant
            0 <= i <= 8,
            forall|j: int| 0 <= j < i ==> result[j] == tile_pixel(low, high, j),
        decreases 8 - i,
    {
        reveal(tile_pixel);
        result[i] = bits::bit(i as Byte, low) + 2 * bits::bit(i as Byte, high);
        i += 1;
    }
    result
}

/// The color at a pixel of a tile line in memory.
pub open spec fn pixel_at(mem: Ram, addr: int, i: int) -> u8 {
    tile_pixel(mem.peek(addr), mem.peek(addr + 1), i)
}

/// The color at a pixel of a tile line in memory.
fn tile_color(mem: &Memory, addr: Word, i: Byte) -> (r: Byte)
    requires
        addr < 0xFFFF,
        i < 8,
    ensures
        r == pixel_at(mem@, addr as int, i as int),
{
    let line_data = ppu_decode_tile_line(mem[addr], mem[addr + 1]);
    line_data[i as usize]
}

/// The address of a background tile. In signed addressing tile 0 is at 0x9000.
pub open spec fn tile_address(mem: Ram, id: u8) -> int {
    if bits::has_bit(mem.peek(LCDC as int), 4) {
        MEM_VRAM + id * 16
    } else {
        MEM_VRAM + 0x1000 + bits::signed_value(id) * 16
    }
}

/// The start of the map of the background.
pub open spec fn map_start(mem: Ram) -> int {
    if bits::has_bit(mem.peek(LCDC as int), 3) {
        0x9C00
    } else {
        0x9800
    }
}

/// The color at a place of the background, a plane of 32 by 32 tiles.
pub open spec fn plane_color(mem: Ram, x: u8, y: u8) -> u8 {
    let id = mem.peek(map_start(mem) + x as int / 8 + y as int / 8 * 32);
    pixel_at(mem, tile_address(mem, id) + 2 * (y as int % 8), 7 - x as int % 8)
}

/// The background at column `c` of a line of the screen. The plane is scrolled, and closed in both
/// directions.
pub open spec fn background(mem: Ram, line: u8, c: int) -> u32 {
    let x = ((mem.peek(SCX as int) + c) % 256) as u8;
    let y = ((mem.peek(SCY as int) + line) % 256) as u8;
    PAL_CLASSIC[cpu::shade(plane_color(mem, x, y), mem.peek(BGP as int))]
}

/// The color of a sprite at column `c`, 0 where it shows nothing. Sprites are placed 8 columns to
/// the left of the screen.
pub open spec fn sprite_color(mem: Ram, sprite: (int, u8), c: int) -> u8 {
    let column = c + 8 - attribute(mem, sprite.0, 1);
    let scale: int = if sprite.1 > 7 {
        2
    } else {
        1
    };
    let row = MEM_VRAM + sprite_tile(mem, sprite.0) * 16 * scale + 2 * (sprite.1 % 8);
    if 0 <= column < 8 {
        pixel_at(mem, row, 7 - column)
    } else {
        0
    }
}

/// The pixel `under` the first `n` sprites, which are drawn over it in turn.
pub open spec fn with_sprites(
    mem: Ram,
    sprites: Seq<(int, u8)>,
    n: int,
    c: int,
    under: u32,
) -> u32
    decreases n,
{
    if n <= 0 {
        under
    } else {
        let color = sprite_color(mem, sprites[n - 1], c);
        if color != 0 {
            PAL_ICE_CREAM[cpu::shade(color, mem.peek(OBP0 as int))]
        } else {
            with_sprites(mem, sprites, n - 1, c, under)
        }
    }
}

/// The pixel at column `c` of a line of the screen.
pub open spec fn screen_pixel(mem: Ram, sprites: Seq<(int, u8)>, line: u8, c: int) -> u32 {
    with_sprites(mem, sprites, sprites.len() as int, c, background(mem, line, c))
}

/// The address of a background tile.
fn tile_start(mem: &Memory, id: Byte) -> (r: Word)
    ensures
        r == tile_address(mem@, id),
        0x8000 <= r <= 0x97F0,
{
    if bit_test(4, mem[LCDC]) {
        MEM_VRAM + id as Word * BYTES_PER_TILE
    } else if id < 128 {
        // in signed addressing the 0 tile is at 0x9000
        MEM_VRAM + 0x1000 + id as Word * BYTES_PER_TILE
    } else {
        MEM_VRAM + 0x1000 - (256 - id as Word) * BYTES_PER_TILE
    }
}

/// The color at a place of the background.
fn background_color(mem: &Memory, bg_x: Byte, bg_y: Byte) -> (r: Byte)
    ensures
        r == plane_color(mem@, bg_x, bg_y),
{
    let bg_tilemap_start: Word = if bit_test(3, mem[LCDC]) {
        0x9C00
    } else {
        0x9800
    };
    let bg_tile_index: Word = bg_x as Word / 8 + bg_y as Word / 8 * 32;
    let bg_tile_id: Byte = mem[bg_tilemap_start + bg_tile_index];
    let bg_tile_data: Word = tile_start(mem, bg_tile_id);
    let bg_tile_line_offset: Word = bg_tile_data + (bg_y as Word % 8) * 2;
    let bg_tile_current_pixel: Byte = 7 - bg_x % 8;
    tile_color(mem, bg_tile_line_offset, bg_tile_current_pixel)
}

/// The background at column `c` of a line of the screen.
fn background_pixel(mem: &Memory, line: Byte, c: Byte) -> (r: u32)
    requires
        c < 160,
    ensures
        r == background(mem@, line, c as int),
{
    let bg_y: Byte = mem[SCY].wrapping_add(line);
    let bg_x: Byte = mem[SCX].wrapping_add(c);
    palette_lookup(background_color(mem, bg_x, bg_y), mem[BGP], &PAL_CLASSIC)
}

/// The pixel `under` the sprites at column `c`.
fn sprites_pixel(mem: &Memory, hits: &Vec<SpriteHit>, c: Byte, under: u32) -> (r: u32)
    requires
        c < 160,
        forall|i: int| 0 <= i < hits@.len() ==> hits@[i].sprite.idx < 128,
    ensures
        r == with_sprites(mem@, hits_view(hits@), hits@.len() as int, c as int, under),
{
    // the x attr for the sprite is an offset from -8 to allow
    // for off-screen (left side) positions.
    // We can simply adjust the value of c on this line
    // to account for this.
    let c_off: Byte = c + 8;
    let mut pixel: u32 = under;
    let mut i: usize = 0;
    while i < hits.len()
        invariant
            0 <= i <= hits@.len(),
            c < 160,
            c_off == c + 8,
            forall|i: int| 0 <= i < hits@.len() ==> hits@[i].sprite.idx < 128,
            pixel == with_sprites(mem@, hits_view(hits@), i as int, c as int, under),
        decreases hits@.len() - i,
    {
        let hit = &hits[i];
        let x: Byte = hit.sprite.x(mem);
        assert(hits_view(hits@)[i as int] == (hit.sprite.idx as int, hit.line));
        if c_off >= x && c_off < x + 8 {
            // for double height sprites
            let data_size_mul: Word = if hit.line > 7 {
                2
            } else {
                1
            };
            let spr_tile_data_offset: Word = hit.sprite.tile(mem) as Word * BYTES_PER_TILE
                * data_size_mul;
            let tile_hit_line: Byte = hit.line % 8;
            // from here we can work in a tile-local context
            let row: Word = MEM_VRAM + spr_tile_data_offset + tile_hit_line as Word * 2;
            let spr_pix: Byte = 7 - (c_off - x);
            let color: Byte = tile_color(mem, row, spr_pix);
            assert(row == MEM_VRAM + sprite_tile(mem@, hit.sprite.idx as int) * 16 * data_size_mul
                + 2 * (hit.line % 8));
            if color != 0 {
                pixel = palette_lookup(color, mem[OBP0], &PAL_ICE_CREAM);
            }
        }
        i += 1;
    }
    pixel
}

// ---------------------------------------------------------------------------------------------
// registers
// ---------------------------------------------------------------------------------------------
/// The mode that the status register shows: 0 horizontal blank, 1 vertical blank, 2 sprite search,
/// 3 drawing.
pub open spec fn mode(mem: Ram) -> int {
    (mem.read(STAT as int) % 4) as int
}

/// Memory with the mode replaced.
pub open spec fn with_mode(mem: Ram, m: u8) -> Ram {
    let stat = mem.read(STAT as int);
    mem.write(STAT as int, (stat - stat % 4 + m % 4) as u8)
}

/// Whether the scanline is the one that the program waits for.
pub open spec fn line_matches(mem: Ram) -> bool {
    mem.read(LY as int) == mem.read(LYC as int)
}

/// Memory after the scanline was compared: bit 2 of the status register shows a match, and a match
/// requests an interrupt if bit 6 asks for it.
pub open spec fn line_compared(mem: Ram) -> Ram {
    let stat = bits::with_bit(mem.read(STAT as int), 2, line_matches(mem));
    let marked = mem.write(STAT as int, stat);
    if line_matches(mem) && bits::has_bit(stat, 6) {
        marked.write(IF as int, bits::with_bit(mem.read(IF as int), 1, true))
    } else {
        marked
    }
}

/// Compares the scanline with the one that the program waits for; tells whether they match.
pub fn lcd_compare_ly_lyc(mem: &mut Memory) -> (r: bool)
    ensures
        r == line_matches(old(mem)@),
        final(mem)@ == line_compared(old(mem)@),
{
    // https://gbdev.io/pandocs/STAT.html#ff45--lyc-ly-compare
    let equal = mem.read(LY) == mem.read(LYC);
    let stat: Byte = mem.read(STAT);
    proof {
        bits::lemma_bit_mask(stat, 2);
        bits::lemma_bit_mask(mem@.read(IF as int), 1);
    }
    let comparison: Byte = bit_set(STAT_BIT_LY_LYC_EQ, stat, equal);
    mem.write(STAT, comparison);
    if equal && bit_test(6, comparison) {
        // if LYC int select is enabled, request an interrupt
        request_interrupt(mem, FL_INT_STAT);
    }
    equal
}

/// The mode that the status register shows.
pub fn lcd_mode(mem: &Memory) -> (r: Byte)
    ensures
        r == mode(mem@),
{
    let stat: Byte = mem.read(STAT);
    proof {
        lemma_register_masks(stat);
    }
    stat & STAT_MASK_PPU_MODE
}

/// Replaces the mode in the status register.
pub fn set_lcd_mode(mode: Byte, mem: &mut Memory)
    ensures
        final(mem)@ == with_mode(old(mem)@, mode),
{
    let stat: Byte = mem.read(STAT);
    proof {
        lemma_register_masks(stat);
        lemma_mode_union(stat, mode);
    }
    mem.write(STAT, (stat & !STAT_MASK_PPU_MODE) | (mode & STAT_MASK_PPU_MODE));
}

proof fn lemma_register_masks(v: u8)
    by (bit_vector)
    ensures
        v & 0xFE == v - v % 2,
        v & 3 == v % 4,
{
}

proof fn lemma_mode_union(stat: u8, mode: u8)
    by (bit_vector)
    ensures
        (stat & !3u8) | (mode & 3u8) == stat - stat % 4 + mode % 4,
{
}

// ---------------------------------------------------------------------------------------------
// the frame
// ---------------------------------------------------------------------------------------------
/// The display as a value: the pixels line by line, the sprites found for the current line, the
/// cycles spent in the current mode, and the debugger's own scanline counter.
#[verifier::ext_equal]
pub struct Screen {
    pub buffer: Seq<u32>,
    pub sprites: Seq<(int, u8)>,
    pub timing: int,
    pub doctor: bool,
    pub doctor_line: u8,
}

impl Screen {
    /// There is a pixel for every place on the screen, and every sprite found is in the table.
    pub open spec fn wf(self) -> bool {
        &&& self.buffer.len() == 160 * 144
        &&& self.sprites.len() <= 10
        &&& forall|i: int| 0 <= i < self.sprites.len() ==> 0 <= (#[trigger] self.sprites[i]).0 < 40
    }
}

/// The display and the memory that it reads and writes.
#[verifier::ext_equal]
pub struct Lcd {
    pub screen: Screen,
    pub mem: Ram,
}

/// The scanline that is drawn.
pub open spec fn drawn_line(s: Lcd) -> u8 {
    if s.screen.doctor {
        s.screen.doctor_line
    } else {
        s.mem.peek(LY as int)
    }
}

/// The scanline counter that the display keeps.
pub open spec fn line_counter(s: Lcd) -> u8 {
    if s.screen.doctor {
        s.screen.doctor_line
    } else {
        s.mem.data[LY as int]
    }
}

/// The display and memory with the scanline counter replaced.
pub open spec fn with_line(s: Lcd, line: u8) -> Lcd {
    if s.screen.doctor {
        Lcd { screen: Screen { doctor_line: line, ..s.screen }, mem: s.mem }
    } else {
        Lcd { screen: s.screen, mem: s.mem.poke(LY as int, line) }
    }
}

/// The pixels with one line drawn.
pub open spec fn line_drawn(s: Lcd) -> Seq<u32> {
    let start = 160 * drawn_line(s);
    Seq::new(
        s.screen.buffer.len(),
        |i: int|
            if start <= i < start + 160 {
                screen_pixel(s.mem, s.screen.sprites, drawn_line(s), i - start)
            } else {
                s.screen.buffer[i]
            },
    )
}

/// A mode entered, with the time that it took to get there spent.
pub open spec fn enter(s: Lcd, m: u8, spent: int) -> Lcd {
    Lcd {
        screen: Screen { timing: s.screen.timing - spent, ..s.screen },
        mem: with_mode(s.mem, m),
    }
}

/// The end of the sprite search.
pub open spec fn searched(s: Lcd) -> Lcd {
    enter(
        Lcd { screen: Screen { sprites: sprites_found(s.mem, 40), ..s.screen }, mem: s.mem },
        3,
        80,
    )
}

/// The end of the drawing of a line.
pub open spec fn drawn(s: Lcd) -> Lcd {
    enter(Lcd { screen: Screen { buffer: line_drawn(s), ..s.screen }, mem: s.mem }, 0, 168)
}

/// The end of a line: the next one is searched for sprites, and after the last one on the screen
/// an interrupt announces the vertical blank.
pub open spec fn line_ended(s: Lcd) -> Lcd {
    let t = with_line(s, (line_counter(s) + 1) as u8);
    if line_counter(s) + 1 == 144 {
        enter(
            Lcd {
                screen: t.screen,
                mem: t.mem.write(IF as int, bits::with_bit(t.mem.read(IF as int), 0, true)),
            },
            1,
            208,
        )
    } else {
        enter(t, 2, 208)
    }
}

/// The vertical blank, in which the counter runs through ten more lines, and its end.
pub open spec fn blanked(s: Lcd) -> Lcd {
    if s.screen.timing >= 4560 {
        enter(with_line(s, 0), 2, 4560)
    } else {
        with_line(s, ((144 + s.screen.timing / 456) % 256) as u8)
    }
}

/// The display after `dt` cycles were added to the time in the current mode and the scanline was
/// compared.
pub open spec fn timed(s: Lcd, dt: int) -> Lcd {
    Lcd {
        screen: Screen { timing: s.screen.timing + dt, ..s.screen },
        mem: line_compared(s.mem),
    }
}

/// The display after `dt` more cycles. At most one mode ends.
pub open spec fn refreshed(s: Lcd, dt: int) -> Lcd {
    let t = timed(s, dt);
    let m = mode(t.mem);
    if m == 2 {
        if t.screen.timing >= 80 {
            searched(t)
        } else {
            t
        }
    } else if m == 3 {
        if t.screen.timing >= 168 {
            drawn(t)
        } else {
            t
        }
    } else if m == 0 {
        if t.screen.timing >= 208 {
            line_ended(t)
        } else {
            t
        }
    } else {
        blanked(t)
    }
}

/// Whether `dt` more cycles complete a frame.
pub open spec fn completes(s: Lcd, dt: int) -> bool {
    mode(line_compared(s.mem)) == 1 && s.screen.timing + dt >= 4560
}

/// Whether every position that `dt` more cycles lead to is on the screen, and every number that
/// is formed on the way can be held.
pub open spec fn refresh_fits(s: Lcd, dt: int) -> bool {
    let t = timed(s, dt);
    let m = mode(t.mem);
    &&& t.screen.timing <= u64::MAX
    &&& m == 2 && t.screen.timing >= 80 ==> forall|n: int|
        0 <= n < 40 ==> #[trigger] sprite_fits(t.mem, n)
    &&& m == 3 && t.screen.timing >= 168 ==> drawn_line(t) < 144
    &&& m == 0 && t.screen.timing >= 208 ==> line_counter(t) < 255
}

pub struct Display {
    pub buffer: Vec<u32>,
    pub buffer_sprites: Vec<SpriteHit>,
    pub lcd_timing: u64,
    // debug
    pub doctor: bool,
    pub doctor_LY: Byte,
}

/// The sprites found, as pairs of a number and a line.
pub open spec fn hits_view(hits: Seq<SpriteHit>) -> Seq<(int, u8)> {
    Seq::new(hits.len(), |i: int| (hits[i].sprite.idx as int, hits[i].line))
}

impl View for Display {
    type V = Screen;

    open spec fn view(&self) -> Screen {
        Screen {
            buffer: self.buffer@,
            sprites: hits_view(self.buffer_sprites@),
            timing: self.lcd_timing as int,
            doctor: self.doctor,
            doctor_line: self.doctor_LY,
        }
    }
}

impl Display {
    /// A dark screen at the start of a frame.
    pub fn new() -> (r: Display)
        ensures
            r@.wf(),
            r@ == (Screen {
                buffer: Seq::new(160 * 144, |i: int| 0u32),
                sprites: Seq::empty(),
                timing: 0,
                doctor: false,
                doctor_line: 0,
            }),
    {
        let buffer: Vec<u32> = vec![0; GB_SCREEN_WIDTH * GB_SCREEN_HEIGHT];
        Display { buffer, buffer_sprites: Vec::new(), lcd_timing: 0, doctor: false, doctor_LY: 0 }
    }

    /// Finds the sprites on the scanline.
    fn search_sprites(&mut self, mem: &Memory)
        requires
            forall|n: int| 0 <= n < 40 ==> #[trigger] sprite_fits(mem@, n),
        ensures
            final(self)@ == (Screen { sprites: sprites_found(mem@, 40), ..old(self)@ }),
    {
        let mut hits: Vec<SpriteHit> = Vec::new();
        let mut n: Word = 0;
        assert(hits_view(hits@) =~= sprites_found(mem@, 0));
        while n < SPRITE_COUNT
            invariant
                0 <= n <= 40,
                forall|n: int| 0 <= n < 40 ==> #[trigger] sprite_fits(mem@, n),
                hits_view(hits@) == sprites_found(mem@, n as int),
            decreases 40 - n,
        {
            let sprite = Sprite { idx: n };
            assert(sprite_fits(mem@, n as int));
            let line: Byte = sprite.hit(mem);
            let ghost before = hits@;
            assert(hits_view(before).len() == before.len());
            if hits.len() < SPRITES_PER_LINE && line != SPRITE_NOT_HIT {
                hits.push(SpriteHit { sprite, line });
                assert(hits_view(hits@) =~= hits_view(before).push((n as int, line)));
            }
            n += 1;
        }
        self.buffer_sprites = hits;
    }

    /// Draws one line of the screen.
    fn draw_line(&mut self, mem: &Memory, line: Byte)
        requires
            old(self)@.wf(),
            line < 144,
            line == drawn_line((Lcd { screen: old(self)@, mem: mem@ })),
        ensures
            final(self)@ == (Screen {
                buffer: line_drawn((Lcd { screen: old(self)@, mem: mem@ })),
                ..old(self)@
            }),
    {
        let ln_start: usize = GB_SCREEN_WIDTH * line as usize;
        let mut c: usize = 0;
        while c < GB_SCREEN_WIDTH
            invariant
                0 <= c <= 160,
                line < 144,
                ln_start == 160 * line,
                old(self)@.wf(),
                self@ == (Screen { buffer: self@.buffer, ..old(self)@ }),
                self@.buffer.len() == 160 * 144,
                forall|i: int|
                    0 <= i < 160 * 144 ==> self@.buffer[i] == if ln_start <= i < ln_start + c {
                        screen_pixel(mem@, old(self)@.sprites, line, i - ln_start)
                    } else {
                        old(self)@.buffer[i]
                    },
            decreases 160 - c,
        {
            proof {
                assert(self@.sprites =~= hits_view(self.buffer_sprites@));
                assert forall|i: int| 0 <= i < self.buffer_sprites@.len() implies (
                #[trigger] self.buffer_sprites@[i]).sprite.idx < 128 by {
                    assert(old(self)@.sprites[i].0 == self.buffer_sprites@[i].sprite.idx);
                }
            }
            let under: u32 = background_pixel(mem, line, c as Byte);
            let pixel: u32 = sprites_pixel(mem, &self.buffer_sprites, c as Byte, under);
            self.buffer[ln_start + c] = pixel;
            c += 1;
        }
    }

    /// Replaces the scanline counter.
    fn set_line(&mut self, mem: &mut Memory, line: Byte)
        ensures
            (Lcd { screen: final(self)@, mem: final(mem)@ }) == with_line(
                (Lcd { screen: old(self)@, mem: old(mem)@ }),
                line,
            ),
    {
        if self.doctor {
            self.doctor_LY = line;
        } else {
            *mem.index_mut(LY) = line;
        }
    }

    /// Lets `dt` cycles pass. Tells whether they completed a frame, which is then to be shown.
    pub fn update(&mut self, mem: &mut Memory, dt: u64) -> (r: bool)
        requires
            old(self)@.wf(),
            refresh_fits((Lcd { screen: old(self)@, mem: old(mem)@ }), dt as int),
        ensures
            final(self)@.wf(),
            (Lcd { screen: final(self)@, mem: final(mem)@ }) == refreshed(
                (Lcd { screen: old(self)@, mem: old(mem)@ }),
                dt as int,
            ),
            r == completes((Lcd { screen: old(self)@, mem: old(mem)@ }), dt as int),
    {
        self.lcd_timing = self.lcd_timing + dt;
        lcd_compare_ly_lyc(mem);
        let ghost t = Lcd { screen: self@, mem: mem@ };
        assert(t =~= timed(Lcd { screen: old(self)@, mem: old(mem)@ }, dt as int));
        match lcd_mode(mem) {
            // oam search
            2 => {
                if self.lcd_timing >= TICKS_PER_OAM_SEARCH {
                    self.search_sprites(mem);
                    set_lcd_mode(3, mem);
                    self.lcd_timing = self.lcd_timing - TICKS_PER_OAM_SEARCH;
                    proof {
                        lemma_sprites_found(t.mem, 40);
                    }
                }
                false
            },
            // vram io
            3 => {
                if self.lcd_timing >= TICKS_PER_VRAM_IO {
                    let cur_line: Byte = if self.doctor {
                        self.doctor_LY
                    } else {
                        mem[LY]
                    };
                    self.draw_line(mem, cur_line);
                    set_lcd_mode(0, mem);
                    self.lcd_timing = self.lcd_timing - TICKS_PER_VRAM_IO;
                }
                false
            },
            // hblank
            0 => {
                if self.lcd_timing >= TICKS_PER_HBLANK {
                    let cur_line: Byte = if self.doctor {
                        self.doctor_LY
                    } else {
                        mem.data[LY as usize]
                    };
                    self.set_line(mem, cur_line + 1);
                    self.lcd_timing = self.lcd_timing - TICKS_PER_HBLANK;
                    if cur_line + 1 == GB_SCREEN_HEIGHT as Byte {
                        // values 144 to 153 are vblank
                        proof {
                            bits::lemma_bit_mask(mem@.read(IF as int), 0);
                        }
                        request_interrupt(mem, FL_INT_VBLANK);
                        set_lcd_mode(1, mem);
                    } else {
                        set_lcd_mode(2, mem);
                    }
                }
                false
            },
            // vblank
            _ => {
                if self.lcd_timing >= TICKS_PER_VBLANK {
                    self.set_line(mem, 0);
                    set_lcd_mode(2, mem);
                    self.lcd_timing = self.lcd_timing - TICKS_PER_VBLANK;
                    true
                } else {
                    let line: u64 = GB_SCREEN_HEIGHT as u64 + self.lcd_timing / TICKS_PER_SCANLINE;
                    self.set_line(mem, line as Byte);
                    false
                }
            },
        }
    }
}

/// The sprites found for a line are few enough, and all of them are in the table.
pub proof fn lemma_sprites_found(mem: Ram, n: int)
    requires
        0 <= n <= 40,
    ensures
        sprites_found(mem, n).len() <= 10,
        forall|i: int|
            0 <= i < sprites_found(mem, n).len() ==> 0 <= (#[trigger] sprites_found(mem, n)[i]).0
                < n,
    decreases n,
{
    if n > 0 {
        lemma_sprites_found(mem, n - 1);
    }
}

} // verus!
