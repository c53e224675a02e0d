use cerboy::cpu::{
    palette_lookup, request_interrupt, update_clocks, HardwareTimers, FL_INT_STAT, FL_INT_TIMER,
    FL_INT_VBLANK, PAL_CLASSIC, PAL_ICE_CREAM, TICKS_PER_FRAME,
};
use cerboy::guard::refresh_fits;
use cerboy::lcd::{
    lcd_compare_ly_lyc, lcd_mode, ppu_decode_tile_line, set_lcd_mode, Display, Sprite,
    SPRITE_NOT_HIT,
};
use cerboy::memory::{
    Memory, BGP, DIV, IF, LCDC, LY, LYC, MEM_OAM, OBP0, SCX, SCY, STAT, TAC, TIMA, TMA,
};

/// Lets `dt` cycles pass, which have to fit.
fn pass(lcd: &mut Display, mem: &mut Memory, dt: u64) -> bool {
    assert!(refresh_fits(lcd, mem, dt));
    lcd.update(mem, dt)
}

/// A display about to draw line `line`.
fn at_line(line: u8) -> (Display, Memory) {
    let mut mem = Memory::new();
    let lcd = Display::new();
    set_lcd_mode(2, &mut mem);
    mem.write(LY, line);
    mem.write(BGP, 0xE4);
    mem.write(OBP0, 0xE4);
    (lcd, mem)
}

/// Places a sprite.
fn place(mem: &mut Memory, n: u16, y: u8, x: u8, tile: u8, flags: u8) {
    for (i, b) in [y, x, tile, flags].iter().enumerate() {
        mem.write(MEM_OAM + 4 * n + i as u16, *b);
    }
}

#[test]
fn tile_lines() {
    assert_eq!(
        ppu_decode_tile_line(0b0000_0001, 0b1000_0001),
        [3, 0, 0, 0, 0, 0, 0, 2]
    );
    assert_eq!(ppu_decode_tile_line(0xFF, 0x00), [1; 8]);
    assert_eq!(ppu_decode_tile_line(0x3C, 0x7E), [0, 2, 3, 3, 3, 3, 2, 0]);
}

#[test]
fn palettes() {
    for color in 0..=255u8 {
        assert_eq!(
            palette_lookup(color, 0xE4, &PAL_CLASSIC),
            PAL_CLASSIC[color as usize % 4]
        );
        assert_eq!(
            palette_lookup(color, 0x1B, &PAL_CLASSIC),
            PAL_CLASSIC[3 - color as usize % 4]
        );
    }
}

#[test]
fn modes_follow_each_other() {
    let (mut lcd, mut mem) = at_line(0);
    assert!(!pass(&mut lcd, &mut mem, 79));
    assert_eq!(lcd_mode(&mem), 2);
    pass(&mut lcd, &mut mem, 4);
    assert_eq!((lcd_mode(&mem), lcd.lcd_timing), (3, 3));
    pass(&mut lcd, &mut mem, 165);
    assert_eq!((lcd_mode(&mem), lcd.lcd_timing), (0, 0));
    pass(&mut lcd, &mut mem, 208);
    assert_eq!((lcd_mode(&mem), mem.read(LY)), (2, 1));
}

#[test]
fn a_frame_takes_its_cycles() {
    let (mut lcd, mut mem) = at_line(0);
    let mut time = 0;
    for line in 0..144u8 {
        assert_eq!((mem.read(LY), lcd_mode(&mem)), (line, 2));
        assert_eq!(mem.read(IF) & FL_INT_VBLANK, 0);
        for dt in [80, 168, 208] {
            assert!(!pass(&mut lcd, &mut mem, dt));
            time += dt;
        }
    }
    assert_eq!((mem.read(LY), lcd_mode(&mem)), (144, 1));
    assert_eq!(mem.read(IF) & FL_INT_VBLANK, FL_INT_VBLANK);
    for line in 1..10u8 {
        assert!(!pass(&mut lcd, &mut mem, 456));
        assert_eq!((mem.read(LY), lcd_mode(&mem)), (144 + line, 1));
        time += 456;
    }
    assert!(pass(&mut lcd, &mut mem, 456));
    time += 456;
    assert_eq!(time, TICKS_PER_FRAME);
    assert_eq!(time, 70224);
    assert_eq!((mem.read(LY), lcd_mode(&mem), lcd.lcd_timing), (0, 2, 0));
}

#[test]
fn the_debugger_has_its_own_counter() {
    let (mut lcd, mut mem) = at_line(7);
    lcd.doctor = true;
    mem.doctor = true;
    for dt in [80, 168, 208] {
        pass(&mut lcd, &mut mem, dt);
    }
    assert_eq!(lcd.doctor_LY, 1);
    assert_eq!(mem.data[LY as usize], 7);
    assert_eq!(mem.read(LY), 0x90);
}

#[test]
fn a_matching_line_requests_an_interrupt() {
    let (_, mut mem) = at_line(5);
    mem.write(LYC, 5);
    assert!(lcd_compare_ly_lyc(&mut mem));
    assert_eq!(mem.read(STAT), 0x06);
    assert_eq!(mem.read(IF), 0);
    mem.write(STAT, 0x40);
    assert!(lcd_compare_ly_lyc(&mut mem));
    assert_eq!(mem.read(STAT), 0x44);
    assert_eq!(mem.read(IF), FL_INT_STAT);
    mem.write(LYC, 6);
    assert!(!lcd_compare_ly_lyc(&mut mem));
    assert_eq!(mem.read(STAT), 0x40);
}

#[test]
fn setting_the_mode_keeps_the_other_bits() {
    let mut mem = Memory::new();
    mem.write(STAT, 0xFC);
    for mode in 0..8u8 {
        set_lcd_mode(mode, &mut mem);
        assert_eq!(lcd_mode(&mem), mode % 4);
        assert_eq!(mem.read(STAT) & 0xFC, 0xFC);
    }
}

#[test]
fn a_line_of_background() {
    let (mut lcd, mut mem) = at_line(9);
    // tile 1 stands at the second row of the map, third column
    mem.write(0x9800 + 32 + 2, 1);
    mem.write(0x8010 + 2, 0b1000_0001);
    mem.write(0x8010 + 3, 0b1000_0010);
    pass(&mut lcd, &mut mem, 80);
    pass(&mut lcd, &mut mem, 168);
    let row = &lcd.buffer[9 * 160..10 * 160];
    for (c, pixel) in row.iter().enumerate() {
        let color = match c {
            16 => 3,
            22 => 2,
            23 => 1,
            _ => 0,
        };
        assert_eq!(*pixel, PAL_CLASSIC[color], "column {}", c);
    }
    // no other line was drawn
    assert!(lcd.buffer[..9 * 160].iter().all(|p| *p == 0));
    assert!(lcd.buffer[10 * 160..].iter().all(|p| *p == 0));
}

#[test]
fn the_background_scrolls_and_is_closed() {
    let (mut lcd, mut mem) = at_line(0);
    mem.write(0x9800, 1);
    mem.write(0x8010, 0xFF);
    mem.write(SCX, 250);
    mem.write(SCY, 0);
    pass(&mut lcd, &mut mem, 80);
    pass(&mut lcd, &mut mem, 168);
    for c in 0..160 {
        let color = if (6..14).contains(&c) { 1 } else { 0 };
        assert_eq!(lcd.buffer[c], PAL_CLASSIC[color], "column {}", c);
    }
    let (mut lcd, mut mem) = at_line(3);
    mem.write(0x9800, 1);
    mem.write(0x8010 + 14, 0xFF);
    mem.write(SCY, 4);
    pass(&mut lcd, &mut mem, 80);
    pass(&mut lcd, &mut mem, 168);
    assert_eq!(lcd.buffer[3 * 160], PAL_CLASSIC[1]);
}

#[test]
fn tiles_can_be_numbered_with_a_sign() {
    let (mut lcd, mut mem) = at_line(0);
    mem.write(LCDC, 0x81 | 0x08);
    mem.write(0x9C00, 0x01);
    mem.write(0x9C01, 0xFF);
    mem.write(0x9010, 0xFF);
    mem.write(0x8FF1, 0xFF);
    pass(&mut lcd, &mut mem, 80);
    pass(&mut lcd, &mut mem, 168);
    assert_eq!(lcd.buffer[0], PAL_CLASSIC[1]);
    assert_eq!(lcd.buffer[8], PAL_CLASSIC[2]);
    assert_eq!(lcd.buffer[16], PAL_CLASSIC[0]);
}

#[test]
fn sprites_cover_the_background() {
    let (mut lcd, mut mem) = at_line(4);
    // lines 2 to 9, columns 10 to 17
    place(&mut mem, 3, 18, 18, 5, 0);
    mem.write(0x8000 + 5 * 16 + 4, 0b1100_0000);
    mem.write(0x8000 + 5 * 16 + 5, 0b0100_0000);
    pass(&mut lcd, &mut mem, 80);
    assert_eq!(lcd.buffer_sprites.len(), 1);
    assert_eq!(
        (lcd.buffer_sprites[0].sprite.idx, lcd.buffer_sprites[0].line),
        (3, 2)
    );
    pass(&mut lcd, &mut mem, 168);
    let row = &lcd.buffer[4 * 160..5 * 160];
    assert_eq!(row[9], PAL_CLASSIC[0]);
    assert_eq!(row[10], PAL_ICE_CREAM[1]);
    assert_eq!(row[11], PAL_ICE_CREAM[3]);
    // a sprite's color 0 is transparent
    assert_eq!(row[12], PAL_CLASSIC[0]);
    assert_eq!(row[18], PAL_CLASSIC[0]);
}

#[test]
fn a_line_has_room_for_ten_sprites() {
    let (mut lcd, mut mem) = at_line(0);
    for n in 0..40u16 {
        if n % 3 == 0 {
            place(&mut mem, n, 16, 8, 0, 0);
        }
    }
    pass(&mut lcd, &mut mem, 80);
    let found: Vec<u16> = lcd.buffer_sprites.iter().map(|h| h.sprite.idx).collect();
    assert_eq!(found, vec![0, 3, 6, 9, 12, 15, 18, 21, 24, 27]);
}

#[test]
fn sprites_on_a_line() {
    let mut mem = Memory::new();
    mem.write(LY, 20);
    let sprite = Sprite { idx: 2 };
    place(&mut mem, 2, 36, 8, 0x33, 0x00);
    assert_eq!((sprite.y(&mem), sprite.x(&mem)), (36, 8));
    assert_eq!((sprite.tile(&mem), sprite.flags(&mem)), (0x33, 0x00));
    assert_eq!(sprite.hit(&mem), 0);
    place(&mut mem, 2, 29, 8, 0x33, 0x00);
    assert_eq!(sprite.hit(&mem), 7);
    // flipped
    place(&mut mem, 2, 29, 8, 0x33, 0x40);
    assert_eq!(sprite.hit(&mem), 0);
    place(&mut mem, 2, 28, 8, 0x33, 0x00);
    assert_eq!(sprite.hit(&mem), SPRITE_NOT_HIT);
    place(&mut mem, 2, 37, 8, 0x33, 0x00);
    assert_eq!(sprite.hit(&mem), SPRITE_NOT_HIT);
    // off
    place(&mut mem, 2, 36, 0, 0x33, 0x00);
    assert_eq!(sprite.hit(&mem), SPRITE_NOT_HIT);
    // tall
    mem.write(LCDC, 0x95);
    place(&mut mem, 2, 28, 8, 0x33, 0x00);
    assert_eq!((sprite.hit(&mem), sprite.tile(&mem)), (8, 0x32));
}

#[test]
fn what_does_not_fit_is_refused() {
    let (mut lcd, mut mem) = at_line(200);
    // the line is below the screen
    assert!(refresh_fits(&lcd, &mem, 80));
    lcd.update(&mut mem, 80);
    assert!(refresh_fits(&lcd, &mem, 167));
    assert!(!refresh_fits(&lcd, &mem, 168));
    // a sprite's lower edge is no byte
    let (lcd, mut mem) = at_line(143);
    place(&mut mem, 0, 150, 8, 0, 0);
    assert!(refresh_fits(&lcd, &mem, 80));
    mem.write(LY, 239);
    place(&mut mem, 0, 250, 8, 0, 0);
    assert!(!refresh_fits(&lcd, &mem, 80));
    assert!(refresh_fits(&lcd, &mem, 79));
}

#[test]
fn the_divider_counts() {
    let mut mem = Memory::new();
    let timers = update_clocks(HardwareTimers::new(), &mut mem, 255);
    assert_eq!((mem.read(DIV), timers.divider), (0, 255));
    let timers = update_clocks(timers, &mut mem, 2);
    assert_eq!((mem.read(DIV), timers.divider), (1, 1));
    let timers = update_clocks(timers, &mut mem, 256 * 256);
    assert_eq!((mem.read(DIV), timers.divider), (1, 1));
}

#[test]
fn time_can_be_counted_in_parts() {
    for tac in [4u8, 5, 6, 7] {
        let mut once = Memory::new();
        once.write(TAC, tac);
        once.write(TMA, 0xF0);
        once.write(TIMA, 0xFE);
        let mut parts = Memory::new();
        parts.data = once.data;
        let whole = update_clocks(HardwareTimers::new(), &mut once, 70000);
        let mut timers = HardwareTimers::new();
        for _ in 0..7000 {
            timers = update_clocks(timers, &mut parts, 10);
        }
        assert_eq!((whole.timer, whole.divider), (timers.timer, timers.divider));
        assert!(once.data == parts.data);
        assert_eq!(once.read(IF), FL_INT_TIMER);
        assert!(once.read(TIMA) >= 0xF0);
    }
}

#[test]
fn a_timer_that_is_off_stands_still() {
    let mut mem = Memory::new();
    mem.write(TIMA, 0x12);
    let timers = update_clocks(HardwareTimers::new(), &mut mem, 5000);
    assert_eq!((mem.read(TIMA), timers.timer), (0x12, 5000));
}

#[test]
fn requests_add_up() {
    let mut mem = Memory::new();
    request_interrupt(&mut mem, FL_INT_TIMER);
    request_interrupt(&mut mem, FL_INT_VBLANK);
    assert_eq!(mem.read(IF), FL_INT_TIMER | FL_INT_VBLANK);
}
