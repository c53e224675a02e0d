use cerboy::cpu::{PAL_CLASSIC, TICKS_PER_FRAME};
use cerboy::lcd::{lcd_mode, set_lcd_mode};
use cerboy::memory::{Cartridge, DIV, IF, LY, MEM_OAM};
use cerboy::system::{Outcome, System};

/// A machine with a program at its entry point.
fn system(program: &[u8], doctor: bool) -> System {
    let mut rom = vec![0u8; 0x8000];
    rom[0x100..0x100 + program.len()].copy_from_slice(program);
    System::new(&Cartridge::new(rom), doctor)
}

#[test]
fn a_machine_is_switched_on() {
    let s = system(&[0x3E, 0x42], false);
    assert_eq!((s.cpu.pc, s.cpu.sp), (0x0100, 0xFFFE));
    assert_eq!(s.cpu.reg, [0x00, 0x13, 0x00, 0xD8, 0x01, 0x4D, 0xB0, 0x01]);
    assert_eq!(s.mem.read(0x0100), 0x3E);
    assert_eq!((s.timers.timer, s.timers.divider), (0, 0));
    assert!(s.lcd.buffer.iter().all(|p| *p == 0));
    assert!(!s.mem.doctor && !s.lcd.doctor);
    let s = system(&[], true);
    assert!(s.mem.doctor && s.lcd.doctor);
}

#[test]
fn everything_moves_together() {
    // LD A, n; JR -2
    let mut s = system(&[0x3E, 0x42, 0x18, 0xFE], false);
    assert!(matches!(s.step(), Outcome::Ran));
    assert_eq!((s.cpu.reg[7], s.cpu.tsc), (0x42, 8));
    assert_eq!((s.timers.divider, s.lcd.lcd_timing), (8, 8));
    while s.cpu.tsc < 256 {
        assert!(matches!(s.step(), Outcome::Ran));
    }
    assert_eq!(s.mem.read(DIV), 1);
}

#[test]
fn frames_come_at_their_rate() {
    let mut s = system(&[0x18, 0xFE], false);
    set_lcd_mode(2, &mut s.mem);
    let mut frames = vec![];
    while frames.len() < 3 {
        match s.step() {
            Outcome::Ran => {}
            Outcome::Frame => frames.push(s.cpu.tsc),
            other => panic!("{:?}", other),
        }
    }
    assert_eq!(frames[0], TICKS_PER_FRAME);
    assert_eq!(frames[2] - frames[0], 2 * TICKS_PER_FRAME);
    assert_eq!((s.mem.read(LY), lcd_mode(&s.mem)), (0, 2));
    assert_eq!(s.mem.read(IF) & 1, 1);
    assert!(s.lcd.buffer.iter().all(|p| *p == PAL_CLASSIC[0]));
}

#[test]
fn a_program_asks_for_a_transfer() {
    // LD A, 1; LD (0xFF46), A
    let mut s = system(&[0x3E, 0x01, 0xE0, 0x46], false);
    s.step();
    assert_eq!(s.mem.read(MEM_OAM), 0);
    s.step();
    assert_eq!(s.mem.read(MEM_OAM), 0x3E);
    assert_eq!(s.mem.read(MEM_OAM + 3), 0x46);
    assert!(!s.mem.dma_req);
}

#[test]
fn a_machine_stops_at_an_unknown_instruction() {
    let mut s = system(&[0xED], false);
    match s.step() {
        Outcome::Unknown(e) => assert_eq!(e.to_string(), "unknown instruction 0xED (INVALID)"),
        other => panic!("{:?}", other),
    }
    assert_eq!((s.cpu.pc, s.cpu.inst_count), (0x0100, 0));
}

#[test]
fn a_machine_stops_at_the_edge() {
    let mut s = system(&[0x00], false);
    s.cpu.sp = 1;
    s.cpu.pc = 0x0000;
    s.mem[0x0000] = 0xC5;
    assert!(matches!(s.step(), Outcome::OutOfRange));
    assert_eq!((s.cpu.pc, s.cpu.tsc), (0x0000, 0));
    // a transfer from the top page cannot be carried out; the processor has moved on by then
    let mut s = system(&[0x3E, 0xFE, 0xE0, 0x46], false);
    assert!(matches!(s.step(), Outcome::Ran));
    assert!(matches!(s.step(), Outcome::OutOfRange));
    assert_eq!(s.cpu.pc, 0x0104);
    assert!(s.mem.dma_req);
    // the timer has no room
    let mut s = system(&[0x00], false);
    s.timers.timer = u64::MAX;
    assert!(matches!(s.step(), Outcome::OutOfRange));
    assert_eq!(s.cpu.pc, 0x0101);
    // nor has the display
    let mut s = system(&[0x00], false);
    s.lcd.lcd_timing = u64::MAX;
    assert!(matches!(s.step(), Outcome::OutOfRange));
    assert_eq!(s.timers.timer, 4);
}

#[test]
fn a_trace_shows_the_next_bytes() {
    let mut s = system(&[0x00, 0xC3, 0x13, 0x02], true);
    assert_eq!(
        s.trace().unwrap(),
        "A:01 F:B0 B:00 C:13 D:00 E:D8 H:01 L:4D SP:FFFE PC:0100 PCMEM:00,C3,13,02"
    );
    s.step();
    assert!(s.trace().unwrap().contains("PC:0101 PCMEM:C3,13,02,00"));
    s.cpu.pc = 0xFFFD;
    assert!(s.trace().is_none());
    s.cpu.pc = 0xFFFC;
    assert!(s.trace().is_some());
}
