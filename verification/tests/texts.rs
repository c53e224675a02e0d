use cerboy::cpu::CPUState;
use cerboy::dbg::{doctor_line, log_cpu, str_flags, str_interrupt, str_lcdc};
use cerboy::decode::{decode, decodeCB, r_name, R};
use cerboy::listing::{disassemble, disassemble_at, hex_dump};
use cerboy::memory::{Cartridge, Memory, IF, LCDC};
use cerboy::text::{digits_text, hex2_text, hex4_text, replace_text};
use cerboy::types::Instruction;

#[test]
fn numbers_as_text() {
    for n in 0..=255u8 {
        assert_eq!(hex2_text(n, true), format!("{:02X}", n));
        assert_eq!(hex2_text(n, false), format!("{:02x}", n));
        assert_eq!(digits_text(n, 16, true), format!("{:X}", n));
        assert_eq!(digits_text(n, 10, false), format!("{}", n));
        assert_eq!(digits_text(n, 2, false), format!("{:b}", n));
    }
    for w in [0u16, 1, 0xFF, 0x100, 0xBEEF, 0xFFFF] {
        assert_eq!(hex4_text(w, true), format!("{:04X}", w));
    }
}

#[test]
fn replacing_text() {
    for (s, pat) in [
        ("JR NZ, n", "n"),
        ("LD (nn), A", "nn"),
        ("nnn", "nn"),
        ("", "n"),
        ("abc", "x"),
        ("n", "nn"),
    ] {
        assert_eq!(replace_text(s, pat, "$12"), s.replace(pat, "$12"));
    }
}

#[test]
fn decoded_instructions() {
    for (op, mnm, len) in [
        (0x00u8, "NOP", 1u8),
        (0x01, "LD BC, nn", 3),
        (0x08, "LD (nn), SP", 3),
        (0x0B, "DEC, BC", 1),
        (0x10, "STOP", 1),
        (0x20, "JR NZ, n", 2),
        (0x22, "LD (HL+), A", 1),
        (0x36, "LD (HL), n", 2),
        (0x41, "LD B, C", 1),
        (0x46, "INVALID", 0),
        (0x70, "LD (HL), B", 1),
        (0x76, "HALT", 1),
        (0x80, "ADD A, B", 1),
        (0xAE, "XOR (HL)", 1),
        (0xC3, "JP nn", 3),
        (0xCB, "(CB PREFIX)", 1),
        (0xD3, "INVALID", 0),
        (0xE0, "LD (0xFF00 + n), A", 2),
        (0xF5, "PUSH AF", 1),
        (0xFE, "CP n", 2),
        (0xFF, "RST 38H", 1),
    ] {
        let inst = decode(op);
        assert_eq!((inst.mnm.as_str(), inst.len), (mnm, len));
        assert_eq!(inst.valid(), len > 0);
        assert_eq!(inst.prefix(), op == 0xCB);
    }
}

#[test]
fn operand_names() {
    assert_eq!(R, ["B", "C", "D", "E", "H", "L", "(HL)", "A"]);
    for i in 0..8u8 {
        assert_eq!(r_name(i), R[i as usize]);
    }
}

#[test]
fn prefixed_instructions_as_text() {
    assert_eq!(Instruction::from_cb(&decodeCB(0x7E)).mnm, "BIT 7, (HL)");
    assert_eq!(Instruction::from_cb(&decodeCB(0x00)).mnm, "RLC, B");
    assert_eq!(Instruction::from_cb(&decodeCB(0xC7)).mnm, "SET 0, A");
    assert_eq!(Instruction::from_cb(&decodeCB(0x9D)).mnm, "RES 3, L");
}

#[test]
fn operands_are_written_in() {
    assert_eq!(decode(0x20).mnm_args(&[0x0A]), "JR NZ, $0a");
    assert_eq!(decode(0xC3).mnm_args(&[0x50, 0x01]), "JP $0150");
    assert_eq!(Instruction::new("X nn", 3).mnm_args(&[0xCD, 0xAB]), "X $abcd");
}

#[test]
fn listings() {
    let cart = Cartridge::new(vec![
        0x00, 0xC3, 0x50, 0x01, 0xCB, 0x7C, 0xD3, 0x46, 0x3E, 0x1F, 0xCD, 0x00,
    ]);
    let (lines, whole) = disassemble(&cart, 10);
    assert_eq!(
        lines,
        vec![
            "NOP",
            "JP $0150",
            "BIT 7, H",
            "[invalid instruction]",
            "[invalid instruction]",
            "LD A, $1f"
        ]
    );
    assert!(whole);
    // the last instruction is cut off
    let (lines, whole) = disassemble(&cart, 12);
    assert_eq!(lines.len(), 6);
    assert!(!whole);
    assert_eq!(disassemble_at(&cart, 1), Some(("JP $0150".to_string(), 4)));
    assert_eq!(disassemble_at(&cart, 4), Some(("BIT 7, H".to_string(), 6)));
    assert_eq!(disassemble_at(&cart, 10), None);
    assert_eq!(disassemble_at(&cart, 12), None);
    assert_eq!(disassemble(&Cartridge::new(vec![0xCB]), 1), (vec![], false));
}

#[test]
fn hexadecimal_rows() {
    let cart = Cartridge::new((0..40u8).collect());
    assert_eq!(
        hex_dump(&cart, 18),
        "00 01 02 03 04 05 06 07 08 09 0A 0B 0C 0D 0E 0F \n10 11 "
    );
    assert_eq!(hex_dump(&cart, 0), "");
    assert_eq!(hex_dump(&cart, 16).lines().count(), 1);
}

#[test]
fn debugger_lines() {
    let cpu = CPUState::new();
    let mut mem = Memory::new();
    mem.write(0x0100, 0x00);
    mem.write(0x0101, 0xC3);
    mem.write(0x0102, 0x13);
    mem.write(0x0103, 0x02);
    let line = "A:01 F:B0 B:00 C:13 D:00 E:D8 H:01 L:4D SP:FFFE PC:0100 PCMEM:00,C3,13,02";
    assert_eq!(doctor_line(&cpu, &mem), line);
    let mut logs = vec![];
    log_cpu(&mut logs, &cpu, &mem);
    log_cpu(&mut logs, &cpu.adv_pc(1), &mem);
    assert_eq!(logs.len(), 2);
    assert_eq!(logs[0].to_string(), line);
    assert_eq!(logs[1].mem_next, [0xC3, 0x13, 0x02, 0x00]);
    // a line shows memory as it is stored, a record as a program reads it
    mem.write(IF, 0xE1);
    let cpu = CPUState { pc: IF, ..cpu };
    assert!(doctor_line(&cpu, &mem).contains("PCMEM:E1,"));
    log_cpu(&mut logs, &cpu, &mem);
    assert_eq!(logs[2].mem_next[0], 0x01);
}

#[test]
fn names_of_interrupts_and_flags() {
    for (vector, name) in [
        (0x40u16, "VBLANK"),
        (0x48, "STAT"),
        (0x50, "TIMER"),
        (0x58, "SERIAL"),
        (0x60, "JOYPAD"),
    ] {
        assert_eq!(str_interrupt(vector), name);
    }
    assert_eq!(str_flags(0x00), "————");
    assert_eq!(str_flags(0xF0), "CHNZ");
    assert_eq!(str_flags(0x90), "C——Z");
}

#[test]
fn the_control_register_as_text() {
    let mut mem = Memory::new();
    assert_eq!(
        str_lcdc(&mem),
        "0b10010001 LCDC [scr:  on, wnd_map: 0x9800, wnd: off, bg/wnd_dat: 0x8000, \
         bg_map: 0x9800, obj_sz:  8, obj: off, bg:  on]"
    );
    mem.write(LCDC, 0x0E);
    assert_eq!(
        str_lcdc(&mem),
        "    0b1110 LCDC [scr: off, wnd_map: 0x9800, wnd: off, bg/wnd_dat: 0x8800, \
         bg_map: 0x9C00, obj_sz: 16, obj:  on, bg: off]"
    );
}
