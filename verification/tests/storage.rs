use cerboy::cpu::CPUState;
use cerboy::guard::transfer_fits;
use cerboy::memory::{
    pop_d16, pop_d8, push_d16, push_d8, Cartridge, Memory, BANK_SIZE, BGP, DIV, DMA, IE, IF, JOYP,
    LCDC, LY, MEM_OAM, MEM_VRAM, NR10, NR52, OBP0, ROM_DESTINATION, ROM_RAM_SIZE, ROM_SIZE,
    ROM_TITLE, ROM_TYPE,
};

/// A cartridge with a header.
fn cartridge(title: &[u8], kind: u8, size: u8, ram: u8, destination: u8) -> Cartridge {
    let mut rom = vec![0u8; 2 * BANK_SIZE];
    rom[ROM_TITLE as usize..ROM_TITLE as usize + title.len()].copy_from_slice(title);
    rom[ROM_TYPE as usize] = kind;
    rom[ROM_SIZE as usize] = size;
    rom[ROM_RAM_SIZE as usize] = ram;
    rom[ROM_DESTINATION as usize] = destination;
    Cartridge::new(rom)
}

#[test]
fn registers_at_power_up() {
    let mem = Memory::new();
    assert_eq!(mem.read(LCDC), 0x91);
    assert_eq!(mem.read(BGP), 0xFC);
    assert_eq!(mem.read(OBP0), 0xFF);
    assert_eq!(mem.read(NR10), 0x80);
    assert_eq!(mem.read(NR52), 0xF1);
    assert_eq!(mem.read(DIV), 0);
    assert_eq!(mem.read(0xC000), 0);
    assert!(!mem.dma_req);
    assert!(!mem.doctor);
}

#[test]
fn a_read_gives_back_a_write() {
    let mut mem = Memory::new();
    for addr in [0x0000u16, 0x7FFF, 0x8000, 0xC000, 0xFDFF, 0xFF40, 0xFFFE] {
        mem.write(addr, 0xA5);
        assert_eq!(mem.read(addr), 0xA5);
        assert_eq!(mem[addr], 0xA5);
    }
    // nothing else changed
    assert_eq!(mem.read(0x0001), 0);
    assert_eq!(mem.read(0xC001), 0);
}

#[test]
fn interrupt_registers_have_five_bits() {
    let mut mem = Memory::new();
    mem.write(IE, 0xFF);
    mem.write(IF, 0xE1);
    assert_eq!(mem.read(IE), 0x1F);
    assert_eq!(mem.read(IF), 0x01);
    assert_eq!(mem[IE], 0xFF);
}

#[test]
fn joypad_low_nibble_is_read_only() {
    let mut mem = Memory::new();
    mem[JOYP] = 0xC5;
    mem.write(JOYP, 0x1F);
    assert_eq!(mem[JOYP], 0xD5);
    assert_eq!(mem.read(JOYP), 0xD5);
    mem.write(JOYP, 0x20);
    assert_eq!(mem[JOYP], 0xF5);
    // no key group is selected
    assert_eq!(mem.read(JOYP), 0xFF);
    mem.write(JOYP, 0x00);
    assert_eq!(mem[JOYP], 0xF5);
}

#[test]
fn the_debugger_sees_one_scanline() {
    let mut mem = Memory::new();
    mem.write(LY, 0x12);
    assert_eq!(mem.read(LY), 0x12);
    mem.doctor = true;
    assert_eq!(mem.read(LY), 0x90);
    assert_eq!(mem[LY], 0x90);
    assert_eq!(mem.data[LY as usize], 0x12);
}

#[test]
fn a_transfer_fills_the_attribute_table() {
    let mut mem = Memory::new();
    for i in 0..0x100u16 {
        mem.write(0xC100 + i, i as u8);
    }
    mem.write(MEM_OAM + 0xA0, 0x77);
    mem.update();
    assert_eq!(mem.read(MEM_OAM + 1), 0);
    mem.write(DMA, 0xC1);
    assert!(mem.dma_req);
    assert!(transfer_fits(&mem));
    mem.update();
    assert!(!mem.dma_req);
    for i in 0..0xA0u16 {
        assert_eq!(mem.read(MEM_OAM + i), i as u8);
    }
    assert_eq!(mem.read(MEM_OAM + 0xA0), 0x77);
    // done once only
    mem.write(0xC100, 0x99);
    mem.update();
    assert_eq!(mem.read(MEM_OAM), 0);
    mem.write(DMA, 0xFE);
    assert!(!transfer_fits(&mem));
}

#[test]
fn words_come_back_from_the_stack() {
    let mut mem = Memory::new();
    let cpu = CPUState::new();
    let one = push_d16(cpu, &mut mem, 0x1234);
    let two = push_d16(one, &mut mem, 0xABCD);
    assert_eq!((one.sp, two.sp), (cpu.sp - 2, cpu.sp - 4));
    let (back, w) = pop_d16(two, &mem);
    assert_eq!((back.sp, w), (one.sp, 0xABCD));
    let (back, w) = pop_d16(back, &mem);
    assert_eq!((back.sp, w), (cpu.sp, 0x1234));
}

#[test]
fn bytes_come_back_from_the_stack() {
    let mut mem = Memory::new();
    let cpu = CPUState::new();
    let pushed = push_d8(cpu, &mut mem, 0x42);
    assert_eq!((pushed.sp, mem.read(pushed.sp)), (cpu.sp - 1, 0x42));
    let (back, b) = pop_d8(pushed, &mem);
    assert_eq!((back.sp, b), (cpu.sp, 0x42));
}

#[test]
fn a_loaded_cartridge_fills_the_lower_half() {
    let mut rom = vec![0u8; 3 * BANK_SIZE];
    for (i, b) in rom.iter_mut().enumerate() {
        *b = (i / 3) as u8;
    }
    let cart = Cartridge::new(rom.clone());
    let mut mem = Memory::new();
    mem.write(MEM_VRAM, 0x55);
    mem.load_rom(&cart);
    assert!(mem.data[..0x8000] == rom[..0x8000]);
    assert_eq!(mem.read(MEM_VRAM), 0x55);
    assert_eq!(mem[0x4000usize..0x4003].len(), 3);
    assert_eq!(cart.len(), 3 * BANK_SIZE);
    assert_eq!(cart[0x4001usize], rom[0x4001]);
}

#[test]
fn banks_are_open_to_change() {
    let mut mem = Memory::new();
    mem.bank0()[0] = 1;
    mem.bank0()[0x3FFF] = 2;
    mem.bank1()[0] = 3;
    mem.bank1()[0x3FFF] = 4;
    assert_eq!(mem.bank0().len(), BANK_SIZE);
    assert_eq!(mem.bank1().len(), BANK_SIZE);
    assert_eq!(
        (
            mem.read(0x0000),
            mem.read(0x3FFF),
            mem.read(0x4000),
            mem.read(0x7FFF),
            mem.read(0x8000)
        ),
        (1, 2, 3, 4, 0)
    );
}

#[test]
fn a_header_is_read() {
    let cart = cartridge(b"TETRIS\0\0\0\0\0\0\0\0\0\0", 0x01, 0x00, 0x02, 0x00);
    assert!(cart.header_known());
    assert_eq!(cart.title(), "TETRIS\0\0\0\0\0\0\0\0\0\0");
    assert_eq!(cart.hardware_type(), "MBC1");
    assert_eq!(cart.size(), 0x8000);
    assert_eq!(cart.num_banks(), 0);
    assert_eq!(cart.size_ram(), 0x2000);
    assert_eq!(cart.destination_code(), "Japanese");
}

#[test]
fn a_title_is_text() {
    let cart = cartridge("caf\u{e9} \u{65e5}\u{672c}\0\0\0\0".as_bytes(), 0, 0, 0, 1);
    assert!(cart.header_known());
    assert_eq!(cart.title().chars().count(), 11);
    assert!(cart.title().starts_with("caf\u{e9} \u{65e5}\u{672c}"));
    assert_eq!(cart.destination_code(), "Non-Japanese");
    let cart = cartridge(&[0xFF; 16], 0, 0, 0, 2);
    assert!(!cart.header_known());
    assert_eq!(cart.destination_code(), "???");
}

#[test]
fn sizes_double_with_each_code() {
    for code in 0..=8u8 {
        let cart = cartridge(b"", 0, code, 0, 0);
        assert_eq!(cart.size(), 0x8000 << code);
        assert_eq!(cart.num_banks(), if code == 0 { 0 } else { 2 << code });
    }
    for (code, banks) in [(0x52u8, 72usize), (0x53, 80), (0x54, 96)] {
        let cart = cartridge(b"", 0, code, 0, 0);
        assert!(cart.header_known());
        assert_eq!(cart.size(), banks * BANK_SIZE);
        assert_eq!(cart.num_banks(), banks);
    }
    assert!(!cartridge(b"", 0, 0x55, 0, 0).header_known());
    assert!(!cartridge(b"", 0, 0x4F, 0, 0).header_known());
}

#[test]
fn ram_sizes_are_not_in_order() {
    for (code, size) in [
        (0u8, 0usize),
        (1, 0x800),
        (2, 0x2000),
        (3, 0x8000),
        (4, 0x20000),
        (5, 0x10000),
    ] {
        assert_eq!(cartridge(b"", 0, 0, code, 0).size_ram(), size);
    }
    assert!(!cartridge(b"", 0, 0, 6, 0).header_known());
    assert!(!Cartridge::new(vec![0; 0x14A]).header_known());
    assert!(Cartridge::new(vec![0; 0x14B]).header_known());
}

#[test]
fn hardware_names() {
    for (code, name) in [
        (0x00u8, "ROM ONLY"),
        (0x03, "MBC1+RAM+BATTERY"),
        (0x10, "MBC3+TIMER+RAM+BATTERY"),
        (0x22, "MBC7+SENSOR+RUMBLE+RAM+BATTERY"),
        (0xFC, "POCKET CAMERA"),
        (0xFF, "HuC1+RAM+BATTERY"),
        (0x04, "???"),
    ] {
        assert_eq!(cartridge(b"", code, 0, 0, 0).hardware_type(), name);
    }
}
