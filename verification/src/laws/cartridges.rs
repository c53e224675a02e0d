//! What the codes in a cartridge's header stand for.
use vstd::prelude::*;

use crate::memory;

verus! {

/// Sizes: 32 KiB doubled with each code up to 8, and three odd sizes of 72, 80 and 96 banks.
/// From 55 on and between 50 and 51 no code is known.
pub proof fn law_rom_sizes()
    ensures
        memory::rom_size(0) == 0x8000,
        memory::rom_size(1) == 0x10000,
        memory::rom_size(2) == 0x20000,
        memory::rom_size(3) == 0x40000,
        memory::rom_size(4) == 0x80000,
        memory::rom_size(5) == 0x100000,
        memory::rom_size(6) == 0x200000,
        memory::rom_size(7) == 0x400000,
        memory::rom_size(8) == 0x800000,
        memory::rom_size(0x52) == 72 * 0x4000,
        memory::rom_size(0x53) == 80 * 0x4000,
        memory::rom_size(0x54) == 96 * 0x4000,
        forall|code: u8|
            code >= 0x50 ==> (#[trigger] memory::rom_size_known(code) <==> 0x52 <= code <= 0x54),
        forall|code: u8|
            code < 0x50 ==> (#[trigger] memory::rom_size_known(code) <==> 1 + code < usize::BITS),
{
    assert(0x4000usize << (1 + 0) == 0x8000usize && 0x4000usize << (1 + 1) == 0x10000usize
        && 0x4000usize << (1 + 2) == 0x20000usize && 0x4000usize << (1 + 3) == 0x40000usize
        && 0x4000usize << (1 + 4) == 0x80000usize && 0x4000usize << (1 + 5) == 0x100000usize
        && 0x4000usize << (1 + 6) == 0x200000usize && 0x4000usize << (1 + 7) == 0x400000usize
        && 0x4000usize << (1 + 8) == 0x800000usize) by (bit_vector);
}

/// Sizes of RAM in KiB, which are not in the order of their codes.
pub proof fn law_ram_sizes()
    ensures
        memory::ram_size(0) == 0,
        memory::ram_size(1) == 0x800,
        memory::ram_size(2) == 0x2000,
        memory::ram_size(3) == 0x8000,
        memory::ram_size(4) == 0x20000,
        memory::ram_size(5) == 0x10000,
{
}

/// The header: the title at 134 to 143 has to be text, the size code at 148 known, and the RAM code
/// at 149 at most 5, in a cartridge that reaches to 14A.
pub proof fn law_header(rom: Seq<u8>)
    ensures
        memory::header_known(rom) <==> {
            &&& rom.len() > 0x14A
            &&& vstd::utf8::valid_utf8(rom.subrange(0x134, 0x144))
            &&& memory::rom_size_known(rom[0x148])
            &&& rom[0x149] <= 5
        },
{
}

/// Every further code that is known doubles the size of the one before it.
pub proof fn law_rom_size_doubles(code: u8)
    requires
        1 <= code < 0x50,
        memory::rom_size_known(code),
    ensures
        memory::rom_size(code) == memory::rom_size((code - 1) as u8) << 1usize,
{
    let below: u8 = (code - 1) as u8;
    assert(1 + code < usize::BITS && code == below + 1 && code < 0x50 ==> 0x4000usize << (1 + code)
        == (0x4000usize << (1 + below)) << 1usize) by (bit_vector);
}

/// The kinds of hardware, code by code. All other codes are unknown.
pub proof fn law_hardware(code: u8)
    ensures
        code == 0x00 ==> memory::hardware_name(code) == "ROM ONLY"@,
        code == 0x01 ==> memory::hardware_name(code) == "MBC1"@,
        code == 0x02 ==> memory::hardware_name(code) == "MBC1+RAM"@,
        code == 0x03 ==> memory::hardware_name(code) == "MBC1+RAM+BATTERY"@,
        code == 0x05 ==> memory::hardware_name(code) == "MBC2"@,
        code == 0x06 ==> memory::hardware_name(code) == "MBC2+BATTERY"@,
        code == 0x08 ==> memory::hardware_name(code) == "ROM+RAM"@,
        code == 0x09 ==> memory::hardware_name(code) == "ROM+RAM+BATTERY"@,
        code == 0x0B ==> memory::hardware_name(code) == "MMM01"@,
        code == 0x0C ==> memory::hardware_name(code) == "MMM01+RAM"@,
        code == 0x0D ==> memory::hardware_name(code) == "MMM01+RAM+BATTERY"@,
        code == 0x0F ==> memory::hardware_name(code) == "MBC3+TIMER+BATTERY"@,
        code == 0x10 ==> memory::hardware_name(code) == "MBC3+TIMER+RAM+BATTERY"@,
        code == 0x11 ==> memory::hardware_name(code) == "MBC3"@,
        code == 0x12 ==> memory::hardware_name(code) == "MBC3+RAM"@,
        code == 0x13 ==> memory::hardware_name(code) == "MBC3+RAM+BATTERY"@,
        code == 0x19 ==> memory::hardware_name(code) == "MBC5"@,
        code == 0x1A ==> memory::hardware_name(code) == "MBC5+RAM"@,
        code == 0x1B ==> memory::hardware_name(code) == "MBC5+RAM+BATTERY"@,
        code == 0x1C ==> memory::hardware_name(code) == "MBC5+RUMBLE"@,
        code == 0x1D ==> memory::hardware_name(code) == "MBC5+RUMBLE+RAM"@,
        code == 0x1E ==> memory::hardware_name(code) == "MBC5+RUMBLE+RAM+BATTERY"@,
        code == 0x20 ==> memory::hardware_name(code) == "MBC6"@,
        code == 0x22 ==> memory::hardware_name(code) == "MBC7+SENSOR+RUMBLE+RAM+BATTERY"@,
        code == 0xFC ==> memory::hardware_name(code) == "POCKET CAMERA"@,
        code == 0xFD ==> memory::hardware_name(code) == "BANDAI TAMA5"@,
        code == 0xFE ==> memory::hardware_name(code) == "HuC3"@,
        code == 0xFF ==> memory::hardware_name(code) == "HuC1+RAM+BATTERY"@,
        code == 0x04 || code == 0x07 || code == 0x0A || code == 0x0E || code == 0x14
            || code == 0x15 || code == 0x16 || code == 0x17 || code == 0x18 || code == 0x1F
            || code == 0x21 || 0x23 <= code <= 0xFB ==> memory::hardware_name(code) == "???"@,
{
}

/// The two markets.
pub proof fn law_destinations(code: u8)
    ensures
        memory::destination_name(0) == "Japanese"@,
        memory::destination_name(1) == "Non-Japanese"@,
        code > 1 ==> memory::destination_name(code) == "???"@,
{
}

} // verus!
