//! The address space, the cartridge that fills its lower half, and the stack kept in it.
use core::ops::{Index, IndexMut, Range};
use vstd::prelude::*;

use crate::bits;
use crate::bits::{combine, hi, lo};
use crate::cpu::{CPUState, Cpu};
use crate::types::{Byte, Word};

verus! {

// 0000-3FFF   16KB ROM Bank 00     (in cartridge, fixed at bank 00)
pub const MEM_BANK_00: Word = 0x0000;

// 4000-7FFF   16KB ROM Bank 01..NN (in cartridge, switchable bank number)
pub const MEM_BANK_NN: Word = 0x4000;

// 8000-9FFF   8KB Video RAM (VRAM) (switchable bank 0-1 in CGB Mode)
pub const MEM_VRAM: Word = 0x8000;

// A000-BFFF   8KB External RAM     (in cartridge, switchable bank, if any)
pub const MEM_EXT: Word = 0xA000;

// C000-CFFF   4KB Work RAM Bank 0 (WRAM)
pub const MEM_WRAM_0: Word = 0xC000;

// D000-DFFF   4KB Work RAM Bank 1 (WRAM)  (switchable bank 1-7 in CGB Mode)
pub const MEM_WRAM_1: Word = 0xD000;

// E000-FDFF   Same as C000-DDFF (ECHO)    (typically not used)
pub const MEM_ECHO: Word = 0xE000;

// FE00-FE9F   Sprite Attribute Table (OAM)
pub const MEM_OAM: Word = 0xFE00;

// FEA0-FEFF   Not Usable
pub const MEM_NOT_USABLE: Word = 0xFEA0;

// FF00-FF7F   I/O Ports
pub const MEM_IO_PORTS: Word = 0xFF00;

// FF80-FFFE   High RAM (HRAM)
pub const MEM_HRAM: Word = 0xFF80;

// RST locations (vectors)
pub const VEC_RST_00: Word = 0x0000;

pub const VEC_RST_08: Word = 0x0008;

pub const VEC_RST_10: Word = 0x0010;

pub const VEC_RST_18: Word = 0x0018;

pub const VEC_RST_20: Word = 0x0020;

pub const VEC_RST_28: Word = 0x0028;

pub const VEC_RST_30: Word = 0x0030;

pub const VEC_RST_38: Word = 0x0038;

// Interrupt locations (vectors)
pub const VEC_INT_VBLANK: Word = 0x0040;

pub const VEC_INT_STAT: Word = 0x0048;

pub const VEC_INT_TIMER: Word = 0x0050;

pub const VEC_INT_SERIAL: Word = 0x0058;

pub const VEC_INT_JOYPAD: Word = 0x0060;

// named I/O memory locations [FF00..FF7F]
pub const JOYP: Word = 0xFF00;

pub const SB: Word = 0xFF01;

pub const SC: Word = 0xFF02;

// timers
pub const DIV: Word = 0xFF04;

pub const TIMA: Word = 0xFF05;

pub const TMA: Word = 0xFF06;

pub const TAC: Word = 0xFF07;

// audio
pub const NR10: Word = 0xFF10;

pub const NR11: Word = 0xFF11;

pub const NR12: Word = 0xFF12;

pub const NR14: Word = 0xFF14;

pub const NR21: Word = 0xFF16;

pub const NR22: Word = 0xFF17;

pub const NR24: Word = 0xFF19;

pub const NR30: Word = 0xFF1A;

pub const NR31: Word = 0xFF1B;

pub const NR32: Word = 0xFF1C;

pub const NR33: Word = 0xFF1E;

pub const NR41: Word = 0xFF20;

pub const NR42: Word = 0xFF21;

pub const NR43: Word = 0xFF22;

pub const NR44: Word = 0xFF23;

pub const NR50: Word = 0xFF24;

pub const NR51: Word = 0xFF25;

pub const NR52: Word = 0xFF26;

// rendering
pub const LCDC: Word = 0xFF40;

pub const STAT: Word = 0xFF41;

pub const SCY: Word = 0xFF42;

pub const SCX: Word = 0xFF43;

pub const LY: Word = 0xFF44;

pub const LYC: Word = 0xFF45;

// OAM memory transfer
pub const DMA: Word = 0xFF46;

pub const BGP: Word = 0xFF47;

pub const OBP0: Word = 0xFF48;

pub const OBP1: Word = 0xFF49;

pub const WY: Word = 0xFF4A;

pub const WX: Word = 0xFF4B;

// interrupt registers
pub const IF: Word = 0xFF0F;

pub const IE: Word = 0xFFFF;

// sizes
pub const KB: usize = 0x0400;

pub const CART_SIZE_MAX: usize = 0x200000;

pub const MEM_SIZE: usize = 0xFFFF + 1;

pub const BANK_SIZE: usize = 0x4000;

// ROM Header
pub const ROM_ENTRY: Word = 0x0100;

pub const ROM_LOGO: Word = 0x0104;

pub const ROM_TITLE: Word = 0x0134;

pub const ROM_TITLE_END: Word = 0x0143 + 1;

pub const ROM_MFR_CODE: Word = 0x013F;

pub const ROM_SGB: Word = 0x0146;

pub const ROM_TYPE: Word = 0x0147;

pub const ROM_SIZE: Word = 0x0148;

pub const ROM_RAM_SIZE: Word = 0x0149;

pub const ROM_DESTINATION: Word = 0x014A;

/// What the scanline register reads as while the debugger drives the machine.
pub const DOCTOR_LINE: Byte = 0x90;

/// The number of bytes in the sprite attribute table.
pub const OAM_SIZE: usize = 0xA0;

/// The address space as a value: one byte per address, a pending transfer request, and whether
/// the debugger drives the machine.
#[verifier::ext_equal]
pub struct Ram {
    pub data: Seq<u8>,
    pub dma_req: bool,
    pub doctor: bool,
}

impl Ram {
    /// There is a byte at every address.
    pub open spec fn wf(self) -> bool {
        self.data.len() == 0x10000
    }

    /// The byte at `addr`. The debugger sees one fixed scanline.
    pub open spec fn peek(self, addr: int) -> u8 {
        if addr == LY && self.doctor {
            DOCTOR_LINE
        } else {
            self.data[addr]
        }
    }

    /// The address space with the byte at `addr` replaced. Touching `DMA` requests a transfer.
    pub open spec fn poke(self, addr: int, val: u8) -> Ram {
        Ram {
            data: self.data.update(addr, val),
            dma_req: self.dma_req || addr == DMA,
            doctor: self.doctor,
        }
    }

    /// What a program reads at `addr`: the joypad shows no key pressed while neither of its key
    /// groups is selected, and the interrupt registers have five bits.
    pub open spec fn read(self, addr: int) -> u8 {
        if addr == JOYP {
            if bits::has_bit(self.data[addr], 4) && bits::has_bit(self.data[addr], 5) {
                self.data[addr] | 0x0F
            } else {
                self.data[addr]
            }
        } else if addr == IE || addr == IF {
            self.data[addr] % 32
        } else {
            self.peek(addr)
        }
    }

    /// What a program's write leaves: of the joypad register only the two selection bits can be
    /// written, and they can only be set.
    pub open spec fn write(self, addr: int, val: u8) -> Ram {
        if addr == JOYP {
            self.poke(addr, self.data[addr] | (0x30 & val))
        } else {
            self.poke(addr, val)
        }
    }

    /// The word at the top of a stack whose pointer is `sp`. The pointer addresses the next free
    /// byte, the low byte lies right above it, and the high byte above that.
    pub open spec fn stack_top(self, sp: int) -> int {
        bits::word_of(self.read(sp + 2), self.read(sp + 1))
    }

    /// The address space after a word was pushed on a stack whose pointer is `sp`.
    pub open spec fn pushed(self, sp: int, val: int) -> Ram {
        self.write(sp, bits::high_byte(val)).write(sp - 1, bits::low_byte(val))
    }

    /// The address space after a requested transfer: the first 160 bytes of the page that `DMA`
    /// names are copied to the sprite attribute table.
    pub open spec fn transferred(self) -> Ram {
        if self.dma_req {
            Ram {
                data: Seq::new(
                    self.data.len(),
                    |i: int|
                        if MEM_OAM <= i < MEM_OAM + 0xA0 {
                            self.data[self.data[DMA as int] * 256 + (i - MEM_OAM)]
                        } else {
                            self.data[i]
                        },
                ),
                dma_req: false,
                doctor: self.doctor,
            }
        } else {
            self
        }
    }

    /// Whether a pending transfer reads only below the sprite attribute table.
    pub open spec fn transfer_fits(self) -> bool {
        self.dma_req ==> self.data[DMA as int] < 0xFE
    }
}

/// The byte at `addr` when the machine is switched on.
pub open spec fn power_up_byte(addr: int) -> u8 {
    if addr == NR10 {
        0x80
    } else if addr == NR11 || addr == NR14 || addr == NR24 || addr == NR33 || addr == NR44 {
        0xBF
    } else if addr == NR12 || addr == NR51 {
        0xF3
    } else if addr == NR21 {
        0x3F
    } else if addr == NR30 {
        0x7F
    } else if addr == NR31 || addr == NR41 || addr == OBP0 || addr == OBP1 {
        0xFF
    } else if addr == NR32 {
        0x9F
    } else if addr == NR50 {
        0x77
    } else if addr == NR52 {
        0xF1
    } else if addr == LCDC {
        0x91
    } else if addr == BGP {
        0xFC
    } else {
        0x00
    }
}

/// The address space when the machine is switched on.
pub open spec fn power_up() -> Ram {
    Ram {
        data: Seq::new(0x10000, |i: int| power_up_byte(i)),
        dma_req: false,
        doctor: false,
    }
}

pub struct Memory {
    pub data: [Byte; MEM_SIZE],
    pub dma_req: bool,
    // --- debug ---
    pub doctor: bool,
}

impl View for Memory {
    type V = Ram;

    open spec fn view(&self) -> Ram {
        Ram { data: self.data@, dma_req: self.dma_req, doctor: self.doctor }
    }
}

impl Memory {
    /// The address space as it is when the machine is switched on.
    pub fn new() -> (r: Memory)
        ensures
            r@ == power_up(),
    {
        let mut mem = Memory { data: [0; MEM_SIZE], dma_req: false, doctor: false };
        mem.write(TIMA, 0x00);
        mem.write(TMA, 0x00);
        mem.write(TAC, 0x00);
        mem.write(NR10, 0x80);
        mem.write(NR11, 0xBF);
        mem.write(NR12, 0xF3);
        mem.write(NR14, 0xBF);
        mem.write(NR21, 0x3F);
        mem.write(NR22, 0x00);
        mem.write(NR24, 0xBF);
        mem.write(NR30, 0x7F);
        mem.write(NR31, 0xFF);
        mem.write(NR32, 0x9F);
        mem.write(NR33, 0xBF);
        mem.write(NR41, 0xFF);
        mem.write(NR42, 0x00);
        mem.write(NR43, 0x00);
        mem.write(NR44, 0xBF);
        mem.write(NR50, 0x77);
        mem.write(NR51, 0xF3);
        mem.write(NR52, 0xF1);
        mem.write(LCDC, 0x91);
        mem.write(SCY, 0x00);
        mem.write(SCX, 0x00);
        mem.write(LYC, 0x00);
        mem.write(BGP, 0xFC);
        mem.write(OBP0, 0xFF);
        mem.write(OBP1, 0xFF);
        mem.write(WY, 0x00);
        mem.write(WX, 0x00);
        mem.write(IE, 0x00);
        assert(mem@.data =~= power_up().data);
        mem
    }

    /// Copies the first two banks of a cartridge into the lower half of the address space.
    pub fn load_rom(&mut self, cart: &Cartridge)
        requires
            cart@.len() >= MEM_VRAM,
        ensures
            final(self)@ == (Ram {
                data: cart@.subrange(0, MEM_VRAM as int) + old(self)@.data.subrange(
                    MEM_VRAM as int,
                    0x10000,
                ),
                ..old(self)@
            }),
    {
        let mut i: usize = MEM_BANK_00 as usize;
        while i < MEM_VRAM as usize
            invariant
                0 <= i <= MEM_VRAM,
                cart@.len() >= MEM_VRAM,
                self@.dma_req == old(self)@.dma_req,
                self@.doctor == old(self)@.doctor,
                forall|j: int| 0 <= j < i ==> self@.data[j] == cart@[j],
                forall|j: int| i <= j < 0x10000 ==> self@.data[j] == old(self)@.data[j],
            decreases MEM_VRAM - i,
        {
            self.data[i] = cart[i];
            i += 1;
        }
    }

    /// The fixed bank of the cartridge, open to change.
    pub fn bank0(&mut self) -> (r: &mut [Byte])
        ensures
            r@ == old(self)@.data.subrange(MEM_BANK_00 as int, MEM_BANK_NN as int),
            final(self)@ == (Ram {
                data: final(r)@ + old(self)@.data.subrange(MEM_BANK_NN as int, 0x10000),
                ..old(self)@
            }),
    {
        let all: &mut [Byte] = &mut self.data;
        let (bank, _rest) = all.split_at_mut(MEM_BANK_NN as usize);
        bank
    }

    /// The switchable bank of the cartridge, open to change.
    pub fn bank1(&mut self) -> (r: &mut [Byte])
        ensures
            r@ == old(self)@.data.subrange(MEM_BANK_NN as int, MEM_VRAM as int),
            final(self)@ == (Ram {
                data: old(self)@.data.subrange(MEM_BANK_00 as int, MEM_BANK_NN as int) + final(r)@
                    + old(self)@.data.subrange(MEM_VRAM as int, 0x10000),
                ..old(self)@
            }),
    {
        let all: &mut [Byte] = &mut self.data;
        let (low, _rest) = all.split_at_mut(MEM_VRAM as usize);
        let (_fixed, bank) = low.split_at_mut(MEM_BANK_NN as usize);
        bank
    }

    /// Carries out a pending transfer to the sprite attribute table. Called once per instruction.
    pub fn update(&mut self)
        requires
            old(self)@.transfer_fits(),
        ensures
            final(self)@ == old(self)@.transferred(),
    {
        if self.dma_req {
            self.dma_req = false;
            let offset: Byte = self.data[DMA as usize];
            let start: usize = combine(offset, 0x00) as usize;
            let ghost before = self@;
            let mut i: usize = 0;
            while i < OAM_SIZE
                invariant
                    0 <= i <= OAM_SIZE,
                    before.wf(),
                    start == before.data[DMA as int] * 256,
                    before.data[DMA as int] < 0xFE,
                    before.dma_req == false,
                    self@.dma_req == false,
                    self@.doctor == before.doctor,
                    forall|j: int|
                        0 <= j < 0x10000 ==> self@.data[j] == if MEM_OAM <= j < MEM_OAM + i {
                            before.data[start + (j - MEM_OAM)]
                        } else {
                            before.data[j]
                        },
                decreases OAM_SIZE - i,
            {
                let val: Byte = self.data[start + i];
                assert(self@.data[start + i] == before.data[start + i]);
                self.data[MEM_OAM as usize + i] = val;
                i += 1;
            }
            assert(self@.data =~= old(self)@.transferred().data);
        }
    }

    /// A program's write.
    pub fn write(&mut self, addr: Word, val: Byte)
        ensures
            final(self)@ == old(self)@.write(addr as int, val),
    {
        if addr == JOYP {
            // lower nibble is read only
            let stored: Byte = self.data[addr as usize];
            *self.index_mut(addr) = stored | (0x30 & val);
        } else {
            *self.index_mut(addr) = val;
        }
    }

    /// A program's read.
    pub fn read(&self, addr: Word) -> (r: Byte)
        ensures
            r == self@.read(addr as int),
    {
        let val: Byte = self[addr];
        proof {
            lemma_port_masks(val);
        }
        if addr == JOYP {
            let bitset: Byte = if 0x30 & val == 0x30 {
                0x0F
            } else {
                0
            };
            val | bitset
        } else if addr == IE || addr == IF {
            val & 0x1F
        } else {
            val
        }
    }
}

proof fn lemma_port_masks(v: u8)
    by (bit_vector)
    ensures
        v & 0x1F == v % 32,
        (0x30 & v == 0x30) == ((v / 16) % 2 == 1 && (v / 32) % 2 == 1),
        v | 0 == v,
{
}

impl Index<Word> for Memory {
    type Output = Byte;

    fn index(&self, index: Word) -> (r: &Byte)
        ensures
            *r == self@.peek(index as int),
    {
        // the debugger compares runs line by line and needs a scanline that stands still
        if index == LY && self.doctor {
            &DOCTOR_LINE
        } else {
            &self.data[index as usize]
        }
    }
}

impl vstd::std_specs::core::IndexSpecImpl<Word> for Memory {
    open spec fn index_req(&self, index: &Word) -> bool {
        true
    }
}

impl IndexMut<Word> for Memory {
    /// The byte at `index`, open to change. Nothing is protected.
    fn index_mut(&mut self, index: Word) -> (r: &mut Byte)
        ensures
            *r == old(self)@.data[index as int],
            final(self)@ == old(self)@.poke(index as int, *final(r)),
    {
        if index == DMA {
            self.dma_req = true;
        }
        &mut self.data[index as usize]
    }
}

impl Index<Range<usize>> for Memory {
    type Output = [Byte];

    fn index(&self, index: Range<usize>) -> (r: &[Byte])
        ensures
            r@ == self@.data.subrange(index.start as int, index.end as int),
    {
        &self.data[index]
    }
}

impl vstd::std_specs::core::IndexSpecImpl<Range<usize>> for Memory {
    open spec fn index_req(&self, index: &Range<usize>) -> bool {
        index.start <= index.end <= MEM_SIZE
    }
}

/// The contents of a game cartridge.
pub struct Cartridge(Vec<Byte>);

impl View for Cartridge {
    type V = Seq<u8>;

    closed spec fn view(&self) -> Seq<u8> {
        self.0@
    }
}

/// Whether `code` is a size code that the cartridge header defines, and the size it stands for
/// can be formed by shifting a machine word.
pub open spec fn rom_size_known(code: u8) -> bool {
    if code < 0x50 {
        1 + code < usize::BITS
    } else {
        code == 0x52 || code == 0x53 || code == 0x54
    }
}

/// The number of bytes that a size code stands for: two banks doubled `code` times, or one of
/// three odd sizes.
pub open spec fn rom_size(code: u8) -> usize {
    if code < 0x50 {
        BANK_SIZE << (1 + code)
    } else if code == 0x52 {
        (72 * BANK_SIZE) as usize
    } else if code == 0x53 {
        (80 * BANK_SIZE) as usize
    } else {
        (96 * BANK_SIZE) as usize
    }
}

/// The number of bytes of cartridge RAM that a code of the header stands for.
pub open spec fn ram_size(code: u8) -> int {
    if code == 0 {
        0
    } else if code == 1 {
        2 * KB
    } else if code == 2 {
        8 * KB
    } else if code == 3 {
        32 * KB
    } else if code == 4 {
        128 * KB
    } else {
        64 * KB
    }
}

/// The name of the cartridge hardware that a code of the header stands for.
pub open spec fn hardware_name(code: u8) -> Seq<char> {
    match code {
        0x00 => "ROM ONLY"@,
        0x01 => "MBC1"@,
        0x02 => "MBC1+RAM"@,
        0x03 => "MBC1+RAM+BATTERY"@,
        0x05 => "MBC2"@,
        0x06 => "MBC2+BATTERY"@,
        0x08 => "ROM+RAM"@,
        0x09 => "ROM+RAM+BATTERY"@,
        0x0B => "MMM01"@,
        0x0C => "MMM01+RAM"@,
        0x0D => "MMM01+RAM+BATTERY"@,
        0x0F => "MBC3+TIMER+BATTERY"@,
        0x10 => "MBC3+TIMER+RAM+BATTERY"@,
        0x11 => "MBC3"@,
        0x12 => "MBC3+RAM"@,
        0x13 => "MBC3+RAM+BATTERY"@,
        0x19 => "MBC5"@,
        0x1A => "MBC5+RAM"@,
        0x1B => "MBC5+RAM+BATTERY"@,
        0x1C => "MBC5+RUMBLE"@,
        0x1D => "MBC5+RUMBLE+RAM"@,
        0x1E => "MBC5+RUMBLE+RAM+BATTERY"@,
        0x20 => "MBC6"@,
        0x22 => "MBC7+SENSOR+RUMBLE+RAM+BATTERY"@,
        0xFC => "POCKET CAMERA"@,
        0xFD => "BANDAI TAMA5"@,
        0xFE => "HuC3"@,
        0xFF => "HuC1+RAM+BATTERY"@,
        _ => "???"@,
    }
}

/// The market that a destination code of the header stands for.
pub open spec fn destination_name(code: u8) -> Seq<char> {
    match code {
        0x00 => "Japanese"@,
        0x01 => "Non-Japanese"@,
        _ => "???"@,
    }
}

/// Whether a cartridge has a header, and everything in it that has to be known is known.
pub open spec fn header_known(rom: Seq<u8>) -> bool {
    &&& rom.len() > ROM_DESTINATION
    &&& vstd::utf8::valid_utf8(rom.subrange(ROM_TITLE as int, ROM_TITLE_END as int))
    &&& rom_size_known(rom[ROM_SIZE as int])
    &&& rom[ROM_RAM_SIZE as int] <= 5
}

/// `std::str::from_utf8`: a view of bytes as text. It succeeds exactly on valid UTF-8, and the
/// text is the one that the bytes encode.
#[verifier::external_body]
fn text_from_utf8<'a>(bytes: &'a [Byte]) -> (r: Option<&'a str>)
    ensures
        r is Some <==> vstd::utf8::valid_utf8(bytes@),
        r matches Some(text) ==> vstd::utf8::encode_utf8(text@) == bytes@,
{
    std::str::from_utf8(bytes).ok()
}

impl Cartridge {
    /// A cartridge with the given contents.
    pub fn new(rom: Vec<Byte>) -> (r: Cartridge)
        ensures
            r@ == rom@,
    {
        Cartridge(rom)
    }

    /// The number of bytes in the cartridge.
    pub fn len(&self) -> (r: usize)
        ensures
            r == self@.len(),
    {
        self.0.len()
    }

    /// Whether everything in the header that has to be known is known.
    pub fn header_known(&self) -> (r: bool)
        ensures
            r == header_known(self@),
    {
        if self.len() <= ROM_DESTINATION as usize || self[ROM_RAM_SIZE] > 5 {
            return false;
        }
        let code: Byte = self[ROM_SIZE];
        let size_known = if code < 0x50 {
            1 + (code as u32) < usize::BITS
        } else {
            code == 0x52 || code == 0x53 || code == 0x54
        };
        size_known && text_from_utf8(
            &self[ROM_TITLE as usize..ROM_TITLE_END as usize],
        ).is_some()
    }

    /// The game's title.
    pub fn title(&self) -> (r: &str)
        requires
            self@.len() >= ROM_TITLE_END,
            vstd::utf8::valid_utf8(self@.subrange(ROM_TITLE as int, ROM_TITLE_END as int)),
        ensures
            r@ == vstd::utf8::decode_utf8(self@.subrange(ROM_TITLE as int, ROM_TITLE_END as int)),
    {
        match text_from_utf8(&self[ROM_TITLE as usize..ROM_TITLE_END as usize]) {
            Some(text) => {
                proof {
                    vstd::utf8::encode_utf8_decode_utf8(text@);
                }
                text
            },
            None => "",
        }
    }

    /// The number of bytes of ROM that the header claims.
    pub fn size(&self) -> (r: usize)
        requires
            self@.len() > ROM_SIZE,
            rom_size_known(self@[ROM_SIZE as int]),
        ensures
            r == rom_size(self@[ROM_SIZE as int]),
    {
        let code: Byte = self[ROM_SIZE];
        if code < 0x50 {
            BANK_SIZE << (1 + code)
        } else if code == 0x52 {
            72 * BANK_SIZE
        } else if code == 0x53 {
            80 * BANK_SIZE
        } else {
            96 * BANK_SIZE
        }
    }

    /// The number of switchable banks: none for a cartridge that fits the address space.
    pub fn num_banks(&self) -> (r: usize)
        requires
            self@.len() > ROM_SIZE,
            rom_size_known(self@[ROM_SIZE as int]),
        ensures
            r == if rom_size(self@[ROM_SIZE as int]) > 2 * BANK_SIZE {
                rom_size(self@[ROM_SIZE as int]) as int / BANK_SIZE as int
            } else {
                0
            },
    {
        // utility, this is inferred from size, not stored directly
        if self.size() > BANK_SIZE * 2 {
            self.size() / BANK_SIZE
        } else {
            0
        }
    }

    /// The number of bytes of RAM in the cartridge.
    pub fn size_ram(&self) -> (r: usize)
        requires
            self@.len() > ROM_RAM_SIZE,
            self@[ROM_RAM_SIZE as int] <= 5,
        ensures
            r == ram_size(self@[ROM_RAM_SIZE as int]),
    {
        match self[ROM_RAM_SIZE] {
            0x00 => KB * 0,
            0x01 => KB * 2,
            0x02 => KB * 8,
            0x03 => KB * 32,
            0x04 => KB * 128,
            _ => KB * 64,
        }
    }

    /// The name of the cartridge hardware.
    pub fn hardware_type(&self) -> (r: &str)
        requires
            self@.len() > ROM_TYPE,
        ensures
            r@ == hardware_name(self@[ROM_TYPE as int]),
    {
        match self[ROM_TYPE] {
            0x00 => "ROM ONLY",
            0x01 => "MBC1",
            0x02 => "MBC1+RAM",
            0x03 => "MBC1+RAM+BATTERY",
            0x05 => "MBC2",
            0x06 => "MBC2+BATTERY",
            0x08 => "ROM+RAM",
            0x09 => "ROM+RAM+BATTERY",
            0x0B => "MMM01",
            0x0C => "MMM01+RAM",
            0x0D => "MMM01+RAM+BATTERY",
            0x0F => "MBC3+TIMER+BATTERY",
            0x10 => "MBC3+TIMER+RAM+BATTERY",
            0x11 => "MBC3",
            0x12 => "MBC3+RAM",
            0x13 => "MBC3+RAM+BATTERY",
            0x19 => "MBC5",
            0x1A => "MBC5+RAM",
            0x1B => "MBC5+RAM+BATTERY",
            0x1C => "MBC5+RUMBLE",
            0x1D => "MBC5+RUMBLE+RAM",
            0x1E => "MBC5+RUMBLE+RAM+BATTERY",
            0x20 => "MBC6",
            0x22 => "MBC7+SENSOR+RUMBLE+RAM+BATTERY",
            0xFC => "POCKET CAMERA",
            0xFD => "BANDAI TAMA5",
            0xFE => "HuC3",
            0xFF => "HuC1+RAM+BATTERY",
            _ => "???",
        }
    }

    /// The market that the cartridge was made for.
    pub fn destination_code(&self) -> (r: &str)
        requires
            self@.len() > ROM_DESTINATION,
        ensures
            r@ == destination_name(self@[ROM_DESTINATION as int]),
    {
        match self[ROM_DESTINATION] {
            0x00 => "Japanese",
            0x01 => "Non-Japanese",
            _ => "???",
        }
    }
}

impl Index<Word> for Cartridge {
    type Output = Byte;

    fn index(&self, index: Word) -> (r: &Byte)
        ensures
            *r == self@[index as int],
    {
        &self.0[index as usize]
    }
}

impl vstd::std_specs::core::IndexSpecImpl<Word> for Cartridge {
    open spec fn index_req(&self, index: &Word) -> bool {
        *index < self@.len()
    }
}

impl Index<usize> for Cartridge {
    type Output = Byte;

    fn index(&self, index: usize) -> (r: &Byte)
        ensures
            *r == self@[index as int],
    {
        &self.0[index]
    }
}

impl vstd::std_specs::core::IndexSpecImpl<usize> for Cartridge {
    open spec fn index_req(&self, index: &usize) -> bool {
        *index < self@.len()
    }
}

impl Index<Range<usize>> for Cartridge {
    type Output = [Byte];

    fn index(&self, index: Range<usize>) -> (r: &[Byte])
        ensures
            r@ == self@.subrange(index.start as int, index.end as int),
    {
        &self.0[index]
    }
}

impl vstd::std_specs::core::IndexSpecImpl<Range<usize>> for Cartridge {
    open spec fn index_req(&self, index: &Range<usize>) -> bool {
        index.start <= index.end <= self@.len()
    }
}

// --- pushes and popses ---
/// Lowers the stack pointer by one and stores a byte where it then points.
pub fn push_d8(cpu: CPUState, mem: &mut Memory, val: Byte) -> (r: CPUState)
    requires
        cpu.sp >= 1,
    ensures
        r@ == (Cpu { sp: cpu.sp - 1, ..cpu@ }),
        final(mem)@ == old(mem)@.write(cpu.sp - 1, val),
{
    let sp: Word = cpu.sp - 1;
    mem.write(sp, val);
    CPUState { sp, ..cpu }
}

/// Pushes a word: the high byte goes where the stack pointer points, the low byte right below,
/// and the pointer moves down past both.
pub fn push_d16(cpu: CPUState, mem: &mut Memory, val: Word) -> (r: CPUState)
    requires
        cpu.sp >= 2,
    ensures
        r@ == (Cpu { sp: cpu.sp - 2, ..cpu@ }),
        final(mem)@ == old(mem)@.pushed(cpu.sp as int, val as int),
{
    mem.write(cpu.sp, hi(val));
    mem.write(cpu.sp - 1, lo(val));
    CPUState { sp: cpu.sp - 2, ..cpu }
}

/// Loads the byte that the stack pointer points at and raises the pointer by one.
pub fn pop_d8(cpu: CPUState, mem: &Memory) -> (r: (CPUState, Byte))
    requires
        cpu.sp < 0xFFFF,
    ensures
        r.0@ == (Cpu { sp: cpu.sp + 1, ..cpu@ }),
        r.1 == mem@.read(cpu.sp as int),
{
    let val: Byte = mem.read(cpu.sp);
    let sp: Word = cpu.sp + 1;
    (CPUState { sp, ..cpu }, val)
}

/// Pops a word: the low byte from right above the stack pointer, the high byte from above that.
pub fn pop_d16(cpu: CPUState, mem: &Memory) -> (r: (CPUState, Word))
    requires
        cpu.sp + 2 <= 0xFFFF,
    ensures
        r.0@ == (Cpu { sp: cpu.sp + 2, ..cpu@ }),
        r.1 == mem@.stack_top(cpu.sp as int),
{
    let h: Byte = mem.read(cpu.sp + 2);
    let l: Byte = mem.read(cpu.sp + 1);
    let val: Word = combine(h, l);
    (CPUState { sp: cpu.sp + 2, ..cpu }, val)
}

} // verus!
