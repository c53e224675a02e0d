//! What memory gives back.
use vstd::prelude::*;

use crate::bits;
use crate::memory;
use crate::memory::{Ram, BANK_SIZE, DMA, DOCTOR_LINE, IE, IF, JOYP, LY, MEM_OAM};

verus! {

/// What the joypad register reads as after `val` was written over `old`: of `val` only the two
/// selection bits are taken, and with both of them set no key is pressed.
pub open spec fn joypad_shown(old: u8, val: u8) -> u8 {
    let stored = old | (0x30 & val);
    if bits::has_bit(stored, 4) && bits::has_bit(stored, 5) {
        stored | 0x0F
    } else {
        stored
    }
}

/// Whether a byte can be stored at an address in full: an interrupt register has five bits, the
/// joypad register takes two, and the debugger's scanline stands still.
pub open spec fn keeps(mem: Ram, addr: int, val: u8) -> bool {
    &&& 0 <= addr < 0x10000
    &&& addr == IE || addr == IF ==> val < 32
    &&& addr == JOYP ==> joypad_shown(mem.data[addr], val) == val
    &&& addr == LY && mem.doctor ==> val == DOCTOR_LINE
}

/// A read gives back what was written wherever the byte can be stored in full, which is the case
/// for every byte outside four registers. Of an interrupt register it gives the five bits.
pub proof fn law_write_read(mem: Ram, addr: int, val: u8)
    requires
        mem.wf(),
        0 <= addr < 0x10000,
    ensures
        mem.write(addr, val).read(addr) == val <==> keeps(mem, addr, val),
        addr != JOYP && addr != IE && addr != IF && addr != LY ==> keeps(mem, addr, val),
        addr == IE || addr == IF ==> mem.write(addr, val).read(addr) == val % 32,
        addr == JOYP ==> mem.write(addr, val).read(addr) == joypad_shown(mem.data[addr], val),
        addr == LY && mem.doctor ==> mem.write(addr, val).read(addr) == DOCTOR_LINE,
{
}

/// A write changes what is read at no other address.
pub proof fn law_write_elsewhere(mem: Ram, addr: int, val: u8, other: int)
    requires
        mem.wf(),
        0 <= addr < 0x10000,
        0 <= other < 0x10000,
        addr != other,
    ensures
        mem.write(addr, val).wf(),
        mem.write(addr, val).read(other) == mem.read(other),
        mem.write(addr, val).peek(other) == mem.peek(other),
{
}

/// The low nibble of the joypad register is read only: no write changes it, or the two bits above
/// the selection bits. A selection bit that is set stays set.
pub proof fn law_joypad(mem: Ram, val: u8)
    requires
        mem.wf(),
    ensures
        ({
            let before = mem.data[JOYP as int];
            let after = mem.write(JOYP as int, val).data[JOYP as int];
            &&& after % 16 == before % 16
            &&& after / 64 == before / 64
            &&& bits::has_bit(after, 4) == (bits::has_bit(before, 4) || bits::has_bit(val, 4))
            &&& bits::has_bit(after, 5) == (bits::has_bit(before, 5) || bits::has_bit(val, 5))
        }),
{
    lemma_selection(mem.data[JOYP as int], val);
}

proof fn lemma_selection(old: u8, val: u8)
    by (bit_vector)
    ensures
        (old | (0x30 & val)) % 16 == old % 16,
        (old | (0x30 & val)) / 64 == old / 64,
        ((old | (0x30 & val)) / 16) % 2 == 1 <==> ((old / 16) % 2 == 1 || (val / 16) % 2 == 1),
        ((old | (0x30 & val)) / 32) % 2 == 1 <==> ((old / 32) % 2 == 1 || (val / 32) % 2 == 1),
{
}

/// With neither key group selected no key reads as pressed.
pub proof fn law_joypad_idle(mem: Ram)
    requires
        mem.wf(),
        bits::has_bit(mem.data[JOYP as int], 4),
        bits::has_bit(mem.data[JOYP as int], 5),
    ensures
        mem.read(JOYP as int) % 16 == 15,
        mem.read(JOYP as int) / 16 == mem.data[JOYP as int] / 16,
{
    let v = mem.data[JOYP as int];
    assert((v | 0x0F) % 16 == 15 && (v | 0x0F) / 16 == v / 16) by (bit_vector);
}

/// The word pushed last is the one on top, and pushing changes nothing outside its two bytes.
pub proof fn law_push_pop(mem: Ram, sp: int, w: int)
    requires
        mem.wf(),
        2 <= sp,
        0 <= w < 0x10000,
        keeps(mem, sp, bits::high_byte(w)),
        keeps(mem, sp - 1, bits::low_byte(w)),
    ensures
        mem.pushed(sp, w).wf(),
        mem.pushed(sp, w).stack_top(sp - 2) == w,
        forall|a: int|
            0 <= a < 0x10000 && a != sp && a != sp - 1 ==> mem.pushed(sp, w).read(a) == mem.read(a),
{
}

/// Words come off the stack in the opposite order: below a word pushed later the earlier one is
/// untouched.
pub proof fn law_stack_order(mem: Ram, sp: int, first: int, second: int)
    requires
        mem.wf(),
        4 <= sp,
        0 <= first < 0x10000,
        0 <= second < 0x10000,
        keeps(mem, sp, bits::high_byte(first)),
        keeps(mem, sp - 1, bits::low_byte(first)),
        keeps(mem, sp - 2, bits::high_byte(second)),
        keeps(mem, sp - 3, bits::low_byte(second)),
    ensures
        mem.pushed(sp, first).pushed(sp - 2, second).stack_top(sp - 4) == second,
        mem.pushed(sp, first).pushed(sp - 2, second).stack_top(sp - 2) == first,
{
}

/// A transfer is carried out once for each request. It copies 160 bytes to the sprite attribute
/// table and changes nothing else.
pub proof fn law_transfer(mem: Ram, page: u8)
    requires
        mem.wf(),
        page < 0xFE,
    ensures
        ({
            let asked = mem.write(DMA as int, page);
            let done = asked.transferred();
            &&& asked.dma_req && asked.transfer_fits()
            &&& !done.dma_req
            &&& done.transferred() == done
            &&& forall|i: int|
                0 <= i < 0xA0 ==> #[trigger] done.data[MEM_OAM + i] == asked.data[page * 256 + i]
            &&& forall|a: int|
                0 <= a < 0x10000 && !(MEM_OAM <= a < MEM_OAM + 0xA0) ==> #[trigger] done.data[a]
                    == asked.data[a]
        }),
        !mem.dma_req ==> mem.transferred() == mem,
{
}

/// Nothing but a write to the transfer register asks for a transfer.
pub proof fn law_transfer_request(mem: Ram, addr: int, val: u8)
    requires
        0 <= addr < 0x10000,
    ensures
        mem.write(addr, val).dma_req == (mem.dma_req || addr == DMA),
{
}

/// The size codes from 0 to 8 stand for 32 KiB, doubled with each step, and the banks that the
/// size makes up.
pub proof fn law_rom_size(code: u8)
    requires
        code <= 8,
    ensures
        memory::rom_size_known(code),
        memory::rom_size(0) == 32 * memory::KB,
        code > 0 ==> memory::rom_size(code) == 2 * memory::rom_size((code - 1) as u8),
        memory::rom_size(code) % BANK_SIZE == 0,
{
    let below: u8 = if code > 0 {
        (code - 1) as u8
    } else {
        0
    };
    assert(0x4000usize << (1 + 0) == 0x8000usize) by (bit_vector);
    assert(code <= 8 && below <= code ==> (0x4000usize << (1 + code)) % 0x4000usize == 0 && (code
        == below + 1 ==> 0x4000usize << (1 + code) == 2 * (0x4000usize << (1 + below))))
        by (bit_vector);
}

} // verus!
