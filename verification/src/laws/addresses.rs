//! Where things are in the address space, and what reads and writes do there.
use vstd::prelude::*;

use crate::laws::raw;
use crate::memory;
use crate::memory::Ram;

verus! {

/// A program reads the stored byte everywhere but in four registers: at FF00 the low nibble is set
/// while the bits with the weights 16 and 32 both are, at FF0F and FFFF the upper three bits are
/// clear, and at FF44 the debugger's machine shows 90. Without a program's view the same holds
/// of FF44 alone.
pub proof fn law_read(mem: Ram, a: int)
    requires
        mem.wf(),
        0 <= a < 0x10000,
    ensures
        a != 0xFF00 && a != 0xFF0F && a != 0xFFFF && !(a == 0xFF44 && mem.doctor) ==> mem.read(a)
            == mem.data[a],
        a == 0xFF0F || a == 0xFFFF ==> mem.read(a) == mem.data[a] % 32,
        a == 0xFF44 && mem.doctor ==> mem.read(a) == 0x90 && mem.peek(a) == 0x90,
        a != 0xFF44 || !mem.doctor ==> mem.peek(a) == mem.data[a],
        a == 0xFF00 ==> mem.read(a) / 16 == mem.data[a] / 16 && mem.read(a) % 16 == if raw::on(
            mem.data[a],
            16,
        ) && raw::on(mem.data[a], 32) {
            15
        } else {
            (mem.data[a] % 16) as int
        },
{
    let v = mem.data[0xFF00];
    assert((v | 0x0F) % 16 == 15 && (v | 0x0F) / 16 == v / 16) by (bit_vector);
}

/// A write stores the byte everywhere but at FF00, where it can only set the bits with the weights
/// 16 and 32. A write to FF46 asks for a transfer. Nothing else changes.
pub proof fn law_write(mem: Ram, a: int, v: u8)
    requires
        mem.wf(),
        0 <= a < 0x10000,
    ensures
        ({
            let t = mem.write(a, v);
            let old = mem.data[a];
            &&& a != 0xFF00 ==> t.data == mem.data.update(a, v)
            &&& a == 0xFF00 ==> {
                &&& t.data[a] % 16 == old % 16
                &&& t.data[a] / 64 == old / 64
                &&& raw::on(t.data[a], 16) == (raw::on(old, 16) || raw::on(v, 16))
                &&& raw::on(t.data[a], 32) == (raw::on(old, 32) || raw::on(v, 32))
                &&& t.data == mem.data.update(a, t.data[a])
            }
            &&& t.dma_req == (mem.dma_req || a == 0xFF46)
            &&& t.doctor == mem.doctor
            &&& mem.poke(a, v) == (Ram {
                data: mem.data.update(a, v),
                dma_req: mem.dma_req || a == 0xFF46,
                doctor: mem.doctor,
            })
        }),
{
    let old = mem.data[a];
    lemma_selection(old, v);
}

proof fn lemma_selection(old: u8, val: u8)
    by (bit_vector)
    ensures
        (old | (0x30 & val)) % 16 == old % 16,
        (old | (0x30 & val)) / 64 == old / 64,
        ((old | (0x30 & val)) / 16) % 2 == 1 <==> ((old / 16) % 2 == 1 || (val / 16) % 2 == 1),
        ((old | (0x30 & val)) / 32) % 2 == 1 <==> ((old / 32) % 2 == 1 || (val / 32) % 2 == 1),
{
}

/// A transfer copies 160 bytes from the page named at FF46 to FE00, if it was asked for, and can be
/// carried out from every page below FE.
pub proof fn law_transfer_bytes(mem: Ram, a: int)
    requires
        mem.wf(),
        0 <= a < 0x10000,
        mem.data[0xFF46] < 0xFE,
    ensures
        mem.transfer_fits(),
        mem.transferred().data.len() == 0x10000,
        mem.transferred().data[a] == if mem.dma_req && 0xFE00 <= a <= 0xFE9F {
            mem.data[256 * mem.data[0xFF46] + (a - 0xFE00)]
        } else {
            mem.data[a]
        },
        !mem.transferred().dma_req,
        mem.transferred().doctor == mem.doctor,
{
}

/// A transfer that was not asked for never fails, and one from FE or FF always does.
pub proof fn law_transfer_refused(mem: Ram)
    requires
        mem.wf(),
    ensures
        !mem.dma_req ==> mem.transfer_fits(),
        mem.dma_req && mem.data[0xFF46] >= 0xFE ==> !mem.transfer_fits(),
{
}

/// The bytes at power up: those of the sound registers, the display control register and the
/// palettes, and zero everywhere else.
pub proof fn law_power_up(a: int)
    requires
        0 <= a < 0x10000,
    ensures
        ({
            let m = memory::power_up();
            &&& m.data.len() == 0x10000 && !m.dma_req && !m.doctor
            &&& m.data[0xFF10] == 0x80 && m.data[0xFF11] == 0xBF && m.data[0xFF12] == 0xF3
            &&& m.data[0xFF14] == 0xBF && m.data[0xFF16] == 0x3F && m.data[0xFF19] == 0xBF
            &&& m.data[0xFF1A] == 0x7F && m.data[0xFF1B] == 0xFF && m.data[0xFF1C] == 0x9F
            &&& m.data[0xFF1E] == 0xBF && m.data[0xFF20] == 0xFF && m.data[0xFF23] == 0xBF
            &&& m.data[0xFF24] == 0x77 && m.data[0xFF25] == 0xF3 && m.data[0xFF26] == 0xF1
            &&& m.data[0xFF40] == 0x91 && m.data[0xFF47] == 0xFC && m.data[0xFF48] == 0xFF
            &&& m.data[0xFF49] == 0xFF
            &&& a < 0xFF10 || a > 0xFF49 || 0xFF27 <= a <= 0xFF3F || 0xFF41 <= a <= 0xFF46 || a
                == 0xFF13 || a == 0xFF15 || a == 0xFF17 || a == 0xFF18 || a == 0xFF1D || a == 0xFF1F
                || a == 0xFF21 || a == 0xFF22 ==> m.data[a] == 0
        }),
{
}

} // verus!
