//! What holds of the whole machine from the moment it is switched on.
use vstd::prelude::*;

use crate::cpu;
use crate::isa;
use crate::laws::invariants;
use crate::laws::timing;
use crate::lcd;
use crate::lcd::Lcd;
use crate::memory;
use crate::memory::{Ram, LCDC, MEM_VRAM};
use crate::system;
use crate::system::Machine;

verus! {

/// A sound machine: processor, memory and display are sound, and the divider has been advanced for
/// every 256 cycles that passed.
pub open spec fn sound(m: Machine) -> bool {
    &&& invariants::sound(isa::state(m.cpu, m.mem))
    &&& m.screen.wf()
    &&& 0 <= m.divider < 256
    &&& 0 <= m.timer
    &&& 0 <= m.screen.timing
}

/// A machine is sound when it is switched on, whatever the cartridge holds. It starts at 0x0100,
/// with the cartridge in the lower half of its memory and the display switched on.
pub proof fn law_power_on(rom: Seq<u8>, doctor: bool)
    requires
        rom.len() >= MEM_VRAM,
    ensures
        sound(system::power_on(rom, doctor)),
        forall|a: int|
            0 <= a < MEM_VRAM ==> #[trigger] system::power_on(rom, doctor).mem.read(a) == rom[a],
        system::power_on(rom, doctor).mem.read(LCDC as int) == 0x91,
{
    let m = system::power_on(rom, doctor);
    assert(m.mem.data.len() == 0x10000);
    assert(m.mem.data[LCDC as int] == memory::power_up().data[LCDC as int]);
}

/// Memory keeps its size while the clocks run.
proof fn lemma_clocked(mem: Ram, divider: int, timer: int)
    requires
        mem.wf(),
    ensures
        cpu::clocked(mem, divider, timer).wf(),
        cpu::clocked(mem, divider, timer).doctor == mem.doctor,
{
}

/// A refreshed display is sound.
proof fn lemma_refreshed(s: Lcd, dt: int)
    requires
        s.mem.wf(),
        s.screen.wf(),
        s.screen.timing >= 0,
        dt >= 0,
    ensures
        lcd::refreshed(s, dt).mem.wf(),
        lcd::refreshed(s, dt).screen.wf(),
        lcd::refreshed(s, dt).screen.timing >= 0,
        lcd::refreshed(s, dt).mem.doctor == s.mem.doctor,
        lcd::refreshed(s, dt).screen.doctor == s.screen.doctor,
{
    lcd::lemma_sprites_found(lcd::line_compared(s.mem), 40);
}

/// Every step that fits leaves a sound machine, takes at most six machine cycles, and does not
/// touch the debugger's switches.
pub proof fn law_advance_sound(m: Machine)
    requires
        sound(m),
        system::advance_fits(m),
        !system::stuck(m),
    ensures
        sound(system::advanced(m)),
        m.cpu.tsc <= system::advanced(m).cpu.tsc <= m.cpu.tsc + 24,
        system::advanced(m).mem.doctor == m.mem.doctor,
        system::advanced(m).screen.doctor == m.screen.doctor,
{
    let s = isa::state(m.cpu, m.mem);
    invariants::law_step_sound(s);
    timing::law_step_time(s);
    let dt = system::step_time(m);
    let moved = system::transferred(system::stepped(m));
    lemma_clocked(moved.mem, moved.divider + dt, moved.timer + dt);
    lemma_refreshed(system::display(system::before_display(m)), dt);
}

} // verus!
