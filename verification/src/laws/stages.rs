//! How the parts of the machine follow each other in one step of the whole.
use vstd::prelude::*;

use crate::cpu;
use crate::isa;
use crate::isa::State;
use crate::laws::counters;
use crate::laws::raw;
use crate::laws::scanning;
use crate::lcd;
use crate::lcd::Lcd;
use crate::memory;
use crate::memory::Ram;
use crate::system;
use crate::system::Machine;

verus! {

/// When it is switched on, the machine has the cartridge's first two banks below 8000, the bytes
/// of power up above, and its registers and counters at their first values.
pub proof fn law_switched_on(rom: Seq<u8>, doctor: bool, a: int)
    requires
        rom.len() >= 0x8000,
        0 <= a < 0x10000,
    ensures
        ({
            let m = system::power_on(rom, doctor);
            &&& m.mem.data.len() == 0x10000
            &&& m.mem.data[a] == if a < 0x8000 {
                rom[a]
            } else {
                memory::power_up().data[a]
            }
            &&& !m.mem.dma_req && m.mem.doctor == doctor && m.screen.doctor == doctor
            &&& m.cpu.pc == 0x100 && m.cpu.sp == 0xFFFE
            &&& m.cpu.reg.len() == 8
            &&& m.cpu.reg[7] == 0x01 && m.cpu.reg[6] == 0xB0
            &&& m.cpu.reg[0] == 0x00 && m.cpu.reg[1] == 0x13
            &&& m.cpu.reg[2] == 0x00 && m.cpu.reg[3] == 0xD8
            &&& m.cpu.reg[4] == 0x01 && m.cpu.reg[5] == 0x4D
            &&& m.cpu.tsc == 0 && m.cpu.inst_count == 0 && m.cpu.inst_ei == 0
            &&& !m.cpu.ime && !m.cpu.halt
            &&& m.timer == 0 && m.divider == 0
            &&& m.screen.timing == 0 && m.screen.doctor_line == 0 && m.screen.sprites.len() == 0
            &&& m.screen.buffer.len() == 23040
            &&& forall|i: int| 0 <= i < 23040 ==> m.screen.buffer[i] == 0
        }),
{
}

/// The memory that the display finds: the processor's, with a transfer carried out that it asked
/// for, and then with the clocks advanced by the time that it took.
pub open spec fn found_memory(m: Machine) -> Ram {
    let t = isa::step(State { cpu: m.cpu, mem: m.mem });
    let dt = t.cpu.tsc - m.cpu.tsc;
    cpu::clocked(t.mem.transferred(), m.divider + dt, m.timer + dt)
}

/// One step of the whole: the processor's step comes first, then a transfer, then the clocks, then
/// the display, and each of the last two is given the time that the processor took. What is left
/// of the time of the clocks is carried over.
pub proof fn law_stages(m: Machine)
    requires
        m.mem.wf(),
        isa::step(State { cpu: m.cpu, mem: m.mem }).mem.wf(),
    ensures
        ({
            let t = isa::step(State { cpu: m.cpu, mem: m.mem });
            let dt = t.cpu.tsc - m.cpu.tsc;
            let moved = t.mem.transferred();
            let u = system::advanced(m);
            let seen = lcd::refreshed(Lcd { screen: m.screen, mem: found_memory(m) }, dt);
            let tac = moved.data[0xFF07];
            &&& u.cpu == t.cpu
            &&& u.mem == seen.mem
            &&& u.screen == seen.screen
            &&& u.divider == (m.divider + dt) % 256
            &&& !raw::on(tac, 4) ==> u.timer == m.timer + dt
            &&& raw::on(tac, 4) && tac % 4 == 0 ==> u.timer == (m.timer + dt) % 1024
            &&& raw::on(tac, 4) && tac % 4 == 1 ==> u.timer == (m.timer + dt) % 16
            &&& raw::on(tac, 4) && tac % 4 == 2 ==> u.timer == (m.timer + dt) % 64
            &&& raw::on(tac, 4) && tac % 4 == 3 ==> u.timer == (m.timer + dt) % 256
            &&& system::completes_frame(m) == (found_memory(m).data[0xFF41] % 4 == 1
                && m.screen.timing + dt >= 4560)
        }),
{
    let t = isa::step(State { cpu: m.cpu, mem: m.mem });
    let dt = t.cpu.tsc - m.cpu.tsc;
    let moved = t.mem.transferred();
    counters::law_timer_switch(moved);
    counters::law_timer_rates(moved);
    scanning::law_compare_lines(found_memory(m));
}

/// A step of the whole succeeds exactly if each stage can be carried out on what the one before
/// left, and is unknown exactly if the processor meets an opcode that stands for nothing.
pub proof fn law_stages_fit(m: Machine)
    ensures
        ({
            let s = State { cpu: m.cpu, mem: m.mem };
            let t = isa::step(s);
            let dt = t.cpu.tsc - m.cpu.tsc;
            &&& system::stuck(m) == isa::stuck(s)
            &&& isa::stuck(s) ==> (system::advance_fits(m) <==> isa::step_fits(s))
            &&& !isa::stuck(s) ==> (system::advance_fits(m) <==> {
                &&& isa::step_fits(s)
                &&& !t.mem.dma_req || t.mem.data[0xFF46] < 0xFE
                &&& m.timer + dt <= u64::MAX
                &&& m.divider + dt <= u64::MAX
                &&& lcd::refresh_fits(Lcd { screen: m.screen, mem: found_memory(m) }, dt)
            })
        }),
{
}

/// A step that is broken off leaves the stages before the one that failed carried out, and no
/// other.
pub proof fn law_broken_off(m: Machine)
    ensures
        ({
            let s = State { cpu: m.cpu, mem: m.mem };
            let t = isa::step(s);
            let dt = t.cpu.tsc - m.cpu.tsc;
            let u = system::broken_off(m);
            &&& !isa::step_fits(s) ==> u == m
            &&& isa::step_fits(s) && t.mem.dma_req && t.mem.data[0xFF46] >= 0xFE ==> u == (Machine {
                cpu: t.cpu,
                mem: t.mem,
                ..m
            })
            &&& isa::step_fits(s) && t.mem.transfer_fits() && (m.timer + dt > u64::MAX || m.divider
                + dt > u64::MAX) ==> u == (Machine { cpu: t.cpu, mem: t.mem.transferred(), ..m })
            &&& isa::step_fits(s) && t.mem.transfer_fits() && m.timer + dt <= u64::MAX && m.divider
                + dt <= u64::MAX ==> u.cpu == t.cpu && u.mem == found_memory(m) && u.screen
                == m.screen
        }),
{
}

} // verus!
