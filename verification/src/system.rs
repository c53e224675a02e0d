//! The whole machine: processor, memory, timers and display, advanced together step by step.
use vstd::prelude::*;

use crate::cpu;
use crate::cpu::{next, update_clocks, CPUState, Cpu, HardwareTimers, UnknownInstructionError};
use crate::dbg;
use crate::dbg::doctor_line;
use crate::guard;
use crate::isa;
use crate::laws::timing;
use crate::lcd;
use crate::lcd::{Display, Lcd, Screen};
use crate::memory;
use crate::memory::{Cartridge, Memory, Ram, MEM_VRAM};

verus! {

/// The machine as a value.
#[verifier::ext_equal]
pub struct Machine {
    pub cpu: Cpu,
    pub mem: Ram,
    pub timer: int,
    pub divider: int,
    pub screen: Screen,
}

/// The machine when it is switched on with a cartridge in it.
pub open spec fn power_on(rom: Seq<u8>, doctor: bool) -> Machine {
    Machine {
        cpu: Cpu {
            tsc: 0,
            inst_count: 0,
            inst_ei: 0,
            reg: seq![0x00u8, 0x13u8, 0x00u8, 0xD8u8, 0x01u8, 0x4Du8, 0xB0u8, 0x01u8],
            sp: 0xFFFE,
            pc: 0x0100,
            ime: false,
            halt: false,
        },
        mem: Ram {
            data: rom.subrange(0, MEM_VRAM as int) + memory::power_up().data.subrange(
                MEM_VRAM as int,
                0x10000,
            ),
            dma_req: false,
            doctor,
        },
        timer: 0,
        divider: 0,
        screen: Screen {
            buffer: Seq::new(160 * 144, |i: int| 0u32),
            sprites: Seq::empty(),
            timing: 0,
            doctor,
            doctor_line: 0,
        },
    }
}

/// The machine after the processor took its step.
pub open spec fn stepped(m: Machine) -> Machine {
    let t = isa::step(isa::state(m.cpu, m.mem));
    Machine { cpu: t.cpu, mem: t.mem, ..m }
}

/// The machine after a pending transfer.
pub open spec fn transferred(m: Machine) -> Machine {
    Machine { mem: m.mem.transferred(), ..m }
}

/// The machine after the timers counted `dt` cycles.
pub open spec fn clocked(m: Machine, dt: int) -> Machine {
    Machine {
        mem: cpu::clocked(m.mem, m.divider + dt, m.timer + dt),
        divider: (m.divider + dt) % 256,
        timer: if cpu::timer_on(m.mem) {
            (m.timer + dt) % cpu::timer_period(m.mem)
        } else {
            m.timer + dt
        },
        ..m
    }
}

/// The display and the memory of a machine.
pub open spec fn display(m: Machine) -> Lcd {
    Lcd { screen: m.screen, mem: m.mem }
}

/// The machine after the display was refreshed for `dt` cycles.
pub open spec fn refreshed(m: Machine, dt: int) -> Machine {
    let t = lcd::refreshed(display(m), dt);
    Machine { mem: t.mem, screen: t.screen, ..m }
}

/// The number of cycles that the next step takes.
pub open spec fn step_time(m: Machine) -> int {
    stepped(m).cpu.tsc - m.cpu.tsc
}

/// The machine after the step of the processor and what comes before the display.
pub open spec fn before_display(m: Machine) -> Machine {
    clocked(transferred(stepped(m)), step_time(m))
}

/// The machine after one step of everything: the processor moves, a transfer that it asked for is
/// carried out, and then the timers and the display follow for as long as the processor took.
pub open spec fn advanced(m: Machine) -> Machine {
    refreshed(before_display(m), step_time(m))
}

/// Whether the next step completes a frame.
pub open spec fn completes_frame(m: Machine) -> bool {
    lcd::completes(display(before_display(m)), step_time(m))
}

/// Whether the next step meets an opcode that stands for no instruction.
pub open spec fn stuck(m: Machine) -> bool {
    isa::stuck(isa::state(m.cpu, m.mem))
}

/// Whether the timers can count `dt` cycles.
pub open spec fn clock_fits(m: Machine, dt: int) -> bool {
    m.timer + dt <= u64::MAX && m.divider + dt <= u64::MAX
}

/// Whether every stage of the next step stays within what the hardware can hold.
pub open spec fn advance_fits(m: Machine) -> bool {
    &&& isa::step_fits(isa::state(m.cpu, m.mem))
    &&& !stuck(m) ==> {
        &&& stepped(m).mem.transfer_fits()
        &&& clock_fits(transferred(stepped(m)), step_time(m))
        &&& lcd::refresh_fits(display(before_display(m)), step_time(m))
    }
}

/// The machine that a step leaves which does not fit: the stages before the one that failed have
/// been completed.
pub open spec fn broken_off(m: Machine) -> Machine {
    if !isa::step_fits(isa::state(m.cpu, m.mem)) {
        m
    } else if !stepped(m).mem.transfer_fits() {
        stepped(m)
    } else if !clock_fits(transferred(stepped(m)), step_time(m)) {
        transferred(stepped(m))
    } else {
        before_display(m)
    }
}

/// What became of a step.
#[derive(Debug)]
pub enum Outcome {
    /// The step was taken.
    Ran,
    /// The step was taken and completed a frame.
    Frame,
    /// The opcode at the program counter stands for no instruction.
    Unknown(UnknownInstructionError),
    /// An address or a counter left its range.
    OutOfRange,
}

/// A machine with a cartridge.
pub struct System {
    pub cpu: CPUState,
    pub mem: Memory,
    pub timers: HardwareTimers,
    pub lcd: Display,
}

impl View for System {
    type V = Machine;

    open spec fn view(&self) -> Machine {
        Machine {
            cpu: self.cpu@,
            mem: self.mem@,
            timer: self.timers.timer as int,
            divider: self.timers.divider as int,
            screen: self.lcd@,
        }
    }
}

impl System {
    /// Switches the machine on with a cartridge in it.
    pub fn new(cart: &Cartridge, doctor: bool) -> (r: System)
        requires
            cart@.len() >= MEM_VRAM,
        ensures
            r@.screen.wf(),
            r@ == power_on(cart@, doctor),
    {
        let cpu = CPUState::new();
        let mut mem = Memory::new();
        let mut lcd = Display::new();
        mem.doctor = doctor;
        lcd.doctor = doctor;
        mem.load_rom(cart);
        let timers = HardwareTimers::new();
        System { cpu, mem, timers, lcd }
    }

    /// The line that the debugger expects before a step. There is none for the last three
    /// addresses, behind which four bytes cannot be shown.
    pub fn trace(&self) -> (r: Option<String>)
        ensures
            r is Some <==> self.cpu.pc + 3 <= 0xFFFF,
            r matches Some(line) ==> line@ == dbg::state_text(
                self.cpu,
                Seq::new(4, |i: int| self.mem@.peek(self.cpu.pc + i)),
            ),
    {
        if self.cpu.pc <= 0xFFFC {
            Some(doctor_line(&self.cpu, &self.mem))
        } else {
            None
        }
    }

    /// Advances the whole machine by one step of the processor.
    pub fn step(&mut self) -> (r: Outcome)
        requires
            old(self)@.screen.wf(),
        ensures
            final(self)@.screen.wf(),
            r is OutOfRange <==> !advance_fits(old(self)@),
            r is Unknown <==> advance_fits(old(self)@) && stuck(old(self)@),
            r is Frame ==> completes_frame(old(self)@),
            r is Ran ==> !completes_frame(old(self)@),
            r is Ran || r is Frame ==> final(self)@ == advanced(old(self)@),
            r matches Outcome::Unknown(e) ==> final(self)@ == old(self)@ && e.mnm@ == "INVALID"@
                && e.op == isa::opcode(isa::state(old(self)@.cpu, old(self)@.mem)),
            r is OutOfRange ==> final(self)@ == broken_off(old(self)@),
    {
        let ghost m = self@;
        if !guard::next_fits(&self.cpu, &self.mem) {
            return Outcome::OutOfRange;
        }
        let cpu = match next(self.cpu, &mut self.mem) {
            Ok(cpu) => cpu,
            Err(e) => {
                return Outcome::Unknown(e);
            },
        };
        proof {
            timing::law_step_time(isa::state(m.cpu, m.mem));
        }
        let dt_cyc: u64 = cpu.tsc - self.cpu.tsc;
        self.cpu = cpu;
        assert(self@ =~= stepped(m));

        // update memory (e.g. handle any pending DMA transfers)
        if !guard::transfer_fits(&self.mem) {
            return Outcome::OutOfRange;
        }
        self.mem.update();
        assert(self@ =~= transferred(stepped(m)));

        // update timers
        if self.timers.timer > u64::MAX - dt_cyc || self.timers.divider > u64::MAX - dt_cyc {
            return Outcome::OutOfRange;
        }
        let timers = HardwareTimers { timer: self.timers.timer, divider: self.timers.divider };
        self.timers = update_clocks(timers, &mut self.mem, dt_cyc);
        assert(self@ =~= before_display(m));

        // update display
        if !guard::refresh_fits(&self.lcd, &self.mem, dt_cyc) {
            return Outcome::OutOfRange;
        }
        let frame = self.lcd.update(&mut self.mem, dt_cyc);
        assert(self@ =~= advanced(m));
        if frame {
            Outcome::Frame
        } else {
            Outcome::Ran
        }
    }
}

} // verus!
