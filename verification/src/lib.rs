//! An emulator of the Game Boy: its processor, memory, timers and display, without the window that
//! shows them.
//!
//! The hardware is described twice. `Cpu`, `Ram`, `isa::State`, `Lcd` and `system::Machine` are
//! mathematical values, and spec functions say what each instruction, clock and scanline does to
//! them. The executable types have these values as their views, and every function is proved to
//! do what the spec functions say.
//!
//! - `system` puts the parts together and advances them step by step. `guard` tests beforehand
//!   whether a step stays within what the hardware can hold.
//! - `cpu` holds the processor's state, its clocks and its step; `isa` is the instruction set as
//!   mathematics, and `alu`, `rotates`, `loads`, `control` and `dispatch` carry it out.
//! - `memory` holds the address space, the stack in it, and the cartridge; `lcd` draws.
//! - `decode`, `listing`, `dbg` and `text` turn instructions and states into text.
//! - `laws` states what holds of the whole.
#![allow(non_snake_case)]
pub mod alu;
pub mod bits;
pub mod control;
pub mod cpu;
pub mod dbg;
pub mod decode;
pub mod dispatch;
pub mod guard;
pub mod isa;
pub mod laws;
pub mod lcd;
pub mod listing;
pub mod loads;
pub mod memory;
pub mod rotates;
pub mod system;
pub mod text;
pub mod types;
