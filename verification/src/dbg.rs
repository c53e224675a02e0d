//! Texts for the debugger: the processor's state, its flags, and the display's control register.
use vstd::prelude::*;
use vstd::string::{StrSliceExecFns, StringExecFns};

use crate::bits;
use crate::bits::bit_test;
use crate::cpu::{CPUState, FLAGS, REG_A, REG_B, REG_C, REG_D, REG_E, REG_H, REG_L};
use crate::memory::{Memory, LCDC, VEC_INT_VBLANK};
use crate::text;
use crate::text::{digits_text, hex2_text, hex4_text, join2};
use crate::types::{Byte, Word};

verus! {

/// A record of the processor's state and of the four bytes at the program counter.
pub struct CPULog {
    pub cpu: CPUState,
    pub mem_next: [Byte; 4],
}

/// The line that describes a state: every register, and the four bytes at the program counter.
pub open spec fn state_text(cpu: CPUState, next: Seq<u8>) -> Seq<char> {
    "A:"@ + text::hex2(cpu.reg[REG_A as int], true)
    + " F:"@ + text::hex2(cpu.reg[FLAGS as int], true)
    + " B:"@ + text::hex2(cpu.reg[REG_B as int], true)
    + " C:"@ + text::hex2(cpu.reg[REG_C as int], true)
    + " D:"@ + text::hex2(cpu.reg[REG_D as int], true)
    + " E:"@ + text::hex2(cpu.reg[REG_E as int], true)
    + " H:"@ + text::hex2(cpu.reg[REG_H as int], true)
    + " L:"@ + text::hex2(cpu.reg[REG_L as int], true)
    + " SP:"@ + text::hex4(cpu.sp, true)
    + " PC:"@ + text::hex4(cpu.pc, true)
    + " PCMEM:"@ + text::hex2(next[0], true)
    + ","@ + text::hex2(next[1], true)
    + ","@ + text::hex2(next[2], true)
    + ","@ + text::hex2(next[3], true)
}

/// Appends a label and a byte.
fn append_byte(out: &mut String, label: &str, val: Byte)
    ensures
        final(out)@ == old(out)@ + label@ + text::hex2(val, true),
{
    out.append(label);
    out.append(hex2_text(val, true).as_str());
}

/// Appends a label and a word.
fn append_word(out: &mut String, label: &str, val: Word)
    ensures
        final(out)@ == old(out)@ + label@ + text::hex4(val, true),
{
    out.append(label);
    out.append(hex4_text(val, true).as_str());
}

/// The line that describes a state.
pub fn state_line(cpu: &CPUState, next: &[Byte; 4]) -> (r: String)
    ensures
        r@ == state_text(*cpu, next@),
{
    let mut out = join2("A:", hex2_text(cpu.reg[REG_A], true).as_str());
    append_byte(&mut out, " F:", cpu.reg[FLAGS]);
    append_byte(&mut out, " B:", cpu.reg[REG_B]);
    append_byte(&mut out, " C:", cpu.reg[REG_C]);
    append_byte(&mut out, " D:", cpu.reg[REG_D]);
    append_byte(&mut out, " E:", cpu.reg[REG_E]);
    append_byte(&mut out, " H:", cpu.reg[REG_H]);
    append_byte(&mut out, " L:", cpu.reg[REG_L]);
    append_word(&mut out, " SP:", cpu.sp);
    append_word(&mut out, " PC:", cpu.pc);
    append_byte(&mut out, " PCMEM:", next[0]);
    append_byte(&mut out, ",", next[1]);
    append_byte(&mut out, ",", next[2]);
    append_byte(&mut out, ",", next[3]);
    out
}

/// The line that the debugger expects before a step. It shows memory as it is stored.
pub fn doctor_line(cpu: &CPUState, mem: &Memory) -> (r: String)
    requires
        cpu.pc + 3 <= 0xFFFF,
    ensures
        r@ == state_text(
            *cpu,
            Seq::new(4, |i: int| mem@.peek(cpu.pc + i)),
        ),
{
    let next: [Byte; 4] = [
        mem[cpu.pc],
        mem[cpu.pc + 1],
        mem[cpu.pc + 2],
        mem[cpu.pc + 3],
    ];
    assert(next@ =~= Seq::new(4, |i: int| mem@.peek(cpu.pc + i)));
    state_line(cpu, &next)
}

impl CPULog {
    /// The line that describes the recorded state.
    pub fn to_string(&self) -> (r: String)
        ensures
            r@ == state_text(self.cpu, self.mem_next@),
    {
        state_line(&self.cpu, &self.mem_next)
    }
}

/// Records a state, with memory as the program reads it.
pub fn log_cpu(buffer: &mut Vec<CPULog>, cpu: &CPUState, mem: &Memory)
    requires
        cpu.pc + 3 <= 0xFFFF,
    ensures
        final(buffer)@.len() == old(buffer)@.len() + 1,
        final(buffer)@.drop_last() == old(buffer)@,
        final(buffer)@.last().cpu == *cpu,
        final(buffer)@.last().mem_next@ == Seq::new(4, |i: int| mem@.read(cpu.pc + i)),
{
    let mem_next: [Byte; 4] = [
        mem.read(cpu.pc),
        mem.read(cpu.pc + 1),
        mem.read(cpu.pc + 2),
        mem.read(cpu.pc + 3),
    ];
    assert(mem_next@ =~= Seq::new(4, |i: int| mem@.read(cpu.pc + i)));
    buffer.push(CPULog { cpu: *cpu, mem_next });
    assert(buffer@.drop_last() =~= old(buffer)@);
}

/// The names of the interrupts, in the order of their vectors.
pub open spec fn interrupt_name(i: int) -> Seq<char> {
    if i == 0 {
        "VBLANK"@
    } else if i == 1 {
        "STAT"@
    } else if i == 2 {
        "TIMER"@
    } else if i == 3 {
        "SERIAL"@
    } else {
        "JOYPAD"@
    }
}

/// The name of the interrupt whose vector is `i`. Every eight addresses belong to one vector.
pub fn str_interrupt(i: Word) -> (r: &'static str)
    requires
        0x40 <= i < 0x68,
    ensures
        r@ == interrupt_name((i - 0x40) / 8),
{
    match (i - VEC_INT_VBLANK) / 0x08 {
        0 => "VBLANK",
        1 => "STAT",
        2 => "TIMER",
        3 => "SERIAL",
        _ => "JOYPAD",
    }
}

/// The name of a flag if it is set, a dash if not.
pub open spec fn flag_text(set: bool, name: Seq<char>) -> Seq<char> {
    if set {
        name
    } else {
        "—"@
    }
}

/// The flags in a flag register, lowest first.
pub open spec fn flags_text(flags: u8) -> Seq<char> {
    flag_text(bits::has_bit(flags, 4), "C"@) + flag_text(bits::has_bit(flags, 5), "H"@) + flag_text(
        bits::has_bit(flags, 6),
        "N"@,
    ) + flag_text(bits::has_bit(flags, 7), "Z"@)
}

/// The flags in a flag register, lowest first.
pub fn str_flags(flags: Byte) -> (r: String)
    ensures
        r@ == flags_text(flags),
{
    let mut out = join2(
        if bit_test(4, flags) {
            "C"
        } else {
            "—"
        },
        if bit_test(5, flags) {
            "H"
        } else {
            "—"
        },
    );
    out.append(
        if bit_test(6, flags) {
            "N"
        } else {
            "—"
        },
    );
    out.append(
        if bit_test(7, flags) {
            "Z"
        } else {
            "—"
        },
    );
    out
}

/// `s` with spaces before it, so that it is at least `width` characters long.
pub open spec fn padded(s: Seq<char>, width: int) -> Seq<char> {
    if s.len() < width {
        Seq::new((width - s.len()) as nat, |i: int| ' ') + s
    } else {
        s
    }
}

/// A text with spaces before it, so that it is at least `width` characters long.
fn pad_text(s: &str, width: usize) -> (r: String)
    ensures
        r@ == padded(s@, width as int),
{
    let len: usize = s.unicode_len();
    let mut out = String::new();
    let mut k: usize = len;
    assert(out@ =~= Seq::new(0, |i: int| ' '));
    while k < width
        invariant
            len == s@.len(),
            len <= k,
            k <= width || k == len,
            out@ == Seq::new((k - len) as nat, |i: int| ' '),
        decreases width - k,
    {
        proof {
            reveal_strlit(" ");
        }
        out.append(" ");
        k += 1;
        assert(out@ =~= Seq::new((k - len) as nat, |i: int| ' '));
    }
    out.append(s);
    assert(out@ =~= padded(s@, width as int));
    out
}

/// One of two texts, by a bit.
pub open spec fn choice(val: u8, i: int, on: Seq<char>, off: Seq<char>) -> Seq<char> {
    if bits::has_bit(val, i) {
        on
    } else {
        off
    }
}

/// The line that describes the display's control register.
pub open spec fn lcdc_line(v: u8) -> Seq<char> {
    padded("0b"@ + text::digits(v as nat, 2, false), 10)
    + " LCDC [scr: "@ + choice(v, 7, " on"@, "off"@)
    + ", wnd_map: "@ + choice(v, 6, "0x9C00"@, "0x9800"@)
    + ", wnd: "@ + choice(v, 5, " on"@, "off"@)
    + ", bg/wnd_dat: "@ + choice(v, 4, "0x8000"@, "0x8800"@)
    + ", bg_map: "@ + choice(v, 3, "0x9C00"@, "0x9800"@)
    + ", obj_sz: "@ + choice(v, 2, "16"@, " 8"@)
    + ", obj: "@ + choice(v, 1, " on"@, "off"@)
    + ", bg: "@ + choice(v, 0, " on"@, "off"@)
    + "]"@
}

/// Appends a label and one of two texts.
fn append_choice(out: &mut String, label: &str, val: Byte, i: Byte, on: &str, off: &str)
    requires
        i < 8,
    ensures
        final(out)@ == old(out)@ + label@ + choice(val, i as int, on@, off@),
{
    out.append(label);
    if bit_test(i, val) {
        out.append(on);
    } else {
        out.append(off);
    }
}

/// The line that describes the display's control register.
pub fn str_lcdc(mem: &Memory) -> (r: String)
    ensures
        r@ == lcdc_line(mem@.read(LCDC as int)),
{
    let v: Byte = mem.read(LCDC);
    let binary = join2("0b", digits_text(v, 2, false).as_str());
    let mut out = pad_text(binary.as_str(), 10);
    append_choice(&mut out, " LCDC [scr: ", v, 7, " on", "off");
    append_choice(&mut out, ", wnd_map: ", v, 6, "0x9C00", "0x9800");
    append_choice(&mut out, ", wnd: ", v, 5, " on", "off");
    append_choice(&mut out, ", bg/wnd_dat: ", v, 4, "0x8000", "0x8800");
    append_choice(&mut out, ", bg_map: ", v, 3, "0x9C00", "0x9800");
    append_choice(&mut out, ", obj_sz: ", v, 2, "16", " 8");
    append_choice(&mut out, ", obj: ", v, 1, " on", "off");
    append_choice(&mut out, ", bg: ", v, 0, " on", "off");
    out.append("]");
    out
}

} // verus!
