//! How the listing of an instruction relates to its execution.
use vstd::prelude::*;

use crate::decode;
use crate::decode::INVALID;
use crate::isa;
use crate::isa::State;
use crate::laws::flow;
use crate::listing;

verus! {

/// The opcodes that are not decoded: those that stand for no instruction, and the loads of a
/// register from the byte that HL addresses.
pub open spec fn undecoded(op: int) -> bool {
    isa::undefined(op) || (op / 64 == 1 && op % 8 == 6 && op != 0x76)
}

/// An opcode is decoded with no length exactly if it is one of those, and is then named invalid.
pub proof fn law_invalid(op: int)
    requires
        0 <= op < 256,
    ensures
        decode::decoded(op).1 == 0 <==> undecoded(op),
        undecoded(op) ==> decode::decoded(op).0 == INVALID@,
{
}

/// The decoded length counts the opcode and its operand bytes, as the table of operands has them.
/// Only the prefix CB is decoded by itself.
pub proof fn law_length(op: int)
    requires
        0 <= op < 256,
        !undecoded(op),
        op != 0xCB,
    ensures
        decode::decoded(op).1 == 1 + isa::operand_count(op),
{
}

/// A line of a listing covers as many bytes as the instruction has, but for STOP, which skips a
/// byte that the listing does not.
pub proof fn law_line_length(rom: Seq<u8>, i: int)
    requires
        0 <= i < rom.len(),
        !undecoded(rom[i] as int),
    ensures
        listing::line_length(rom, i) == if rom[i] == 0x10 {
            1
        } else {
            isa::length(rom[i] as int)
        },
{
}

/// The listing follows the program: executing the instruction at `i`, if it neither jumps, calls
/// nor returns and is not STOP, moves the program counter on by as many bytes as its line covers.
pub proof fn law_line_passed_over(rom: Seq<u8>, i: int, s: State)
    requires
        0 <= i < rom.len(),
        !undecoded(rom[i] as int),
        rom[i] != 0x10,
        !isa::leaves(s, rom[i] as int),
        !flow::jumps_by_offset(s, rom[i] as int),
        !flow::calls(s, rom[i] as int),
    ensures
        isa::execute(s, rom[i] as int).cpu.pc == s.cpu.pc + listing::line_length(rom, i),
{
    flow::law_passes_over(s, rom[i] as int);
    law_line_length(rom, i);
}

/// A listing never stands still: every line covers one to three bytes.
pub proof fn law_progress(rom: Seq<u8>, i: int)
    requires
        0 <= i < rom.len(),
    ensures
        1 <= listing::line_length(rom, i) <= 3,
{
}

/// A listing can be made in parts: where a line starts, the rest of the listing is the listing of
/// the rest.
pub proof fn law_parts(rom: Seq<u8>, i: int, end: int)
    requires
        0 <= i < end,
        listing::line_fits(rom, i),
    ensures
        listing::lines(rom, i, end).len() == 1 + listing::lines(
            rom,
            i + listing::line_length(rom, i),
            end,
        ).len(),
        listing::lines(rom, i, end)[0] == listing::line_text(rom, i),
        listing::lines(rom, i, end).skip(1) == listing::lines(
            rom,
            i + listing::line_length(rom, i),
            end,
        ),
{
    let rest = listing::lines(rom, i + listing::line_length(rom, i), end);
    assert((seq![listing::line_text(rom, i)] + rest).skip(1) =~= rest);
}

} // verus!
