//! Listings of a cartridge: its bytes in hexadecimal, and its instructions one by one.
use vstd::prelude::*;
use vstd::string::StringExecFns;

use crate::decode;
use crate::decode::{decode, decodeCB};
use crate::memory::Cartridge;
use crate::text;
use crate::text::hex2_text;
use crate::types;
use crate::types::{Byte, Instruction};

verus! {

/// The first `n` bytes in hexadecimal, each with a space behind it, sixteen to a line.
pub open spec fn hex_rows(rom: Seq<u8>, n: int) -> Seq<char>
    decreases n,
{
    if n <= 0 {
        Seq::empty()
    } else {
        let row = hex_rows(rom, n - 1) + text::hex2(rom[n - 1], true) + " "@;
        if n % 16 == 0 {
            row + "\n"@
        } else {
            row
        }
    }
}

/// The first `size` bytes of a cartridge in hexadecimal, sixteen to a line.
pub fn hex_dump(cart: &Cartridge, size: usize) -> (r: String)
    requires
        size <= cart@.len(),
    ensures
        r@ == hex_rows(cart@, size as int),
{
    let mut out = String::new();
    let mut i: usize = 0;
    assert(out@ =~= hex_rows(cart@, 0));
    while i < size
        invariant
            0 <= i <= size,
            size <= cart@.len(),
            out@ == hex_rows(cart@, i as int),
        decreases size - i,
    {
        let b: Byte = cart[i];
        out.append(hex2_text(b, true).as_str());
        out.append(" ");
        i += 1;
        if i % 16 == 0 {
            out.append("\n");
        }
    }
    out
}

/// The mnemonic of an opcode behind the prefix CB.
pub open spec fn cb_text(op: int) -> Seq<char> {
    let name = decode::decoded_cb(op);
    if op < 0x40 {
        name + ", "@ + decode::operand_name(op % 8)
    } else {
        name + " "@ + text::digits(((op / 8) % 8) as nat, 10, false) + ", "@ + decode::operand_name(
            op % 8,
        )
    }
}

/// Whether the opcode at `i` is the prefix CB.
pub open spec fn prefixed(rom: Seq<u8>, i: int) -> bool {
    rom[i] == 0xCB
}

/// The number of bytes that the line for the instruction at `i` covers. An opcode that is not
/// decoded has a line to itself.
pub open spec fn line_length(rom: Seq<u8>, i: int) -> int {
    let len = decode::decoded(rom[i] as int).1;
    if len == 0 {
        1
    } else if prefixed(rom, i) {
        len + 1
    } else {
        len
    }
}

/// Whether the instruction at `i` ends inside the cartridge.
pub open spec fn line_fits(rom: Seq<u8>, i: int) -> bool {
    0 <= i < rom.len() && i + line_length(rom, i) <= rom.len()
}

/// The line for the instruction at `i`.
pub open spec fn line_text(rom: Seq<u8>, i: int) -> Seq<char> {
    let (mnm, len) = decode::decoded(rom[i] as int);
    if len == 0 {
        "[invalid instruction]"@
    } else if prefixed(rom, i) {
        cb_text(rom[i + 1] as int)
    } else if len == 1 {
        mnm
    } else {
        types::mnemonic_with(mnm, rom.subrange(i + 1, i + len))
    }
}

/// The lines for the instructions from `i` to `end`, up to one that the cartridge cuts off.
pub open spec fn lines(rom: Seq<u8>, i: int, end: int) -> Seq<Seq<char>>
    decreases
            if i < end {
                end - i
            } else {
                0
            },
{
    if i >= end || !line_fits(rom, i) {
        Seq::empty()
    } else {
        seq![line_text(rom, i)] + lines(rom, i + line_length(rom, i), end)
    }
}

/// Whether no instruction from `i` to `end` is cut off.
pub open spec fn whole(rom: Seq<u8>, i: int, end: int) -> bool
    decreases
            if i < end {
                end - i
            } else {
                0
            },
{
    i >= end || line_fits(rom, i) && whole(rom, i + line_length(rom, i), end)
}

/// The line for the instruction at `i`, and the place of the next instruction. There is none if
/// the cartridge ends inside the instruction.
pub fn disassemble_at(cart: &Cartridge, i: usize) -> (r: Option<(String, usize)>)
    ensures
        r is Some <==> line_fits(cart@, i as int),
        r matches Some((line, next)) ==> line@ == line_text(cart@, i as int) && next == i
            + line_length(cart@, i as int),
{
    let size: usize = cart.len();
    if i >= size {
        return None;
    }
    let inst: Instruction = decode(cart[i]);
    proof {
        decode::lemma_prefix(cart@[i as int] as int);
    }
    if !inst.valid() {
        return Some((String::from_str("[invalid instruction]"), i + 1));
    }
    let argc: usize = inst.len as usize;
    if inst.prefix() {
        // all cb instructions are 1 byte for the prefix and 1 byte for the opcode
        if size - i < 2 {
            return None;
        }
        let cb = decodeCB(cart[i + 1]);
        let line = Instruction::from_cb(&cb).mnm;
        Some((line, i + 2))
    } else if size - i < argc {
        None
    } else if argc == 1 {
        Some((inst.mnm, i + 1))
    } else {
        Some((inst.mnm_args(&cart[i + 1..i + argc]), i + argc))
    }
}

/// The texts that strings hold.
pub open spec fn texts(v: Seq<String>) -> Seq<Seq<char>> {
    Seq::new(v.len(), |i: int| v[i]@)
}

/// The instructions in the first `size` bytes of a cartridge, one by one, and whether the listing
/// is complete. It stops at an instruction that the cartridge cuts off.
pub fn disassemble(cart: &Cartridge, size: usize) -> (r: (Vec<String>, bool))
    ensures
        texts(r.0@) == lines(cart@, 0, size as int),
        r.1 == whole(cart@, 0, size as int),
{
    let mut out: Vec<String> = Vec::new();
    let mut i: usize = 0;
    assert(texts(out@) + lines(cart@, 0, size as int) =~= lines(cart@, 0, size as int));
    while i < size
        invariant
            texts(out@) + lines(cart@, i as int, size as int) == lines(cart@, 0, size as int),
            whole(cart@, i as int, size as int) == whole(cart@, 0, size as int),
        decreases
                if i < size {
                    size - i
                } else {
                    0
                },
    {
        match disassemble_at(cart, i) {
            Some((line, next)) => {
                let ghost before = out@;
                out.push(line);
                assert(texts(out@) =~= texts(before) + seq![line@]);
                assert(texts(before) + (seq![line@] + lines(cart@, next as int, size as int))
                    =~= texts(out@) + lines(cart@, next as int, size as int));
                i = next;
            },
            None => {
                assert(texts(out@) + lines(cart@, i as int, size as int) =~= texts(out@));
                return (out, false);
            },
        }
    }
    assert(texts(out@) + lines(cart@, i as int, size as int) =~= texts(out@));
    (out, true)
}

} // verus!
