//! The integer types of the machine, and decoded instructions.
use vstd::prelude::*;
use vstd::string::StringExecFns;

use crate::bits::combine;
use crate::decode;
use crate::decode::{r_name, CBPREFIX};
use crate::text;
use crate::text::{digits_text, hex2_text, hex4_text, join2, join3, replace_text};

verus! {

pub type Byte = u8;

pub type Word = u16;

pub type SByte = i8;

pub type SWord = i16;

/// A decoded instruction: its mnemonic, and the number of bytes to read.
#[derive(PartialEq, Debug)]
pub struct Instruction {
    pub mnm: String,
    pub len: u8,
}

/// A decoded instruction behind the prefix CB: its name, the number of the bit it works on (0xFF
/// if it works on the whole byte), and the operand.
#[derive(PartialEq, Debug)]
pub struct InstructionCB {
    pub opcode: &'static str,
    pub bit: u8,
    pub reg: usize,
}

/// The mnemonic of an instruction behind the prefix CB.
pub open spec fn cb_mnemonic(icb: InstructionCB) -> Seq<char> {
    if icb.bit < 0xff {
        icb.opcode@ + " "@ + text::digits(icb.bit as nat, 10, false) + ", "@ + decode::operand_name(
            icb.reg as int,
        )
    } else {
        icb.opcode@ + ", "@ + decode::operand_name(icb.reg as int)
    }
}

/// A mnemonic with the operand bytes written in: one byte replaces `n`, two bytes replace `nn`.
pub open spec fn mnemonic_with(mnm: Seq<char>, rom: Seq<u8>) -> Seq<char> {
    if rom.len() == 1 {
        text::replaced(mnm, "n"@, "$"@ + text::hex2(rom[0], false))
    } else {
        text::replaced(mnm, "nn"@, "$"@ + text::hex2(rom[1], false) + text::hex2(rom[0], false))
    }
}

impl Instruction {
    pub fn new(text: &str, len: u8) -> (r: Self)
        ensures
            r.mnm@ == text@,
            r.len == len,
    {
        Self { mnm: String::from_str(text), len }
    }

    /// The instruction behind the prefix CB in the common form.
    pub fn from_cb(icb: &InstructionCB) -> (r: Self)
        requires
            icb.reg < 8,
        ensures
            r.mnm@ == cb_mnemonic(*icb),
            r.len == 1,
    {
        let name = r_name(icb.reg as u8);
        let mnm = if icb.bit < 0xff {
            let bit = digits_text(icb.bit, 10, false);
            let mut out = join3(icb.opcode, " ", bit.as_str());
            out.append(", ");
            out.append(name);
            out
        } else {
            join3(icb.opcode, ", ", name)
        };
        Self { mnm, len: 1 }
    }

    /// Whether the instruction exists.
    pub fn valid(&self) -> (r: bool)
        ensures
            r == (self.len > 0),
    {
        self.len > 0
    }

    /// Whether this is the prefix of a two byte instruction.
    pub fn prefix(&self) -> (r: bool)
        ensures
            r == (self.mnm@ == CBPREFIX@),
    {
        self.mnm == String::from_str(CBPREFIX)
    }

    /// The mnemonic with its operand bytes written in.
    pub fn mnm_args(&self, rom: &[Byte]) -> (r: String)
        requires
            rom@.len() == 1 || rom@.len() == 2,
        ensures
            r@ == mnemonic_with(self.mnm@, rom@),
    {
        proof {
            reveal_strlit("n");
            reveal_strlit("nn");
        }
        if rom.len() == 1 {
            let arg = join2("$", hex2_text(rom[0], false).as_str());
            replace_text(self.mnm.as_str(), "n", arg.as_str())
        } else {
            let arg = join2("$", hex4_text(combine(rom[1], rom[0]), false).as_str());
            assert(arg@ =~= "$"@ + text::hex2(rom[1], false) + text::hex2(rom[0], false));
            replace_text(self.mnm.as_str(), "nn", arg.as_str())
        }
    }
}

} // verus!
