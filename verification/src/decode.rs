//! Decoding: from opcodes to mnemonics.
use vstd::prelude::*;
use vstd::string::StringExecFns;

use crate::cpu::{REG_A, REG_B, REG_C, REG_D, REG_E, REG_H, REG_L};
use crate::text;
use crate::text::{hex2_text, join2, join3};
use crate::types::{Byte, Instruction, InstructionCB};

verus! {

// https://gb-archive.github.io/salvage/decoding_gbz80_opcodes/Decoding%20Gamboy%20Z80%20Opcodes.html
// https://www.pastraiser.com/cpu/gameboy/gameboy_opcodes.html
// used for CB decoding, some bit functions reference (HL) instead of a register
pub const ADR_HL: usize = 6;

pub const R_ID: [usize; 8] = [REG_B, REG_C, REG_D, REG_E, REG_H, REG_L, ADR_HL, REG_A];

pub const INVALID: &'static str = "INVALID";

pub const CBPREFIX: &'static str = "(CB PREFIX)";

// tables of names, indexed by digits of the opcode
pub const R: [&'static str; 8] = ["B", "C", "D", "E", "H", "L", "(HL)", "A"];

/// The operands.
pub open spec fn operand_name(i: int) -> Seq<char> {
    if i == 0 {
        "B"@
    } else if i == 1 {
        "C"@
    } else if i == 2 {
        "D"@
    } else if i == 3 {
        "E"@
    } else if i == 4 {
        "H"@
    } else if i == 5 {
        "L"@
    } else if i == 6 {
        "(HL)"@
    } else {
        "A"@
    }
}

/// The operands.
pub fn r_name(i: Byte) -> (r: &'static str)
    requires
        i < 8,
    ensures
        r@ == operand_name(i as int),
{
    R[i as usize]
}

/// The word registers.
pub open spec fn pair_name(i: int) -> Seq<char> {
    if i == 0 {
        "BC"@
    } else if i == 1 {
        "DE"@
    } else if i == 2 {
        "HL"@
    } else {
        "SP"@
    }
}

/// The word registers.
pub fn rp_name(i: Byte) -> (r: &'static str)
    requires
        i < 4,
    ensures
        r@ == pair_name(i as int),
{
    match i {
        0 => "BC",
        1 => "DE",
        2 => "HL",
        _ => "SP",
    }
}

/// The word registers that can be pushed and popped.
pub open spec fn stack_pair_name(i: int) -> Seq<char> {
    if i == 0 {
        "BC"@
    } else if i == 1 {
        "DE"@
    } else if i == 2 {
        "HL"@
    } else {
        "AF"@
    }
}

/// The word registers that can be pushed and popped.
pub fn rp2_name(i: Byte) -> (r: &'static str)
    requires
        i < 4,
    ensures
        r@ == stack_pair_name(i as int),
{
    match i {
        0 => "BC",
        1 => "DE",
        2 => "HL",
        _ => "AF",
    }
}

/// The conditions.
pub open spec fn condition_name(i: int) -> Seq<char> {
    if i == 0 {
        "NZ"@
    } else if i == 1 {
        "Z"@
    } else if i == 2 {
        "NC"@
    } else {
        "C"@
    }
}

/// The conditions.
pub fn cc_name(i: Byte) -> (r: &'static str)
    requires
        i < 4,
    ensures
        r@ == condition_name(i as int),
{
    match i {
        0 => "NZ",
        1 => "Z",
        2 => "NC",
        _ => "C",
    }
}

/// The operations on the accumulator.
pub open spec fn operation_name(i: int) -> Seq<char> {
    if i == 0 {
        "ADD A,"@
    } else if i == 1 {
        "ADC A,"@
    } else if i == 2 {
        "SUB"@
    } else if i == 3 {
        "SBC A,"@
    } else if i == 4 {
        "AND"@
    } else if i == 5 {
        "XOR"@
    } else if i == 6 {
        "OR"@
    } else {
        "CP"@
    }
}

/// The operations on the accumulator.
pub fn alu_name(i: Byte) -> (r: &'static str)
    requires
        i < 8,
    ensures
        r@ == operation_name(i as int),
{
    match i {
        0 => "ADD A,",
        1 => "ADC A,",
        2 => "SUB",
        3 => "SBC A,",
        4 => "AND",
        5 => "XOR",
        6 => "OR",
        _ => "CP",
    }
}

/// The rotations and shifts.
pub open spec fn rotation_name(i: int) -> Seq<char> {
    if i == 0 {
        "RLC"@
    } else if i == 1 {
        "RRC"@
    } else if i == 2 {
        "RL"@
    } else if i == 3 {
        "RR"@
    } else if i == 4 {
        "SLA"@
    } else if i == 5 {
        "SRA"@
    } else if i == 6 {
        "SWAP"@
    } else {
        "SRL"@
    }
}

/// The rotations and shifts.
pub fn rot_name(i: Byte) -> (r: &'static str)
    requires
        i < 8,
    ensures
        r@ == rotation_name(i as int),
{
    match i {
        0 => "RLC",
        1 => "RRC",
        2 => "RL",
        3 => "RR",
        4 => "SLA",
        5 => "SRA",
        6 => "SWAP",
        _ => "SRL",
    }
}

// Upon establishing the opcode, the Z80's path of action is generally dictated by these values:
/// The opcode's 1st octal digit (i.e. bits 7-6).
pub fn x(op: Byte) -> (r: Byte)
    ensures
        r == op as int / 64,
{
    proof {
        lemma_octal(op);
    }
    op >> 6
}

/// The opcode's 2nd octal digit (i.e. bits 5-3).
pub fn y(op: Byte) -> (r: Byte)
    ensures
        r == (op as int / 8) % 8,
{
    proof {
        lemma_octal(op);
    }
    op >> 3 & 0b111
}

/// The opcode's 3rd octal digit (i.e. bits 2-0).
pub fn z(op: Byte) -> (r: Byte)
    ensures
        r == op as int % 8,
{
    proof {
        lemma_octal(op);
    }
    op & 0b111
}

/// `y` rightshifted one position (i.e. bits 5-4).
pub fn p(op: Byte) -> (r: Byte)
    ensures
        r == ((op as int / 8) % 8) / 2,
{
    proof {
        lemma_octal(((op as int / 8) % 8) as u8);
    }
    y(op) >> 1
}

/// `y` modulo 2 (i.e. bit 3).
pub fn q(op: Byte) -> (r: Byte)
    ensures
        r == ((op as int / 8) % 8) % 2,
{
    proof {
        lemma_octal(((op as int / 8) % 8) as u8);
    }
    y(op) & 0b1
}

proof fn lemma_octal(v: u8)
    by (bit_vector)
    ensures
        v >> 6 == v / 64,
        v >> 3 & 7 == (v / 8) % 8,
        v & 7 == v % 8,
        v >> 1 == v / 2,
        v & 1 == v % 2,
{
}

/// A mnemonic and the number of bytes to read.
pub open spec fn inst(mnm: Seq<char>, len: int) -> (Seq<char>, int) {
    (mnm, len)
}

/// What stands for an opcode without an instruction.
pub open spec fn invalid() -> (Seq<char>, int) {
    inst(INVALID@, 0)
}

/// Opcodes 00 to 3F.
pub open spec fn decoded0(y: int, z: int) -> (Seq<char>, int) {
    let (p, q) = (y / 2, y % 2);
    if z == 0 {
        if y == 0 {
            inst("NOP"@, 1)
        } else if y == 1 {
            inst("LD (nn), SP"@, 3)
        } else if y == 2 {
            inst("STOP"@, 1)
        } else if y == 3 {
            inst("JR n"@, 2)
        } else {
            inst("JR "@ + condition_name(y - 4) + ", n"@, 2)
        }
    } else if z == 1 {
        if q == 0 {
            inst("LD "@ + pair_name(p) + ", nn"@, 3)
        } else {
            inst("ADD HL, "@ + pair_name(p), 1)
        }
    } else if z == 2 {
        if q == 0 {
            inst(
                if p == 0 {
                    "LD (BC), A"@
                } else if p == 1 {
                    "LD (DE), A"@
                } else if p == 2 {
                    "LD (HL+), A"@
                } else {
                    "LD (HL-), A"@
                },
                1,
            )
        } else {
            inst(
                if p == 0 {
                    "LD A, (BC)"@
                } else if p == 1 {
                    "LD A, (DE)"@
                } else if p == 2 {
                    "LD A, (HL+)"@
                } else {
                    "LD A, (HL-)"@
                },
                1,
            )
        }
    } else if z == 3 {
        if q == 0 {
            inst("INC "@ + pair_name(p), 1)
        } else {
            inst("DEC, "@ + pair_name(p), 1)
        }
    } else if z == 4 {
        inst("INC "@ + operand_name(y), 1)
    } else if z == 5 {
        inst("DEC "@ + operand_name(y), 1)
    } else if z == 6 {
        inst("LD "@ + operand_name(y) + ", n"@, 2)
    } else {
        inst(
            if y == 0 {
                "RLCA"@
            } else if y == 1 {
                "RRCA"@
            } else if y == 2 {
                "RLA"@
            } else if y == 3 {
                "RRA"@
            } else if y == 4 {
                "DAA"@
            } else if y == 5 {
                "CPL"@
            } else if y == 6 {
                "SCF"@
            } else {
                "CCF"@
            },
            1,
        )
    }
}

/// Opcodes 40 to 7F. Loads from the byte that HL addresses are not decoded.
pub open spec fn decoded1(y: int, z: int) -> (Seq<char>, int) {
    if z != 6 {
        inst("LD "@ + operand_name(y) + ", "@ + operand_name(z), 1)
    } else if y == 6 {
        inst("HALT"@, 1)
    } else {
        invalid()
    }
}

/// Opcodes C0 to FF.
pub open spec fn decoded3(y: int, z: int) -> (Seq<char>, int) {
    let (p, q) = (y / 2, y % 2);
    if z == 0 {
        if y < 4 {
            inst("RET "@ + condition_name(y), 1)
        } else if y == 4 {
            inst("LD (0xFF00 + n), A"@, 2)
        } else if y == 5 {
            inst("ADD SP, n"@, 2)
        } else if y == 6 {
            inst("LD A, (0xFF00 + n)"@, 2)
        } else {
            inst("LD HL, SP + n"@, 2)
        }
    } else if z == 1 {
        if q == 0 {
            inst("POP "@ + stack_pair_name(p), 1)
        } else if p == 0 {
            inst("RET"@, 1)
        } else if p == 1 {
            inst("RETI"@, 1)
        } else if p == 2 {
            inst("JP HL"@, 1)
        } else {
            inst("LD SP, HL"@, 1)
        }
    } else if z == 2 {
        if y < 4 {
            inst("JP "@ + condition_name(y) + ", nn"@, 3)
        } else if y == 4 {
            inst("LD (0xFF00 + C), A"@, 1)
        } else if y == 5 {
            inst("LD (nn), A"@, 3)
        } else if y == 6 {
            inst("LD A, (0xFF00 + C)"@, 1)
        } else {
            inst("LD A, (nn)"@, 3)
        }
    } else if z == 3 {
        if y == 0 {
            inst("JP nn"@, 3)
        } else if y == 1 {
            inst(CBPREFIX@, 1)
        } else if y == 6 {
            inst("DI"@, 1)
        } else if y == 7 {
            inst("EI"@, 1)
        } else {
            invalid()
        }
    } else if z == 4 {
        if y < 4 {
            inst("CALL "@ + condition_name(y) + ", nn"@, 3)
        } else {
            invalid()
        }
    } else if z == 5 {
        if q == 0 {
            inst("PUSH "@ + stack_pair_name(p), 1)
        } else if p == 0 {
            inst("CALL nn"@, 3)
        } else {
            invalid()
        }
    } else if z == 6 {
        inst(operation_name(y) + " n"@, 2)
    } else {
        inst("RST "@ + text::hex2((8 * y) as u8, false) + "H"@, 1)
    }
}

/// The mnemonic of an opcode and the number of bytes to read.
pub open spec fn decoded(op: int) -> (Seq<char>, int) {
    let (x, y, z) = (op / 64, (op / 8) % 8, op % 8);
    if x == 0 {
        decoded0(y, z)
    } else if x == 1 {
        decoded1(y, z)
    } else if x == 2 {
        inst(operation_name(y) + " "@ + operand_name(z), 1)
    } else {
        decoded3(y, z)
    }
}

/// Only the prefix CB is decoded as the prefix: no other mnemonic begins with a bracket.
pub proof fn lemma_prefix(op: int)
    requires
        0 <= op < 256,
    ensures
        decoded(op).0 == CBPREFIX@ <==> op == 0xCB,
        0 <= decoded(op).1 <= 3,
        decoded(0xCB).1 == 1,
{
    reveal_strlit("NOP");
    reveal_strlit("LD (nn), SP");
    reveal_strlit("STOP");
    reveal_strlit("JR n");
    reveal_strlit("JR ");
    reveal_strlit("LD ");
    reveal_strlit("ADD HL, ");
    reveal_strlit("LD (BC), A");
    reveal_strlit("LD (DE), A");
    reveal_strlit("LD (HL+), A");
    reveal_strlit("LD (HL-), A");
    reveal_strlit("LD A, (BC)");
    reveal_strlit("LD A, (DE)");
    reveal_strlit("LD A, (HL+)");
    reveal_strlit("LD A, (HL-)");
    reveal_strlit("INC ");
    reveal_strlit("DEC, ");
    reveal_strlit("DEC ");
    reveal_strlit("RLCA");
    reveal_strlit("RRCA");
    reveal_strlit("RLA");
    reveal_strlit("RRA");
    reveal_strlit("DAA");
    reveal_strlit("CPL");
    reveal_strlit("SCF");
    reveal_strlit("CCF");
    reveal_strlit("HALT");
    reveal_strlit("RET ");
    reveal_strlit("LD (0xFF00 + n), A");
    reveal_strlit("ADD SP, n");
    reveal_strlit("LD A, (0xFF00 + n)");
    reveal_strlit("LD HL, SP + n");
    reveal_strlit("POP ");
    reveal_strlit("RET");
    reveal_strlit("RETI");
    reveal_strlit("JP HL");
    reveal_strlit("LD SP, HL");
    reveal_strlit("JP ");
    reveal_strlit("LD (0xFF00 + C), A");
    reveal_strlit("LD (nn), A");
    reveal_strlit("LD A, (0xFF00 + C)");
    reveal_strlit("LD A, (nn)");
    reveal_strlit("JP nn");
    reveal_strlit("DI");
    reveal_strlit("EI");
    reveal_strlit("CALL ");
    reveal_strlit("PUSH ");
    reveal_strlit("CALL nn");
    reveal_strlit("RST ");
    reveal_strlit("ADD A,");
    reveal_strlit("ADC A,");
    reveal_strlit("SUB");
    reveal_strlit("SBC A,");
    reveal_strlit("AND");
    reveal_strlit("XOR");
    reveal_strlit("OR");
    reveal_strlit("CP");
    reveal_strlit("INVALID");
    reveal_strlit("(CB PREFIX)");
    if op != 0xCB {
        assert(decoded(op).0[0] != '(');
    }
}

/// An instruction whose mnemonic is computed.
fn named(mnm: String, len: u8) -> (r: Instruction)
    ensures
        r.mnm@ == mnm@,
        r.len == len,
{
    Instruction { mnm, len }
}

fn decode0(op: Byte) -> (r: Instruction)
    requires
        op < 0x40,
    ensures
        (r.mnm@, r.len as int) == decoded0((op as int / 8) % 8, op as int % 8),
{
    match z(op) {
        0 => match y(op) {
            0 => Instruction::new("NOP", 1),
            1 => Instruction::new("LD (nn), SP", 3),
            2 => Instruction::new("STOP", 1),
            3 => Instruction::new("JR n", 2),
            v => named(join3("JR ", cc_name(v - 4), ", n"), 2),
        },
        1 => if q(op) == 0 {
            named(join3("LD ", rp_name(p(op)), ", nn"), 3)
        } else {
            named(join2("ADD HL, ", rp_name(p(op))), 1)
        },
        2 => if q(op) == 0 {
            match p(op) {
                0 => Instruction::new("LD (BC), A", 1),
                1 => Instruction::new("LD (DE), A", 1),
                2 => Instruction::new("LD (HL+), A", 1),
                _ => Instruction::new("LD (HL-), A", 1),
            }
        } else {
            match p(op) {
                0 => Instruction::new("LD A, (BC)", 1),
                1 => Instruction::new("LD A, (DE)", 1),
                2 => Instruction::new("LD A, (HL+)", 1),
                _ => Instruction::new("LD A, (HL-)", 1),
            }
        },
        3 => if q(op) == 0 {
            named(join2("INC ", rp_name(p(op))), 1)
        } else {
            named(join2("DEC, ", rp_name(p(op))), 1)
        },
        4 => named(join2("INC ", r_name(y(op))), 1),
        5 => named(join2("DEC ", r_name(y(op))), 1),
        6 => named(join3("LD ", r_name(y(op)), ", n"), 2),
        _ => match y(op) {
            0 => Instruction::new("RLCA", 1),
            1 => Instruction::new("RRCA", 1),
            2 => Instruction::new("RLA", 1),
            3 => Instruction::new("RRA", 1),
            4 => Instruction::new("DAA", 1),
            5 => Instruction::new("CPL", 1),
            6 => Instruction::new("SCF", 1),
            _ => Instruction::new("CCF", 1),
        },
    }
}

fn decode3(op: Byte) -> (r: Instruction)
    requires
        op >= 0xC0,
    ensures
        (r.mnm@, r.len as int) == decoded3((op as int / 8) % 8, op as int % 8),
{
    match z(op) {
        0 => match y(op) {
            4 => Instruction::new("LD (0xFF00 + n), A", 2),
            5 => Instruction::new("ADD SP, n", 2),
            6 => Instruction::new("LD A, (0xFF00 + n)", 2),
            7 => Instruction::new("LD HL, SP + n", 2),
            v => named(join2("RET ", cc_name(v)), 1),
        },
        1 => if q(op) == 0 {
            named(join2("POP ", rp2_name(p(op))), 1)
        } else {
            match p(op) {
                0 => Instruction::new("RET", 1),
                1 => Instruction::new("RETI", 1),
                2 => Instruction::new("JP HL", 1),
                _ => Instruction::new("LD SP, HL", 1),
            }
        },
        2 => match y(op) {
            4 => Instruction::new("LD (0xFF00 + C), A", 1),
            5 => Instruction::new("LD (nn), A", 3),
            6 => Instruction::new("LD A, (0xFF00 + C)", 1),
            7 => Instruction::new("LD A, (nn)", 3),
            v => named(join3("JP ", cc_name(v), ", nn"), 3),
        },
        3 => match y(op) {
            0 => Instruction::new("JP nn", 3),
            1 => Instruction::new(CBPREFIX, 1),
            6 => Instruction::new("DI", 1),
            7 => Instruction::new("EI", 1),
            _ => Instruction::new(INVALID, 0),
        },
        4 => if y(op) < 4 {
            named(join3("CALL ", cc_name(y(op)), ", nn"), 3)
        } else {
            Instruction::new(INVALID, 0)
        },
        5 => if q(op) == 0 {
            named(join2("PUSH ", rp2_name(p(op))), 1)
        } else if p(op) == 0 {
            Instruction::new("CALL nn", 3)
        } else {
            Instruction::new(INVALID, 0)
        },
        6 => named(join2(alu_name(y(op)), " n"), 2),
        _ => named(join3("RST ", hex2_text(y(op) * 8, false).as_str(), "H"), 1),
    }
}

/// Decodes an opcode.
pub fn decode(op: Byte) -> (r: Instruction)
    ensures
        (r.mnm@, r.len as int) == decoded(op as int),
{
    match x(op) {
        0 => decode0(op),
        1 => if z(op) != 6 {
            let mut mnm = join3("LD ", r_name(y(op)), ", ");
            mnm.append(r_name(z(op)));
            named(mnm, 1)
        } else if y(op) == 6 {
            Instruction::new("HALT", 1)
        } else {
            Instruction::new(INVALID, 0)
        },
        2 => named(join3(alu_name(y(op)), " ", r_name(z(op))), 1),
        _ => decode3(op),
    }
}

/// The name of an instruction behind the prefix CB.
pub open spec fn decoded_cb(op: int) -> Seq<char> {
    let (x, y) = (op / 64, (op / 8) % 8);
    if x == 0 {
        rotation_name(y)
    } else if x == 1 {
        "BIT"@
    } else if x == 2 {
        "RES"@
    } else {
        "SET"@
    }
}

/// Decodes an opcode behind the prefix CB.
pub fn decodeCB(op: Byte) -> (r: InstructionCB)
    ensures
        r.opcode@ == decoded_cb(op as int),
        r.bit == if op < 0x40 {
            0xFF
        } else {
            (op as int / 8) % 8
        },
        r.reg == op as int % 8,
{
    let reg: usize = R_ID[z(op) as usize];
    assert(reg == op as int % 8);
    match x(op) {
        0 => InstructionCB { opcode: rot_name(y(op)), bit: 0xFF, reg },
        1 => InstructionCB { opcode: "BIT", bit: y(op), reg },
        2 => InstructionCB { opcode: "RES", bit: y(op), reg },
        _ => InstructionCB { opcode: "SET", bit: y(op), reg },
    }
}

} // verus!
