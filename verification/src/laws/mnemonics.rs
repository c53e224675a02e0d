//! The mnemonic of every opcode, written out.
use vstd::prelude::*;

use crate::decode;
use crate::listing;

verus! {

/// Opcodes 00 to 0F.
pub proof fn law_mnemonics_0()
    ensures
        decode::decoded(0x00) == ("NOP"@, 1int),
        decode::decoded(0x01) == ("LD BC, nn"@, 3int),
        decode::decoded(0x02) == ("LD (BC), A"@, 1int),
        decode::decoded(0x03) == ("INC BC"@, 1int),
        decode::decoded(0x04) == ("INC B"@, 1int),
        decode::decoded(0x05) == ("DEC B"@, 1int),
        decode::decoded(0x06) == ("LD B, n"@, 2int),
        decode::decoded(0x07) == ("RLCA"@, 1int),
        decode::decoded(0x08) == ("LD (nn), SP"@, 3int),
        decode::decoded(0x09) == ("ADD HL, BC"@, 1int),
        decode::decoded(0x0A) == ("LD A, (BC)"@, 1int),
        decode::decoded(0x0B) == ("DEC, BC"@, 1int),
        decode::decoded(0x0C) == ("INC C"@, 1int),
        decode::decoded(0x0D) == ("DEC C"@, 1int),
        decode::decoded(0x0E) == ("LD C, n"@, 2int),
        decode::decoded(0x0F) == ("RRCA"@, 1int),
{
    reveal_strlit("LD ");
    reveal_strlit("BC");
    reveal_strlit(", nn");
    reveal_strlit("LD BC, nn");
    reveal_strlit("INC ");
    reveal_strlit("INC BC");
    reveal_strlit("B");
    reveal_strlit("INC B");
    reveal_strlit("DEC ");
    reveal_strlit("DEC B");
    reveal_strlit(", n");
    reveal_strlit("LD B, n");
    reveal_strlit("ADD HL, ");
    reveal_strlit("ADD HL, BC");
    reveal_strlit("DEC, ");
    reveal_strlit("DEC, BC");
    reveal_strlit("C");
    reveal_strlit("INC C");
    reveal_strlit("DEC C");
    reveal_strlit("LD C, n");
    assert("LD BC, nn"@ =~= decode::decoded(0x01).0);
    assert("INC BC"@ =~= decode::decoded(0x03).0);
    assert("INC B"@ =~= decode::decoded(0x04).0);
    assert("DEC B"@ =~= decode::decoded(0x05).0);
    assert("LD B, n"@ =~= decode::decoded(0x06).0);
    assert("ADD HL, BC"@ =~= decode::decoded(0x09).0);
    assert("DEC, BC"@ =~= decode::decoded(0x0B).0);
    assert("INC C"@ =~= decode::decoded(0x0C).0);
    assert("DEC C"@ =~= decode::decoded(0x0D).0);
    assert("LD C, n"@ =~= decode::decoded(0x0E).0);
}

/// Opcodes 10 to 1F.
pub proof fn law_mnemonics_1()
    ensures
        decode::decoded(0x10) == ("STOP"@, 1int),
        decode::decoded(0x11) == ("LD DE, nn"@, 3int),
        decode::decoded(0x12) == ("LD (DE), A"@, 1int),
        decode::decoded(0x13) == ("INC DE"@, 1int),
        decode::decoded(0x14) == ("INC D"@, 1int),
        decode::decoded(0x15) == ("DEC D"@, 1int),
        decode::decoded(0x16) == ("LD D, n"@, 2int),
        decode::decoded(0x17) == ("RLA"@, 1int),
        decode::decoded(0x18) == ("JR n"@, 2int),
        decode::decoded(0x19) == ("ADD HL, DE"@, 1int),
        decode::decoded(0x1A) == ("LD A, (DE)"@, 1int),
        decode::decoded(0x1B) == ("DEC, DE"@, 1int),
        decode::decoded(0x1C) == ("INC E"@, 1int),
        decode::decoded(0x1D) == ("DEC E"@, 1int),
        decode::decoded(0x1E) == ("LD E, n"@, 2int),
        decode::decoded(0x1F) == ("RRA"@, 1int),
{
    reveal_strlit("LD ");
    reveal_strlit("DE");
    reveal_strlit(", nn");
    reveal_strlit("LD DE, nn");
    reveal_strlit("INC ");
    reveal_strlit("INC DE");
    reveal_strlit("D");
    reveal_strlit("INC D");
    reveal_strlit("DEC ");
    reveal_strlit("DEC D");
    reveal_strlit(", n");
    reveal_strlit("LD D, n");
    reveal_strlit("ADD HL, ");
    reveal_strlit("ADD HL, DE");
    reveal_strlit("DEC, ");
    reveal_strlit("DEC, DE");
    reveal_strlit("E");
    reveal_strlit("INC E");
    reveal_strlit("DEC E");
    reveal_strlit("LD E, n");
    assert("LD DE, nn"@ =~= decode::decoded(0x11).0);
    assert("INC DE"@ =~= decode::decoded(0x13).0);
    assert("INC D"@ =~= decode::decoded(0x14).0);
    assert("DEC D"@ =~= decode::decoded(0x15).0);
    assert("LD D, n"@ =~= decode::decoded(0x16).0);
    assert("ADD HL, DE"@ =~= decode::decoded(0x19).0);
    assert("DEC, DE"@ =~= decode::decoded(0x1B).0);
    assert("INC E"@ =~= decode::decoded(0x1C).0);
    assert("DEC E"@ =~= decode::decoded(0x1D).0);
    assert("LD E, n"@ =~= decode::decoded(0x1E).0);
}

/// Opcodes 20 to 2F.
pub proof fn law_mnemonics_2()
    ensures
        decode::decoded(0x20) == ("JR NZ, n"@, 2int),
        decode::decoded(0x21) == ("LD HL, nn"@, 3int),
        decode::decoded(0x22) == ("LD (HL+), A"@, 1int),
        decode::decoded(0x23) == ("INC HL"@, 1int),
        decode::decoded(0x24) == ("INC H"@, 1int),
        decode::decoded(0x25) == ("DEC H"@, 1int),
        decode::decoded(0x26) == ("LD H, n"@, 2int),
        decode::decoded(0x27) == ("DAA"@, 1int),
        decode::decoded(0x28) == ("JR Z, n"@, 2int),
        decode::decoded(0x29) == ("ADD HL, HL"@, 1int),
        decode::decoded(0x2A) == ("LD A, (HL+)"@, 1int),
        decode::decoded(0x2B) == ("DEC, HL"@, 1int),
        decode::decoded(0x2C) == ("INC L"@, 1int),
        decode::decoded(0x2D) == ("DEC L"@, 1int),
        decode::decoded(0x2E) == ("LD L, n"@, 2int),
        decode::decoded(0x2F) == ("CPL"@, 1int),
{
    reveal_strlit("JR ");
    reveal_strlit("NZ");
    reveal_strlit(", n");
    reveal_strlit("JR NZ, n");
    reveal_strlit("LD ");
    reveal_strlit("HL");
    reveal_strlit(", nn");
    reveal_strlit("LD HL, nn");
    reveal_strlit("INC ");
    reveal_strlit("INC HL");
    reveal_strlit("H");
    reveal_strlit("INC H");
    reveal_strlit("DEC ");
    reveal_strlit("DEC H");
    reveal_strlit("LD H, n");
    reveal_strlit("Z");
    reveal_strlit("JR Z, n");
    reveal_strlit("ADD HL, ");
    reveal_strlit("ADD HL, HL");
    reveal_strlit("DEC, ");
    reveal_strlit("DEC, HL");
    reveal_strlit("L");
    reveal_strlit("INC L");
    reveal_strlit("DEC L");
    reveal_strlit("LD L, n");
    assert("JR NZ, n"@ =~= decode::decoded(0x20).0);
    assert("LD HL, nn"@ =~= decode::decoded(0x21).0);
    assert("INC HL"@ =~= decode::decoded(0x23).0);
    assert("INC H"@ =~= decode::decoded(0x24).0);
    assert("DEC H"@ =~= decode::decoded(0x25).0);
    assert("LD H, n"@ =~= decode::decoded(0x26).0);
    assert("JR Z, n"@ =~= decode::decoded(0x28).0);
    assert("ADD HL, HL"@ =~= decode::decoded(0x29).0);
    assert("DEC, HL"@ =~= decode::decoded(0x2B).0);
    assert("INC L"@ =~= decode::decoded(0x2C).0);
    assert("DEC L"@ =~= decode::decoded(0x2D).0);
    assert("LD L, n"@ =~= decode::decoded(0x2E).0);
}

/// Opcodes 30 to 3F.
pub proof fn law_mnemonics_3()
    ensures
        decode::decoded(0x30) == ("JR NC, n"@, 2int),
        decode::decoded(0x31) == ("LD SP, nn"@, 3int),
        decode::decoded(0x32) == ("LD (HL-), A"@, 1int),
        decode::decoded(0x33) == ("INC SP"@, 1int),
        decode::decoded(0x34) == ("INC (HL)"@, 1int),
        decode::decoded(0x35) == ("DEC (HL)"@, 1int),
        decode::decoded(0x36) == ("LD (HL), n"@, 2int),
        decode::decoded(0x37) == ("SCF"@, 1int),
        decode::decoded(0x38) == ("JR C, n"@, 2int),
        decode::decoded(0x39) == ("ADD HL, SP"@, 1int),
        decode::decoded(0x3A) == ("LD A, (HL-)"@, 1int),
        decode::decoded(0x3B) == ("DEC, SP"@, 1int),
        decode::decoded(0x3C) == ("INC A"@, 1int),
        decode::decoded(0x3D) == ("DEC A"@, 1int),
        decode::decoded(0x3E) == ("LD A, n"@, 2int),
        decode::decoded(0x3F) == ("CCF"@, 1int),
{
    reveal_strlit("JR ");
    reveal_strlit("NC");
    reveal_strlit(", n");
    reveal_strlit("JR NC, n");
    reveal_strlit("LD ");
    reveal_strlit("SP");
    reveal_strlit(", nn");
    reveal_strlit("LD SP, nn");
    reveal_strlit("INC ");
    reveal_strlit("INC SP");
    reveal_strlit("(HL)");
    reveal_strlit("INC (HL)");
    reveal_strlit("DEC ");
    reveal_strlit("DEC (HL)");
    reveal_strlit("LD (HL), n");
    reveal_strlit("C");
    reveal_strlit("JR C, n");
    reveal_strlit("ADD HL, ");
    reveal_strlit("ADD HL, SP");
    reveal_strlit("DEC, ");
    reveal_strlit("DEC, SP");
    reveal_strlit("A");
    reveal_strlit("INC A");
    reveal_strlit("DEC A");
    reveal_strlit("LD A, n");
    assert("JR NC, n"@ =~= decode::decoded(0x30).0);
    assert("LD SP, nn"@ =~= decode::decoded(0x31).0);
    assert("INC SP"@ =~= decode::decoded(0x33).0);
    assert("INC (HL)"@ =~= decode::decoded(0x34).0);
    assert("DEC (HL)"@ =~= decode::decoded(0x35).0);
    assert("LD (HL), n"@ =~= decode::decoded(0x36).0);
    assert("JR C, n"@ =~= decode::decoded(0x38).0);
    assert("ADD HL, SP"@ =~= decode::decoded(0x39).0);
    assert("DEC, SP"@ =~= decode::decoded(0x3B).0);
    assert("INC A"@ =~= decode::decoded(0x3C).0);
    assert("DEC A"@ =~= decode::decoded(0x3D).0);
    assert("LD A, n"@ =~= decode::decoded(0x3E).0);
}

/// Opcodes 40 to 4F.
pub proof fn law_mnemonics_4()
    ensures
        decode::decoded(0x40) == ("LD B, B"@, 1int),
        decode::decoded(0x41) == ("LD B, C"@, 1int),
        decode::decoded(0x42) == ("LD B, D"@, 1int),
        decode::decoded(0x43) == ("LD B, E"@, 1int),
        decode::decoded(0x44) == ("LD B, H"@, 1int),
        decode::decoded(0x45) == ("LD B, L"@, 1int),
        decode::decoded(0x46) == ("INVALID"@, 0int),
        decode::decoded(0x47) == ("LD B, A"@, 1int),
        decode::decoded(0x48) == ("LD C, B"@, 1int),
        decode::decoded(0x49) == ("LD C, C"@, 1int),
        decode::decoded(0x4A) == ("LD C, D"@, 1int),
        decode::decoded(0x4B) == ("LD C, E"@, 1int),
        decode::decoded(0x4C) == ("LD C, H"@, 1int),
        decode::decoded(0x4D) == ("LD C, L"@, 1int),
        decode::decoded(0x4E) == ("INVALID"@, 0int),
        decode::decoded(0x4F) == ("LD C, A"@, 1int),
{
    reveal_strlit("LD ");
    reveal_strlit("B");
    reveal_strlit(", ");
    reveal_strlit("LD B, B");
    reveal_strlit("C");
    reveal_strlit("LD B, C");
    reveal_strlit("D");
    reveal_strlit("LD B, D");
    reveal_strlit("E");
    reveal_strlit("LD B, E");
    reveal_strlit("H");
    reveal_strlit("LD B, H");
    reveal_strlit("L");
    reveal_strlit("LD B, L");
    reveal_strlit("A");
    reveal_strlit("LD B, A");
    reveal_strlit("LD C, B");
    reveal_strlit("LD C, C");
    reveal_strlit("LD C, D");
    reveal_strlit("LD C, E");
    reveal_strlit("LD C, H");
    reveal_strlit("LD C, L");
    reveal_strlit("LD C, A");
    assert("LD B, B"@ =~= decode::decoded(0x40).0);
    assert("LD B, C"@ =~= decode::decoded(0x41).0);
    assert("LD B, D"@ =~= decode::decoded(0x42).0);
    assert("LD B, E"@ =~= decode::decoded(0x43).0);
    assert("LD B, H"@ =~= decode::decoded(0x44).0);
    assert("LD B, L"@ =~= decode::decoded(0x45).0);
    assert("LD B, A"@ =~= decode::decoded(0x47).0);
    assert("LD C, B"@ =~= decode::decoded(0x48).0);
    assert("LD C, C"@ =~= decode::decoded(0x49).0);
    assert("LD C, D"@ =~= decode::decoded(0x4A).0);
    assert("LD C, E"@ =~= decode::decoded(0x4B).0);
    assert("LD C, H"@ =~= decode::decoded(0x4C).0);
    assert("LD C, L"@ =~= decode::decoded(0x4D).0);
    assert("LD C, A"@ =~= decode::decoded(0x4F).0);
}

/// Opcodes 50 to 5F.
pub proof fn law_mnemonics_5()
    ensures
        decode::decoded(0x50) == ("LD D, B"@, 1int),
        decode::decoded(0x51) == ("LD D, C"@, 1int),
        decode::decoded(0x52) == ("LD D, D"@, 1int),
        decode::decoded(0x53) == ("LD D, E"@, 1int),
        decode::decoded(0x54) == ("LD D, H"@, 1int),
        decode::decoded(0x55) == ("LD D, L"@, 1int),
        decode::decoded(0x56) == ("INVALID"@, 0int),
        decode::decoded(0x57) == ("LD D, A"@, 1int),
        decode::decoded(0x58) == ("LD E, B"@, 1int),
        decode::decoded(0x59) == ("LD E, C"@, 1int),
        decode::decoded(0x5A) == ("LD E, D"@, 1int),
        decode::decoded(0x5B) == ("LD E, E"@, 1int),
        decode::decoded(0x5C) == ("LD E, H"@, 1int),
        decode::decoded(0x5D) == ("LD E, L"@, 1int),
        decode::decoded(0x5E) == ("INVALID"@, 0int),
        decode::decoded(0x5F) == ("LD E, A"@, 1int),
{
    reveal_strlit("LD ");
    reveal_strlit("D");
    reveal_strlit(", ");
    reveal_strlit("B");
    reveal_strlit("LD D, B");
    reveal_strlit("C");
    reveal_strlit("LD D, C");
    reveal_strlit("LD D, D");
    reveal_strlit("E");
    reveal_strlit("LD D, E");
    reveal_strlit("H");
    reveal_strlit("LD D, H");
    reveal_strlit("L");
    reveal_strlit("LD D, L");
    reveal_strlit("A");
    reveal_strlit("LD D, A");
    reveal_strlit("LD E, B");
    reveal_strlit("LD E, C");
    reveal_strlit("LD E, D");
    reveal_strlit("LD E, E");
    reveal_strlit("LD E, H");
    reveal_strlit("LD E, L");
    reveal_strlit("LD E, A");
    assert("LD D, B"@ =~= decode::decoded(0x50).0);
    assert("LD D, C"@ =~= decode::decoded(0x51).0);
    assert("LD D, D"@ =~= decode::decoded(0x52).0);
    assert("LD D, E"@ =~= decode::decoded(0x53).0);
    assert("LD D, H"@ =~= decode::decoded(0x54).0);
    assert("LD D, L"@ =~= decode::decoded(0x55).0);
    assert("LD D, A"@ =~= decode::decoded(0x57).0);
    assert("LD E, B"@ =~= decode::decoded(0x58).0);
    assert("LD E, C"@ =~= decode::decoded(0x59).0);
    assert("LD E, D"@ =~= decode::decoded(0x5A).0);
    assert("LD E, E"@ =~= decode::decoded(0x5B).0);
    assert("LD E, H"@ =~= decode::decoded(0x5C).0);
    assert("LD E, L"@ =~= decode::decoded(0x5D).0);
    assert("LD E, A"@ =~= decode::decoded(0x5F).0);
}

/// Opcodes 60 to 6F.
pub proof fn law_mnemonics_6()
    ensures
        decode::decoded(0x60) == ("LD H, B"@, 1int),
        decode::decoded(0x61) == ("LD H, C"@, 1int),
        decode::decoded(0x62) == ("LD H, D"@, 1int),
        decode::decoded(0x63) == ("LD H, E"@, 1int),
        decode::decoded(0x64) == ("LD H, H"@, 1int),
        decode::decoded(0x65) == ("LD H, L"@, 1int),
        decode::decoded(0x66) == ("INVALID"@, 0int),
        decode::decoded(0x67) == ("LD H, A"@, 1int),
        decode::decoded(0x68) == ("LD L, B"@, 1int),
        decode::decoded(0x69) == ("LD L, C"@, 1int),
        decode::decoded(0x6A) == ("LD L, D"@, 1int),
        decode::decoded(0x6B) == ("LD L, E"@, 1int),
        decode::decoded(0x6C) == ("LD L, H"@, 1int),
        decode::decoded(0x6D) == ("LD L, L"@, 1int),
        decode::decoded(0x6E) == ("INVALID"@, 0int),
        decode::decoded(0x6F) == ("LD L, A"@, 1int),
{
    reveal_strlit("LD ");
    reveal_strlit("H");
    reveal_strlit(", ");
    reveal_strlit("B");
    reveal_strlit("LD H, B");
    reveal_strlit("C");
    reveal_strlit("LD H, C");
    reveal_strlit("D");
    reveal_strlit("LD H, D");
    reveal_strlit("E");
    reveal_strlit("LD H, E");
    reveal_strlit("LD H, H");
    reveal_strlit("L");
    reveal_strlit("LD H, L");
    reveal_strlit("A");
    reveal_strlit("LD H, A");
    reveal_strlit("LD L, B");
    reveal_strlit("LD L, C");
    reveal_strlit("LD L, D");
    reveal_strlit("LD L, E");
    reveal_strlit("LD L, H");
    reveal_strlit("LD L, L");
    reveal_strlit("LD L, A");
    assert("LD H, B"@ =~= decode::decoded(0x60).0);
    assert("LD H, C"@ =~= decode::decoded(0x61).0);
    assert("LD H, D"@ =~= decode::decoded(0x62).0);
    assert("LD H, E"@ =~= decode::decoded(0x63).0);
    assert("LD H, H"@ =~= decode::decoded(0x64).0);
    assert("LD H, L"@ =~= decode::decoded(0x65).0);
    assert("LD H, A"@ =~= decode::decoded(0x67).0);
    assert("LD L, B"@ =~= decode::decoded(0x68).0);
    assert("LD L, C"@ =~= decode::decoded(0x69).0);
    assert("LD L, D"@ =~= decode::decoded(0x6A).0);
    assert("LD L, E"@ =~= decode::decoded(0x6B).0);
    assert("LD L, H"@ =~= decode::decoded(0x6C).0);
    assert("LD L, L"@ =~= decode::decoded(0x6D).0);
    assert("LD L, A"@ =~= decode::decoded(0x6F).0);
}

/// Opcodes 70 to 7F.
pub proof fn law_mnemonics_7()
    ensures
        decode::decoded(0x70) == ("LD (HL), B"@, 1int),
        decode::decoded(0x71) == ("LD (HL), C"@, 1int),
        decode::decoded(0x72) == ("LD (HL), D"@, 1int),
        decode::decoded(0x73) == ("LD (HL), E"@, 1int),
        decode::decoded(0x74) == ("LD (HL), H"@, 1int),
        decode::decoded(0x75) == ("LD (HL), L"@, 1int),
        decode::decoded(0x76) == ("HALT"@, 1int),
        decode::decoded(0x77) == ("LD (HL), A"@, 1int),
        decode::decoded(0x78) == ("LD A, B"@, 1int),
        decode::decoded(0x79) == ("LD A, C"@, 1int),
        decode::decoded(0x7A) == ("LD A, D"@, 1int),
        decode::decoded(0x7B) == ("LD A, E"@, 1int),
        decode::decoded(0x7C) == ("LD A, H"@, 1int),
        decode::decoded(0x7D) == ("LD A, L"@, 1int),
        decode::decoded(0x7E) == ("INVALID"@, 0int),
        decode::decoded(0x7F) == ("LD A, A"@, 1int),
{
    reveal_strlit("LD ");
    reveal_strlit("(HL)");
    reveal_strlit(", ");
    reveal_strlit("B");
    reveal_strlit("LD (HL), B");
    reveal_strlit("C");
    reveal_strlit("LD (HL), C");
    reveal_strlit("D");
    reveal_strlit("LD (HL), D");
    reveal_strlit("E");
    reveal_strlit("LD (HL), E");
    reveal_strlit("H");
    reveal_strlit("LD (HL), H");
    reveal_strlit("L");
    reveal_strlit("LD (HL), L");
    reveal_strlit("A");
    reveal_strlit("LD (HL), A");
    reveal_strlit("LD A, B");
    reveal_strlit("LD A, C");
    reveal_strlit("LD A, D");
    reveal_strlit("LD A, E");
    reveal_strlit("LD A, H");
    reveal_strlit("LD A, L");
    reveal_strlit("LD A, A");
    assert("LD (HL), B"@ =~= decode::decoded(0x70).0);
    assert("LD (HL), C"@ =~= decode::decoded(0x71).0);
    assert("LD (HL), D"@ =~= decode::decoded(0x72).0);
    assert("LD (HL), E"@ =~= decode::decoded(0x73).0);
    assert("LD (HL), H"@ =~= decode::decoded(0x74).0);
    assert("LD (HL), L"@ =~= decode::decoded(0x75).0);
    assert("LD (HL), A"@ =~= decode::decoded(0x77).0);
    assert("LD A, B"@ =~= decode::decoded(0x78).0);
    assert("LD A, C"@ =~= decode::decoded(0x79).0);
    assert("LD A, D"@ =~= decode::decoded(0x7A).0);
    assert("LD A, E"@ =~= decode::decoded(0x7B).0);
    assert("LD A, H"@ =~= decode::decoded(0x7C).0);
    assert("LD A, L"@ =~= decode::decoded(0x7D).0);
    assert("LD A, A"@ =~= decode::decoded(0x7F).0);
}

/// Opcodes 80 to 8F.
pub proof fn law_mnemonics_8()
    ensures
        decode::decoded(0x80) == ("ADD A, B"@, 1int),
        decode::decoded(0x81) == ("ADD A, C"@, 1int),
        decode::decoded(0x82) == ("ADD A, D"@, 1int),
        decode::decoded(0x83) == ("ADD A, E"@, 1int),
        decode::decoded(0x84) == ("ADD A, H"@, 1int),
        decode::decoded(0x85) == ("ADD A, L"@, 1int),
        decode::decoded(0x86) == ("ADD A, (HL)"@, 1int),
        decode::decoded(0x87) == ("ADD A, A"@, 1int),
        decode::decoded(0x88) == ("ADC A, B"@, 1int),
        decode::decoded(0x89) == ("ADC A, C"@, 1int),
        decode::decoded(0x8A) == ("ADC A, D"@, 1int),
        decode::decoded(0x8B) == ("ADC A, E"@, 1int),
        decode::decoded(0x8C) == ("ADC A, H"@, 1int),
        decode::decoded(0x8D) == ("ADC A, L"@, 1int),
        decode::decoded(0x8E) == ("ADC A, (HL)"@, 1int),
        decode::decoded(0x8F) == ("ADC A, A"@, 1int),
{
    reveal_strlit("ADD A,");
    reveal_strlit(" ");
    reveal_strlit("B");
    reveal_strlit("ADD A, B");
    reveal_strlit("C");
    reveal_strlit("ADD A, C");
    reveal_strlit("D");
    reveal_strlit("ADD A, D");
    reveal_strlit("E");
    reveal_strlit("ADD A, E");
    reveal_strlit("H");
    reveal_strlit("ADD A, H");
    reveal_strlit("L");
    reveal_strlit("ADD A, L");
    reveal_strlit("(HL)");
    reveal_strlit("ADD A, (HL)");
    reveal_strlit("A");
    reveal_strlit("ADD A, A");
    reveal_strlit("ADC A,");
    reveal_strlit("ADC A, B");
    reveal_strlit("ADC A, C");
    reveal_strlit("ADC A, D");
    reveal_strlit("ADC A, E");
    reveal_strlit("ADC A, H");
    reveal_strlit("ADC A, L");
    reveal_strlit("ADC A, (HL)");
    reveal_strlit("ADC A, A");
    assert("ADD A, B"@ =~= decode::decoded(0x80).0);
    assert("ADD A, C"@ =~= decode::decoded(0x81).0);
    assert("ADD A, D"@ =~= decode::decoded(0x82).0);
    assert("ADD A, E"@ =~= decode::decoded(0x83).0);
    assert("ADD A, H"@ =~= decode::decoded(0x84).0);
    assert("ADD A, L"@ =~= decode::decoded(0x85).0);
    assert("ADD A, (HL)"@ =~= decode::decoded(0x86).0);
    assert("ADD A, A"@ =~= decode::decoded(0x87).0);
    assert("ADC A, B"@ =~= decode::decoded(0x88).0);
    assert("ADC A, C"@ =~= decode::decoded(0x89).0);
    assert("ADC A, D"@ =~= decode::decoded(0x8A).0);
    assert("ADC A, E"@ =~= decode::decoded(0x8B).0);
    assert("ADC A, H"@ =~= decode::decoded(0x8C).0);
    assert("ADC A, L"@ =~= decode::decoded(0x8D).0);
    assert("ADC A, (HL)"@ =~= decode::decoded(0x8E).0);
    assert("ADC A, A"@ =~= decode::decoded(0x8F).0);
}

/// Opcodes 90 to 9F.
pub proof fn law_mnemonics_9()
    ensures
        decode::decoded(0x90) == ("SUB B"@, 1int),
        decode::decoded(0x91) == ("SUB C"@, 1int),
        decode::decoded(0x92) == ("SUB D"@, 1int),
        decode::decoded(0x93) == ("SUB E"@, 1int),
        decode::decoded(0x94) == ("SUB H"@, 1int),
        decode::decoded(0x95) == ("SUB L"@, 1int),
        decode::decoded(0x96) == ("SUB (HL)"@, 1int),
        decode::decoded(0x97) == ("SUB A"@, 1int),
        decode::decoded(0x98) == ("SBC A, B"@, 1int),
        decode::decoded(0x99) == ("SBC A, C"@, 1int),
        decode::decoded(0x9A) == ("SBC A, D"@, 1int),
        decode::decoded(0x9B) == ("SBC A, E"@, 1int),
        decode::decoded(0x9C) == ("SBC A, H"@, 1int),
        decode::decoded(0x9D) == ("SBC A, L"@, 1int),
        decode::decoded(0x9E) == ("SBC A, (HL)"@, 1int),
        decode::decoded(0x9F) == ("SBC A, A"@, 1int),
{
    reveal_strlit("SUB");
    reveal_strlit(" ");
    reveal_strlit("B");
    reveal_strlit("SUB B");
    reveal_strlit("C");
    reveal_strlit("SUB C");
    reveal_strlit("D");
    reveal_strlit("SUB D");
    reveal_strlit("E");
    reveal_strlit("SUB E");
    reveal_strlit("H");
    reveal_strlit("SUB H");
    reveal_strlit("L");
    reveal_strlit("SUB L");
    reveal_strlit("(HL)");
    reveal_strlit("SUB (HL)");
    reveal_strlit("A");
    reveal_strlit("SUB A");
    reveal_strlit("SBC A,");
    reveal_strlit("SBC A, B");
    reveal_strlit("SBC A, C");
    reveal_strlit("SBC A, D");
    reveal_strlit("SBC A, E");
    reveal_strlit("SBC A, H");
    reveal_strlit("SBC A, L");
    reveal_strlit("SBC A, (HL)");
    reveal_strlit("SBC A, A");
    assert("SUB B"@ =~= decode::decoded(0x90).0);
    assert("SUB C"@ =~= decode::decoded(0x91).0);
    assert("SUB D"@ =~= decode::decoded(0x92).0);
    assert("SUB E"@ =~= decode::decoded(0x93).0);
    assert("SUB H"@ =~= decode::decoded(0x94).0);
    assert("SUB L"@ =~= decode::decoded(0x95).0);
    assert("SUB (HL)"@ =~= decode::decoded(0x96).0);
    assert("SUB A"@ =~= decode::decoded(0x97).0);
    assert("SBC A, B"@ =~= decode::decoded(0x98).0);
    assert("SBC A, C"@ =~= decode::decoded(0x99).0);
    assert("SBC A, D"@ =~= decode::decoded(0x9A).0);
    assert("SBC A, E"@ =~= decode::decoded(0x9B).0);
    assert("SBC A, H"@ =~= decode::decoded(0x9C).0);
    assert("SBC A, L"@ =~= decode::decoded(0x9D).0);
    assert("SBC A, (HL)"@ =~= decode::decoded(0x9E).0);
    assert("SBC A, A"@ =~= decode::decoded(0x9F).0);
}

/// Opcodes A0 to AF.
pub proof fn law_mnemonics_a()
    ensures
        decode::decoded(0xA0) == ("AND B"@, 1int),
        decode::decoded(0xA1) == ("AND C"@, 1int),
        decode::decoded(0xA2) == ("AND D"@, 1int),
        decode::decoded(0xA3) == ("AND E"@, 1int),
        decode::decoded(0xA4) == ("AND H"@, 1int),
        decode::decoded(0xA5) == ("AND L"@, 1int),
        decode::decoded(0xA6) == ("AND (HL)"@, 1int),
        decode::decoded(0xA7) == ("AND A"@, 1int),
        decode::decoded(0xA8) == ("XOR B"@, 1int),
        decode::decoded(0xA9) == ("XOR C"@, 1int),
        decode::decoded(0xAA) == ("XOR D"@, 1int),
        decode::decoded(0xAB) == ("XOR E"@, 1int),
        decode::decoded(0xAC) == ("XOR H"@, 1int),
        decode::decoded(0xAD) == ("XOR L"@, 1int),
        decode::decoded(0xAE) == ("XOR (HL)"@, 1int),
        decode::decoded(0xAF) == ("XOR A"@, 1int),
{
    reveal_strlit("AND");
    reveal_strlit(" ");
    reveal_strlit("B");
    reveal_strlit("AND B");
    reveal_strlit("C");
    reveal_strlit("AND C");
    reveal_strlit("D");
    reveal_strlit("AND D");
    reveal_strlit("E");
    reveal_strlit("AND E");
    reveal_strlit("H");
    reveal_strlit("AND H");
    reveal_strlit("L");
    reveal_strlit("AND L");
    reveal_strlit("(HL)");
    reveal_strlit("AND (HL)");
    reveal_strlit("A");
    reveal_strlit("AND A");
    reveal_strlit("XOR");
    reveal_strlit("XOR B");
    reveal_strlit("XOR C");
    reveal_strlit("XOR D");
    reveal_strlit("XOR E");
    reveal_strlit("XOR H");
    reveal_strlit("XOR L");
    reveal_strlit("XOR (HL)");
    reveal_strlit("XOR A");
    assert("AND B"@ =~= decode::decoded(0xA0).0);
    assert("AND C"@ =~= decode::decoded(0xA1).0);
    assert("AND D"@ =~= decode::decoded(0xA2).0);
    assert("AND E"@ =~= decode::decoded(0xA3).0);
    assert("AND H"@ =~= decode::decoded(0xA4).0);
    assert("AND L"@ =~= decode::decoded(0xA5).0);
    assert("AND (HL)"@ =~= decode::decoded(0xA6).0);
    assert("AND A"@ =~= decode::decoded(0xA7).0);
    assert("XOR B"@ =~= decode::decoded(0xA8).0);
    assert("XOR C"@ =~= decode::decoded(0xA9).0);
    assert("XOR D"@ =~= decode::decoded(0xAA).0);
    assert("XOR E"@ =~= decode::decoded(0xAB).0);
    assert("XOR H"@ =~= decode::decoded(0xAC).0);
    assert("XOR L"@ =~= decode::decoded(0xAD).0);
    assert("XOR (HL)"@ =~= decode::decoded(0xAE).0);
    assert("XOR A"@ =~= decode::decoded(0xAF).0);
}

/// Opcodes B0 to BF.
pub proof fn law_mnemonics_b()
    ensures
        decode::decoded(0xB0) == ("OR B"@, 1int),
        decode::decoded(0xB1) == ("OR C"@, 1int),
        decode::decoded(0xB2) == ("OR D"@, 1int),
        decode::decoded(0xB3) == ("OR E"@, 1int),
        decode::decoded(0xB4) == ("OR H"@, 1int),
        decode::decoded(0xB5) == ("OR L"@, 1int),
        decode::decoded(0xB6) == ("OR (HL)"@, 1int),
        decode::decoded(0xB7) == ("OR A"@, 1int),
        decode::decoded(0xB8) == ("CP B"@, 1int),
        decode::decoded(0xB9) == ("CP C"@, 1int),
        decode::decoded(0xBA) == ("CP D"@, 1int),
        decode::decoded(0xBB) == ("CP E"@, 1int),
        decode::decoded(0xBC) == ("CP H"@, 1int),
        decode::decoded(0xBD) == ("CP L"@, 1int),
        decode::decoded(0xBE) == ("CP (HL)"@, 1int),
        decode::decoded(0xBF) == ("CP A"@, 1int),
{
    reveal_strlit("OR");
    reveal_strlit(" ");
    reveal_strlit("B");
    reveal_strlit("OR B");
    reveal_strlit("C");
    reveal_strlit("OR C");
    reveal_strlit("D");
    reveal_strlit("OR D");
    reveal_strlit("E");
    reveal_strlit("OR E");
    reveal_strlit("H");
    reveal_strlit("OR H");
    reveal_strlit("L");
    reveal_strlit("OR L");
    reveal_strlit("(HL)");
    reveal_strlit("OR (HL)");
    reveal_strlit("A");
    reveal_strlit("OR A");
    reveal_strlit("CP");
    reveal_strlit("CP B");
    reveal_strlit("CP C");
    reveal_strlit("CP D");
    reveal_strlit("CP E");
    reveal_strlit("CP H");
    reveal_strlit("CP L");
    reveal_strlit("CP (HL)");
    reveal_strlit("CP A");
    assert("OR B"@ =~= decode::decoded(0xB0).0);
    assert("OR C"@ =~= decode::decoded(0xB1).0);
    assert("OR D"@ =~= decode::decoded(0xB2).0);
    assert("OR E"@ =~= decode::decoded(0xB3).0);
    assert("OR H"@ =~= decode::decoded(0xB4).0);
    assert("OR L"@ =~= decode::decoded(0xB5).0);
    assert("OR (HL)"@ =~= decode::decoded(0xB6).0);
    assert("OR A"@ =~= decode::decoded(0xB7).0);
    assert("CP B"@ =~= decode::decoded(0xB8).0);
    assert("CP C"@ =~= decode::decoded(0xB9).0);
    assert("CP D"@ =~= decode::decoded(0xBA).0);
    assert("CP E"@ =~= decode::decoded(0xBB).0);
    assert("CP H"@ =~= decode::decoded(0xBC).0);
    assert("CP L"@ =~= decode::decoded(0xBD).0);
    assert("CP (HL)"@ =~= decode::decoded(0xBE).0);
    assert("CP A"@ =~= decode::decoded(0xBF).0);
}

/// Opcodes C0 to CF.
pub proof fn law_mnemonics_c()
    ensures
        decode::decoded(0xC0) == ("RET NZ"@, 1int),
        decode::decoded(0xC1) == ("POP BC"@, 1int),
        decode::decoded(0xC2) == ("JP NZ, nn"@, 3int),
        decode::decoded(0xC3) == ("JP nn"@, 3int),
        decode::decoded(0xC4) == ("CALL NZ, nn"@, 3int),
        decode::decoded(0xC5) == ("PUSH BC"@, 1int),
        decode::decoded(0xC6) == ("ADD A, n"@, 2int),
        decode::decoded(0xC7) == ("RST 00H"@, 1int),
        decode::decoded(0xC8) == ("RET Z"@, 1int),
        decode::decoded(0xC9) == ("RET"@, 1int),
        decode::decoded(0xCA) == ("JP Z, nn"@, 3int),
        decode::decoded(0xCB) == ("(CB PREFIX)"@, 1int),
        decode::decoded(0xCC) == ("CALL Z, nn"@, 3int),
        decode::decoded(0xCD) == ("CALL nn"@, 3int),
        decode::decoded(0xCE) == ("ADC A, n"@, 2int),
        decode::decoded(0xCF) == ("RST 08H"@, 1int),
{
    reveal_strlit("RET ");
    reveal_strlit("NZ");
    reveal_strlit("RET NZ");
    reveal_strlit("POP ");
    reveal_strlit("BC");
    reveal_strlit("POP BC");
    reveal_strlit("JP ");
    reveal_strlit(", nn");
    reveal_strlit("JP NZ, nn");
    reveal_strlit("CALL ");
    reveal_strlit("CALL NZ, nn");
    reveal_strlit("PUSH ");
    reveal_strlit("PUSH BC");
    reveal_strlit("ADD A,");
    reveal_strlit(" n");
    reveal_strlit("ADD A, n");
    reveal_strlit("RST ");
    reveal_strlit("0");
    reveal_strlit("H");
    reveal_strlit("RST 00H");
    reveal_strlit("Z");
    reveal_strlit("RET Z");
    reveal_strlit("JP Z, nn");
    reveal_strlit("CALL Z, nn");
    reveal_strlit("ADC A,");
    reveal_strlit("ADC A, n");
    reveal_strlit("8");
    reveal_strlit("RST 08H");
    assert("RET NZ"@ =~= decode::decoded(0xC0).0);
    assert("POP BC"@ =~= decode::decoded(0xC1).0);
    assert("JP NZ, nn"@ =~= decode::decoded(0xC2).0);
    assert("CALL NZ, nn"@ =~= decode::decoded(0xC4).0);
    assert("PUSH BC"@ =~= decode::decoded(0xC5).0);
    assert("ADD A, n"@ =~= decode::decoded(0xC6).0);
    assert("RST 00H"@ =~= decode::decoded(0xC7).0);
    assert("RET Z"@ =~= decode::decoded(0xC8).0);
    assert("JP Z, nn"@ =~= decode::decoded(0xCA).0);
    assert("CALL Z, nn"@ =~= decode::decoded(0xCC).0);
    assert("ADC A, n"@ =~= decode::decoded(0xCE).0);
    assert("RST 08H"@ =~= decode::decoded(0xCF).0);
}

/// Opcodes D0 to DF.
pub proof fn law_mnemonics_d()
    ensures
        decode::decoded(0xD0) == ("RET NC"@, 1int),
        decode::decoded(0xD1) == ("POP DE"@, 1int),
        decode::decoded(0xD2) == ("JP NC, nn"@, 3int),
        decode::decoded(0xD3) == ("INVALID"@, 0int),
        decode::decoded(0xD4) == ("CALL NC, nn"@, 3int),
        decode::decoded(0xD5) == ("PUSH DE"@, 1int),
        decode::decoded(0xD6) == ("SUB n"@, 2int),
        decode::decoded(0xD7) == ("RST 10H"@, 1int),
        decode::decoded(0xD8) == ("RET C"@, 1int),
        decode::decoded(0xD9) == ("RETI"@, 1int),
        decode::decoded(0xDA) == ("JP C, nn"@, 3int),
        decode::decoded(0xDB) == ("INVALID"@, 0int),
        decode::decoded(0xDC) == ("CALL C, nn"@, 3int),
        decode::decoded(0xDD) == ("INVALID"@, 0int),
        decode::decoded(0xDE) == ("SBC A, n"@, 2int),
        decode::decoded(0xDF) == ("RST 18H"@, 1int),
{
    reveal_strlit("RET ");
    reveal_strlit("NC");
    reveal_strlit("RET NC");
    reveal_strlit("POP ");
    reveal_strlit("DE");
    reveal_strlit("POP DE");
    reveal_strlit("JP ");
    reveal_strlit(", nn");
    reveal_strlit("JP NC, nn");
    reveal_strlit("CALL ");
    reveal_strlit("CALL NC, nn");
    reveal_strlit("PUSH ");
    reveal_strlit("PUSH DE");
    reveal_strlit("SUB");
    reveal_strlit(" n");
    reveal_strlit("SUB n");
    reveal_strlit("RST ");
    reveal_strlit("1");
    reveal_strlit("0");
    reveal_strlit("H");
    reveal_strlit("RST 10H");
    reveal_strlit("C");
    reveal_strlit("RET C");
    reveal_strlit("JP C, nn");
    reveal_strlit("CALL C, nn");
    reveal_strlit("SBC A,");
    reveal_strlit("SBC A, n");
    reveal_strlit("8");
    reveal_strlit("RST 18H");
    assert("RET NC"@ =~= decode::decoded(0xD0).0);
    assert("POP DE"@ =~= decode::decoded(0xD1).0);
    assert("JP NC, nn"@ =~= decode::decoded(0xD2).0);
    assert("CALL NC, nn"@ =~= decode::decoded(0xD4).0);
    assert("PUSH DE"@ =~= decode::decoded(0xD5).0);
    assert("SUB n"@ =~= decode::decoded(0xD6).0);
    assert("RST 10H"@ =~= decode::decoded(0xD7).0);
    assert("RET C"@ =~= decode::decoded(0xD8).0);
    assert("JP C, nn"@ =~= decode::decoded(0xDA).0);
    assert("CALL C, nn"@ =~= decode::decoded(0xDC).0);
    assert("SBC A, n"@ =~= decode::decoded(0xDE).0);
    assert("RST 18H"@ =~= decode::decoded(0xDF).0);
}

/// Opcodes E0 to EF.
pub proof fn law_mnemonics_e()
    ensures
        decode::decoded(0xE0) == ("LD (0xFF00 + n), A"@, 2int),
        decode::decoded(0xE1) == ("POP HL"@, 1int),
        decode::decoded(0xE2) == ("LD (0xFF00 + C), A"@, 1int),
        decode::decoded(0xE3) == ("INVALID"@, 0int),
        decode::decoded(0xE4) == ("INVALID"@, 0int),
        decode::decoded(0xE5) == ("PUSH HL"@, 1int),
        decode::decoded(0xE6) == ("AND n"@, 2int),
        decode::decoded(0xE7) == ("RST 20H"@, 1int),
        decode::decoded(0xE8) == ("ADD SP, n"@, 2int),
        decode::decoded(0xE9) == ("JP HL"@, 1int),
        decode::decoded(0xEA) == ("LD (nn), A"@, 3int),
        decode::decoded(0xEB) == ("INVALID"@, 0int),
        decode::decoded(0xEC) == ("INVALID"@, 0int),
        decode::decoded(0xED) == ("INVALID"@, 0int),
        decode::decoded(0xEE) == ("XOR n"@, 2int),
        decode::decoded(0xEF) == ("RST 28H"@, 1int),
{
    reveal_strlit("POP ");
    reveal_strlit("HL");
    reveal_strlit("POP HL");
    reveal_strlit("PUSH ");
    reveal_strlit("PUSH HL");
    reveal_strlit("AND");
    reveal_strlit(" n");
    reveal_strlit("AND n");
    reveal_strlit("RST ");
    reveal_strlit("2");
    reveal_strlit("0");
    reveal_strlit("H");
    reveal_strlit("RST 20H");
    reveal_strlit("XOR");
    reveal_strlit("XOR n");
    reveal_strlit("8");
    reveal_strlit("RST 28H");
    assert("POP HL"@ =~= decode::decoded(0xE1).0);
    assert("PUSH HL"@ =~= decode::decoded(0xE5).0);
    assert("AND n"@ =~= decode::decoded(0xE6).0);
    assert("RST 20H"@ =~= decode::decoded(0xE7).0);
    assert("XOR n"@ =~= decode::decoded(0xEE).0);
    assert("RST 28H"@ =~= decode::decoded(0xEF).0);
}

/// Opcodes F0 to FF.
pub proof fn law_mnemonics_f()
    ensures
        decode::decoded(0xF0) == ("LD A, (0xFF00 + n)"@, 2int),
        decode::decoded(0xF1) == ("POP AF"@, 1int),
        decode::decoded(0xF2) == ("LD A, (0xFF00 + C)"@, 1int),
        decode::decoded(0xF3) == ("DI"@, 1int),
        decode::decoded(0xF4) == ("INVALID"@, 0int),
        decode::decoded(0xF5) == ("PUSH AF"@, 1int),
        decode::decoded(0xF6) == ("OR n"@, 2int),
        decode::decoded(0xF7) == ("RST 30H"@, 1int),
        decode::decoded(0xF8) == ("LD HL, SP + n"@, 2int),
        decode::decoded(0xF9) == ("LD SP, HL"@, 1int),
        decode::decoded(0xFA) == ("LD A, (nn)"@, 3int),
        decode::decoded(0xFB) == ("EI"@, 1int),
        decode::decoded(0xFC) == ("INVALID"@, 0int),
        decode::decoded(0xFD) == ("INVALID"@, 0int),
        decode::decoded(0xFE) == ("CP n"@, 2int),
        decode::decoded(0xFF) == ("RST 38H"@, 1int),
{
    reveal_strlit("POP ");
    reveal_strlit("AF");
    reveal_strlit("POP AF");
    reveal_strlit("PUSH ");
    reveal_strlit("PUSH AF");
    reveal_strlit("OR");
    reveal_strlit(" n");
    reveal_strlit("OR n");
    reveal_strlit("RST ");
    reveal_strlit("3");
    reveal_strlit("0");
    reveal_strlit("H");
    reveal_strlit("RST 30H");
    reveal_strlit("CP");
    reveal_strlit("CP n");
    reveal_strlit("8");
    reveal_strlit("RST 38H");
    assert("POP AF"@ =~= decode::decoded(0xF1).0);
    assert("PUSH AF"@ =~= decode::decoded(0xF5).0);
    assert("OR n"@ =~= decode::decoded(0xF6).0);
    assert("RST 30H"@ =~= decode::decoded(0xF7).0);
    assert("CP n"@ =~= decode::decoded(0xFE).0);
    assert("RST 38H"@ =~= decode::decoded(0xFF).0);
}

/// Opcodes 00 to 0F behind the prefix CB.
pub proof fn law_prefixed_mnemonics_0()
    ensures
        listing::cb_text(0x00) == "RLC, B"@,
        listing::cb_text(0x01) == "RLC, C"@,
        listing::cb_text(0x02) == "RLC, D"@,
        listing::cb_text(0x03) == "RLC, E"@,
        listing::cb_text(0x04) == "RLC, H"@,
        listing::cb_text(0x05) == "RLC, L"@,
        listing::cb_text(0x06) == "RLC, (HL)"@,
        listing::cb_text(0x07) == "RLC, A"@,
        listing::cb_text(0x08) == "RRC, B"@,
        listing::cb_text(0x09) == "RRC, C"@,
        listing::cb_text(0x0A) == "RRC, D"@,
        listing::cb_text(0x0B) == "RRC, E"@,
        listing::cb_text(0x0C) == "RRC, H"@,
        listing::cb_text(0x0D) == "RRC, L"@,
        listing::cb_text(0x0E) == "RRC, (HL)"@,
        listing::cb_text(0x0F) == "RRC, A"@,
{
    reveal_strlit("RLC");
    reveal_strlit(", ");
    reveal_strlit("B");
    reveal_strlit("RLC, B");
    reveal_strlit("C");
    reveal_strlit("RLC, C");
    reveal_strlit("D");
    reveal_strlit("RLC, D");
    reveal_strlit("E");
    reveal_strlit("RLC, E");
    reveal_strlit("H");
    reveal_strlit("RLC, H");
    reveal_strlit("L");
    reveal_strlit("RLC, L");
    reveal_strlit("(HL)");
    reveal_strlit("RLC, (HL)");
    reveal_strlit("A");
    reveal_strlit("RLC, A");
    reveal_strlit("RRC");
    reveal_strlit("RRC, B");
    reveal_strlit("RRC, C");
    reveal_strlit("RRC, D");
    reveal_strlit("RRC, E");
    reveal_strlit("RRC, H");
    reveal_strlit("RRC, L");
    reveal_strlit("RRC, (HL)");
    reveal_strlit("RRC, A");
    assert("RLC, B"@ =~= listing::cb_text(0x00));
    assert("RLC, C"@ =~= listing::cb_text(0x01));
    assert("RLC, D"@ =~= listing::cb_text(0x02));
    assert("RLC, E"@ =~= listing::cb_text(0x03));
    assert("RLC, H"@ =~= listing::cb_text(0x04));
    assert("RLC, L"@ =~= listing::cb_text(0x05));
    assert("RLC, (HL)"@ =~= listing::cb_text(0x06));
    assert("RLC, A"@ =~= listing::cb_text(0x07));
    assert("RRC, B"@ =~= listing::cb_text(0x08));
    assert("RRC, C"@ =~= listing::cb_text(0x09));
    assert("RRC, D"@ =~= listing::cb_text(0x0A));
    assert("RRC, E"@ =~= listing::cb_text(0x0B));
    assert("RRC, H"@ =~= listing::cb_text(0x0C));
    assert("RRC, L"@ =~= listing::cb_text(0x0D));
    assert("RRC, (HL)"@ =~= listing::cb_text(0x0E));
    assert("RRC, A"@ =~= listing::cb_text(0x0F));
}

/// Opcodes 10 to 1F behind the prefix CB.
pub proof fn law_prefixed_mnemonics_1()
    ensures
        listing::cb_text(0x10) == "RL, B"@,
        listing::cb_text(0x11) == "RL, C"@,
        listing::cb_text(0x12) == "RL, D"@,
        listing::cb_text(0x13) == "RL, E"@,
        listing::cb_text(0x14) == "RL, H"@,
        listing::cb_text(0x15) == "RL, L"@,
        listing::cb_text(0x16) == "RL, (HL)"@,
        listing::cb_text(0x17) == "RL, A"@,
        listing::cb_text(0x18) == "RR, B"@,
        listing::cb_text(0x19) == "RR, C"@,
        listing::cb_text(0x1A) == "RR, D"@,
        listing::cb_text(0x1B) == "RR, E"@,
        listing::cb_text(0x1C) == "RR, H"@,
        listing::cb_text(0x1D) == "RR, L"@,
        listing::cb_text(0x1E) == "RR, (HL)"@,
        listing::cb_text(0x1F) == "RR, A"@,
{
    reveal_strlit("RL");
    reveal_strlit(", ");
    reveal_strlit("B");
    reveal_strlit("RL, B");
    reveal_strlit("C");
    reveal_strlit("RL, C");
    reveal_strlit("D");
    reveal_strlit("RL, D");
    reveal_strlit("E");
    reveal_strlit("RL, E");
    reveal_strlit("H");
    reveal_strlit("RL, H");
    reveal_strlit("L");
    reveal_strlit("RL, L");
    reveal_strlit("(HL)");
    reveal_strlit("RL, (HL)");
    reveal_strlit("A");
    reveal_strlit("RL, A");
    reveal_strlit("RR");
    reveal_strlit("RR, B");
    reveal_strlit("RR, C");
    reveal_strlit("RR, D");
    reveal_strlit("RR, E");
    reveal_strlit("RR, H");
    reveal_strlit("RR, L");
    reveal_strlit("RR, (HL)");
    reveal_strlit("RR, A");
    assert("RL, B"@ =~= listing::cb_text(0x10));
    assert("RL, C"@ =~= listing::cb_text(0x11));
    assert("RL, D"@ =~= listing::cb_text(0x12));
    assert("RL, E"@ =~= listing::cb_text(0x13));
    assert("RL, H"@ =~= listing::cb_text(0x14));
    assert("RL, L"@ =~= listing::cb_text(0x15));
    assert("RL, (HL)"@ =~= listing::cb_text(0x16));
    assert("RL, A"@ =~= listing::cb_text(0x17));
    assert("RR, B"@ =~= listing::cb_text(0x18));
    assert("RR, C"@ =~= listing::cb_text(0x19));
    assert("RR, D"@ =~= listing::cb_text(0x1A));
    assert("RR, E"@ =~= listing::cb_text(0x1B));
    assert("RR, H"@ =~= listing::cb_text(0x1C));
    assert("RR, L"@ =~= listing::cb_text(0x1D));
    assert("RR, (HL)"@ =~= listing::cb_text(0x1E));
    assert("RR, A"@ =~= listing::cb_text(0x1F));
}

/// Opcodes 20 to 2F behind the prefix CB.
pub proof fn law_prefixed_mnemonics_2()
    ensures
        listing::cb_text(0x20) == "SLA, B"@,
        listing::cb_text(0x21) == "SLA, C"@,
        listing::cb_text(0x22) == "SLA, D"@,
        listing::cb_text(0x23) == "SLA, E"@,
        listing::cb_text(0x24) == "SLA, H"@,
        listing::cb_text(0x25) == "SLA, L"@,
        listing::cb_text(0x26) == "SLA, (HL)"@,
        listing::cb_text(0x27) == "SLA, A"@,
        listing::cb_text(0x28) == "SRA, B"@,
        listing::cb_text(0x29) == "SRA, C"@,
        listing::cb_text(0x2A) == "SRA, D"@,
        listing::cb_text(0x2B) == "SRA, E"@,
        listing::cb_text(0x2C) == "SRA, H"@,
        listing::cb_text(0x2D) == "SRA, L"@,
        listing::cb_text(0x2E) == "SRA, (HL)"@,
        listing::cb_text(0x2F) == "SRA, A"@,
{
    reveal_strlit("SLA");
    reveal_strlit(", ");
    reveal_strlit("B");
    reveal_strlit("SLA, B");
    reveal_strlit("C");
    reveal_strlit("SLA, C");
    reveal_strlit("D");
    reveal_strlit("SLA, D");
    reveal_strlit("E");
    reveal_strlit("SLA, E");
    reveal_strlit("H");
    reveal_strlit("SLA, H");
    reveal_strlit("L");
    reveal_strlit("SLA, L");
    reveal_strlit("(HL)");
    reveal_strlit("SLA, (HL)");
    reveal_strlit("A");
    reveal_strlit("SLA, A");
    reveal_strlit("SRA");
    reveal_strlit("SRA, B");
    reveal_strlit("SRA, C");
    reveal_strlit("SRA, D");
    reveal_strlit("SRA, E");
    reveal_strlit("SRA, H");
    reveal_strlit("SRA, L");
    reveal_strlit("SRA, (HL)");
    reveal_strlit("SRA, A");
    assert("SLA, B"@ =~= listing::cb_text(0x20));
    assert("SLA, C"@ =~= listing::cb_text(0x21));
    assert("SLA, D"@ =~= listing::cb_text(0x22));
    assert("SLA, E"@ =~= listing::cb_text(0x23));
    assert("SLA, H"@ =~= listing::cb_text(0x24));
    assert("SLA, L"@ =~= listing::cb_text(0x25));
    assert("SLA, (HL)"@ =~= listing::cb_text(0x26));
    assert("SLA, A"@ =~= listing::cb_text(0x27));
    assert("SRA, B"@ =~= listing::cb_text(0x28));
    assert("SRA, C"@ =~= listing::cb_text(0x29));
    assert("SRA, D"@ =~= listing::cb_text(0x2A));
    assert("SRA, E"@ =~= listing::cb_text(0x2B));
    assert("SRA, H"@ =~= listing::cb_text(0x2C));
    assert("SRA, L"@ =~= listing::cb_text(0x2D));
    assert("SRA, (HL)"@ =~= listing::cb_text(0x2E));
    assert("SRA, A"@ =~= listing::cb_text(0x2F));
}

/// Opcodes 30 to 3F behind the prefix CB.
pub proof fn law_prefixed_mnemonics_3()
    ensures
        listing::cb_text(0x30) == "SWAP, B"@,
        listing::cb_text(0x31) == "SWAP, C"@,
        listing::cb_text(0x32) == "SWAP, D"@,
        listing::cb_text(0x33) == "SWAP, E"@,
        listing::cb_text(0x34) == "SWAP, H"@,
        listing::cb_text(0x35) == "SWAP, L"@,
        listing::cb_text(0x36) == "SWAP, (HL)"@,
        listing::cb_text(0x37) == "SWAP, A"@,
        listing::cb_text(0x38) == "SRL, B"@,
        listing::cb_text(0x39) == "SRL, C"@,
        listing::cb_text(0x3A) == "SRL, D"@,
        listing::cb_text(0x3B) == "SRL, E"@,
        listing::cb_text(0x3C) == "SRL, H"@,
        listing::cb_text(0x3D) == "SRL, L"@,
        listing::cb_text(0x3E) == "SRL, (HL)"@,
        listing::cb_text(0x3F) == "SRL, A"@,
{
    reveal_strlit("SWAP");
    reveal_strlit(", ");
    reveal_strlit("B");
    reveal_strlit("SWAP, B");
    reveal_strlit("C");
    reveal_strlit("SWAP, C");
    reveal_strlit("D");
    reveal_strlit("SWAP, D");
    reveal_strlit("E");
    reveal_strlit("SWAP, E");
    reveal_strlit("H");
    reveal_strlit("SWAP, H");
    reveal_strlit("L");
    reveal_strlit("SWAP, L");
    reveal_strlit("(HL)");
    reveal_strlit("SWAP, (HL)");
    reveal_strlit("A");
    reveal_strlit("SWAP, A");
    reveal_strlit("SRL");
    reveal_strlit("SRL, B");
    reveal_strlit("SRL, C");
    reveal_strlit("SRL, D");
    reveal_strlit("SRL, E");
    reveal_strlit("SRL, H");
    reveal_strlit("SRL, L");
    reveal_strlit("SRL, (HL)");
    reveal_strlit("SRL, A");
    assert("SWAP, B"@ =~= listing::cb_text(0x30));
    assert("SWAP, C"@ =~= listing::cb_text(0x31));
    assert("SWAP, D"@ =~= listing::cb_text(0x32));
    assert("SWAP, E"@ =~= listing::cb_text(0x33));
    assert("SWAP, H"@ =~= listing::cb_text(0x34));
    assert("SWAP, L"@ =~= listing::cb_text(0x35));
    assert("SWAP, (HL)"@ =~= listing::cb_text(0x36));
    assert("SWAP, A"@ =~= listing::cb_text(0x37));
    assert("SRL, B"@ =~= listing::cb_text(0x38));
    assert("SRL, C"@ =~= listing::cb_text(0x39));
    assert("SRL, D"@ =~= listing::cb_text(0x3A));
    assert("SRL, E"@ =~= listing::cb_text(0x3B));
    assert("SRL, H"@ =~= listing::cb_text(0x3C));
    assert("SRL, L"@ =~= listing::cb_text(0x3D));
    assert("SRL, (HL)"@ =~= listing::cb_text(0x3E));
    assert("SRL, A"@ =~= listing::cb_text(0x3F));
}

/// Opcodes 40 to 4F behind the prefix CB.
pub proof fn law_prefixed_mnemonics_4()
    ensures
        listing::cb_text(0x40) == "BIT 0, B"@,
        listing::cb_text(0x41) == "BIT 0, C"@,
        listing::cb_text(0x42) == "BIT 0, D"@,
        listing::cb_text(0x43) == "BIT 0, E"@,
        listing::cb_text(0x44) == "BIT 0, H"@,
        listing::cb_text(0x45) == "BIT 0, L"@,
        listing::cb_text(0x46) == "BIT 0, (HL)"@,
        listing::cb_text(0x47) == "BIT 0, A"@,
        listing::cb_text(0x48) == "BIT 1, B"@,
        listing::cb_text(0x49) == "BIT 1, C"@,
        listing::cb_text(0x4A) == "BIT 1, D"@,
        listing::cb_text(0x4B) == "BIT 1, E"@,
        listing::cb_text(0x4C) == "BIT 1, H"@,
        listing::cb_text(0x4D) == "BIT 1, L"@,
        listing::cb_text(0x4E) == "BIT 1, (HL)"@,
        listing::cb_text(0x4F) == "BIT 1, A"@,
{
    reveal_strlit("BIT");
    reveal_strlit(" ");
    reveal_strlit("0");
    reveal_strlit(", ");
    reveal_strlit("B");
    reveal_strlit("BIT 0, B");
    reveal_strlit("C");
    reveal_strlit("BIT 0, C");
    reveal_strlit("D");
    reveal_strlit("BIT 0, D");
    reveal_strlit("E");
    reveal_strlit("BIT 0, E");
    reveal_strlit("H");
    reveal_strlit("BIT 0, H");
    reveal_strlit("L");
    reveal_strlit("BIT 0, L");
    reveal_strlit("(HL)");
    reveal_strlit("BIT 0, (HL)");
    reveal_strlit("A");
    reveal_strlit("BIT 0, A");
    reveal_strlit("1");
    reveal_strlit("BIT 1, B");
    reveal_strlit("BIT 1, C");
    reveal_strlit("BIT 1, D");
    reveal_strlit("BIT 1, E");
    reveal_strlit("BIT 1, H");
    reveal_strlit("BIT 1, L");
    reveal_strlit("BIT 1, (HL)");
    reveal_strlit("BIT 1, A");
    assert("BIT 0, B"@ =~= listing::cb_text(0x40));
    assert("BIT 0, C"@ =~= listing::cb_text(0x41));
    assert("BIT 0, D"@ =~= listing::cb_text(0x42));
    assert("BIT 0, E"@ =~= listing::cb_text(0x43));
    assert("BIT 0, H"@ =~= listing::cb_text(0x44));
    assert("BIT 0, L"@ =~= listing::cb_text(0x45));
    assert("BIT 0, (HL)"@ =~= listing::cb_text(0x46));
    assert("BIT 0, A"@ =~= listing::cb_text(0x47));
    assert("BIT 1, B"@ =~= listing::cb_text(0x48));
    assert("BIT 1, C"@ =~= listing::cb_text(0x49));
    assert("BIT 1, D"@ =~= listing::cb_text(0x4A));
    assert("BIT 1, E"@ =~= listing::cb_text(0x4B));
    assert("BIT 1, H"@ =~= listing::cb_text(0x4C));
    assert("BIT 1, L"@ =~= listing::cb_text(0x4D));
    assert("BIT 1, (HL)"@ =~= listing::cb_text(0x4E));
    assert("BIT 1, A"@ =~= listing::cb_text(0x4F));
}

/// Opcodes 50 to 5F behind the prefix CB.
pub proof fn law_prefixed_mnemonics_5()
    ensures
        listing::cb_text(0x50) == "BIT 2, B"@,
        listing::cb_text(0x51) == "BIT 2, C"@,
        listing::cb_text(0x52) == "BIT 2, D"@,
        listing::cb_text(0x53) == "BIT 2, E"@,
        listing::cb_text(0x54) == "BIT 2, H"@,
        listing::cb_text(0x55) == "BIT 2, L"@,
        listing::cb_text(0x56) == "BIT 2, (HL)"@,
        listing::cb_text(0x57) == "BIT 2, A"@,
        listing::cb_text(0x58) == "BIT 3, B"@,
        listing::cb_text(0x59) == "BIT 3, C"@,
        listing::cb_text(0x5A) == "BIT 3, D"@,
        listing::cb_text(0x5B) == "BIT 3, E"@,
        listing::cb_text(0x5C) == "BIT 3, H"@,
        listing::cb_text(0x5D) == "BIT 3, L"@,
        listing::cb_text(0x5E) == "BIT 3, (HL)"@,
        listing::cb_text(0x5F) == "BIT 3, A"@,
{
    reveal_strlit("BIT");
    reveal_strlit(" ");
    reveal_strlit("2");
    reveal_strlit(", ");
    reveal_strlit("B");
    reveal_strlit("BIT 2, B");
    reveal_strlit("C");
    reveal_strlit("BIT 2, C");
    reveal_strlit("D");
    reveal_strlit("BIT 2, D");
    reveal_strlit("E");
    reveal_strlit("BIT 2, E");
    reveal_strlit("H");
    reveal_strlit("BIT 2, H");
    reveal_strlit("L");
    reveal_strlit("BIT 2, L");
    reveal_strlit("(HL)");
    reveal_strlit("BIT 2, (HL)");
    reveal_strlit("A");
    reveal_strlit("BIT 2, A");
    reveal_strlit("3");
    reveal_strlit("BIT 3, B");
    reveal_strlit("BIT 3, C");
    reveal_strlit("BIT 3, D");
    reveal_strlit("BIT 3, E");
    reveal_strlit("BIT 3, H");
    reveal_strlit("BIT 3, L");
    reveal_strlit("BIT 3, (HL)");
    reveal_strlit("BIT 3, A");
    assert("BIT 2, B"@ =~= listing::cb_text(0x50));
    assert("BIT 2, C"@ =~= listing::cb_text(0x51));
    assert("BIT 2, D"@ =~= listing::cb_text(0x52));
    assert("BIT 2, E"@ =~= listing::cb_text(0x53));
    assert("BIT 2, H"@ =~= listing::cb_text(0x54));
    assert("BIT 2, L"@ =~= listing::cb_text(0x55));
    assert("BIT 2, (HL)"@ =~= listing::cb_text(0x56));
    assert("BIT 2, A"@ =~= listing::cb_text(0x57));
    assert("BIT 3, B"@ =~= listing::cb_text(0x58));
    assert("BIT 3, C"@ =~= listing::cb_text(0x59));
    assert("BIT 3, D"@ =~= listing::cb_text(0x5A));
    assert("BIT 3, E"@ =~= listing::cb_text(0x5B));
    assert("BIT 3, H"@ =~= listing::cb_text(0x5C));
    assert("BIT 3, L"@ =~= listing::cb_text(0x5D));
    assert("BIT 3, (HL)"@ =~= listing::cb_text(0x5E));
    assert("BIT 3, A"@ =~= listing::cb_text(0x5F));
}

/// Opcodes 60 to 6F behind the prefix CB.
pub proof fn law_prefixed_mnemonics_6()
    ensures
        listing::cb_text(0x60) == "BIT 4, B"@,
        listing::cb_text(0x61) == "BIT 4, C"@,
        listing::cb_text(0x62) == "BIT 4, D"@,
        listing::cb_text(0x63) == "BIT 4, E"@,
        listing::cb_text(0x64) == "BIT 4, H"@,
        listing::cb_text(0x65) == "BIT 4, L"@,
        listing::cb_text(0x66) == "BIT 4, (HL)"@,
        listing::cb_text(0x67) == "BIT 4, A"@,
        listing::cb_text(0x68) == "BIT 5, B"@,
        listing::cb_text(0x69) == "BIT 5, C"@,
        listing::cb_text(0x6A) == "BIT 5, D"@,
        listing::cb_text(0x6B) == "BIT 5, E"@,
        listing::cb_text(0x6C) == "BIT 5, H"@,
        listing::cb_text(0x6D) == "BIT 5, L"@,
        listing::cb_text(0x6E) == "BIT 5, (HL)"@,
        listing::cb_text(0x6F) == "BIT 5, A"@,
{
    reveal_strlit("BIT");
    reveal_strlit(" ");
    reveal_strlit("4");
    reveal_strlit(", ");
    reveal_strlit("B");
    reveal_strlit("BIT 4, B");
    reveal_strlit("C");
    reveal_strlit("BIT 4, C");
    reveal_strlit("D");
    reveal_strlit("BIT 4, D");
    reveal_strlit("E");
    reveal_strlit("BIT 4, E");
    reveal_strlit("H");
    reveal_strlit("BIT 4, H");
    reveal_strlit("L");
    reveal_strlit("BIT 4, L");
    reveal_strlit("(HL)");
    reveal_strlit("BIT 4, (HL)");
    reveal_strlit("A");
    reveal_strlit("BIT 4, A");
    reveal_strlit("5");
    reveal_strlit("BIT 5, B");
    reveal_strlit("BIT 5, C");
    reveal_strlit("BIT 5, D");
    reveal_strlit("BIT 5, E");
    reveal_strlit("BIT 5, H");
    reveal_strlit("BIT 5, L");
    reveal_strlit("BIT 5, (HL)");
    reveal_strlit("BIT 5, A");
    assert("BIT 4, B"@ =~= listing::cb_text(0x60));
    assert("BIT 4, C"@ =~= listing::cb_text(0x61));
    assert("BIT 4, D"@ =~= listing::cb_text(0x62));
    assert("BIT 4, E"@ =~= listing::cb_text(0x63));
    assert("BIT 4, H"@ =~= listing::cb_text(0x64));
    assert("BIT 4, L"@ =~= listing::cb_text(0x65));
    assert("BIT 4, (HL)"@ =~= listing::cb_text(0x66));
    assert("BIT 4, A"@ =~= listing::cb_text(0x67));
    assert("BIT 5, B"@ =~= listing::cb_text(0x68));
    assert("BIT 5, C"@ =~= listing::cb_text(0x69));
    assert("BIT 5, D"@ =~= listing::cb_text(0x6A));
    assert("BIT 5, E"@ =~= listing::cb_text(0x6B));
    assert("BIT 5, H"@ =~= listing::cb_text(0x6C));
    assert("BIT 5, L"@ =~= listing::cb_text(0x6D));
    assert("BIT 5, (HL)"@ =~= listing::cb_text(0x6E));
    assert("BIT 5, A"@ =~= listing::cb_text(0x6F));
}

/// Opcodes 70 to 7F behind the prefix CB.
pub proof fn law_prefixed_mnemonics_7()
    ensures
        listing::cb_text(0x70) == "BIT 6, B"@,
        listing::cb_text(0x71) == "BIT 6, C"@,
        listing::cb_text(0x72) == "BIT 6, D"@,
        listing::cb_text(0x73) == "BIT 6, E"@,
        listing::cb_text(0x74) == "BIT 6, H"@,
        listing::cb_text(0x75) == "BIT 6, L"@,
        listing::cb_text(0x76) == "BIT 6, (HL)"@,
        listing::cb_text(0x77) == "BIT 6, A"@,
        listing::cb_text(0x78) == "BIT 7, B"@,
        listing::cb_text(0x79) == "BIT 7, C"@,
        listing::cb_text(0x7A) == "BIT 7, D"@,
        listing::cb_text(0x7B) == "BIT 7, E"@,
        listing::cb_text(0x7C) == "BIT 7, H"@,
        listing::cb_text(0x7D) == "BIT 7, L"@,
        listing::cb_text(0x7E) == "BIT 7, (HL)"@,
        listing::cb_text(0x7F) == "BIT 7, A"@,
{
    reveal_strlit("BIT");
    reveal_strlit(" ");
    reveal_strlit("6");
    reveal_strlit(", ");
    reveal_strlit("B");
    reveal_strlit("BIT 6, B");
    reveal_strlit("C");
    reveal_strlit("BIT 6, C");
    reveal_strlit("D");
    reveal_strlit("BIT 6, D");
    reveal_strlit("E");
    reveal_strlit("BIT 6, E");
    reveal_strlit("H");
    reveal_strlit("BIT 6, H");
    reveal_strlit("L");
    reveal_strlit("BIT 6, L");
    reveal_strlit("(HL)");
    reveal_strlit("BIT 6, (HL)");
    reveal_strlit("A");
    reveal_strlit("BIT 6, A");
    reveal_strlit("7");
    reveal_strlit("BIT 7, B");
    reveal_strlit("BIT 7, C");
    reveal_strlit("BIT 7, D");
    reveal_strlit("BIT 7, E");
    reveal_strlit("BIT 7, H");
    reveal_strlit("BIT 7, L");
    reveal_strlit("BIT 7, (HL)");
    reveal_strlit("BIT 7, A");
    assert("BIT 6, B"@ =~= listing::cb_text(0x70));
    assert("BIT 6, C"@ =~= listing::cb_text(0x71));
    assert("BIT 6, D"@ =~= listing::cb_text(0x72));
    assert("BIT 6, E"@ =~= listing::cb_text(0x73));
    assert("BIT 6, H"@ =~= listing::cb_text(0x74));
    assert("BIT 6, L"@ =~= listing::cb_text(0x75));
    assert("BIT 6, (HL)"@ =~= listing::cb_text(0x76));
    assert("BIT 6, A"@ =~= listing::cb_text(0x77));
    assert("BIT 7, B"@ =~= listing::cb_text(0x78));
    assert("BIT 7, C"@ =~= listing::cb_text(0x79));
    assert("BIT 7, D"@ =~= listing::cb_text(0x7A));
    assert("BIT 7, E"@ =~= listing::cb_text(0x7B));
    assert("BIT 7, H"@ =~= listing::cb_text(0x7C));
    assert("BIT 7, L"@ =~= listing::cb_text(0x7D));
    assert("BIT 7, (HL)"@ =~= listing::cb_text(0x7E));
    assert("BIT 7, A"@ =~= listing::cb_text(0x7F));
}

/// Opcodes 80 to 8F behind the prefix CB.
pub proof fn law_prefixed_mnemonics_8()
    ensures
        listing::cb_text(0x80) == "RES 0, B"@,
        listing::cb_text(0x81) == "RES 0, C"@,
        listing::cb_text(0x82) == "RES 0, D"@,
        listing::cb_text(0x83) == "RES 0, E"@,
        listing::cb_text(0x84) == "RES 0, H"@,
        listing::cb_text(0x85) == "RES 0, L"@,
        listing::cb_text(0x86) == "RES 0, (HL)"@,
        listing::cb_text(0x87) == "RES 0, A"@,
        listing::cb_text(0x88) == "RES 1, B"@,
        listing::cb_text(0x89) == "RES 1, C"@,
        listing::cb_text(0x8A) == "RES 1, D"@,
        listing::cb_text(0x8B) == "RES 1, E"@,
        listing::cb_text(0x8C) == "RES 1, H"@,
        listing::cb_text(0x8D) == "RES 1, L"@,
        listing::cb_text(0x8E) == "RES 1, (HL)"@,
        listing::cb_text(0x8F) == "RES 1, A"@,
{
    reveal_strlit("RES");
    reveal_strlit(" ");
    reveal_strlit("0");
    reveal_strlit(", ");
    reveal_strlit("B");
    reveal_strlit("RES 0, B");
    reveal_strlit("C");
    reveal_strlit("RES 0, C");
    reveal_strlit("D");
    reveal_strlit("RES 0, D");
    reveal_strlit("E");
    reveal_strlit("RES 0, E");
    reveal_strlit("H");
    reveal_strlit("RES 0, H");
    reveal_strlit("L");
    reveal_strlit("RES 0, L");
    reveal_strlit("(HL)");
    reveal_strlit("RES 0, (HL)");
    reveal_strlit("A");
    reveal_strlit("RES 0, A");
    reveal_strlit("1");
    reveal_strlit("RES 1, B");
    reveal_strlit("RES 1, C");
    reveal_strlit("RES 1, D");
    reveal_strlit("RES 1, E");
    reveal_strlit("RES 1, H");
    reveal_strlit("RES 1, L");
    reveal_strlit("RES 1, (HL)");
    reveal_strlit("RES 1, A");
    assert("RES 0, B"@ =~= listing::cb_text(0x80));
    assert("RES 0, C"@ =~= listing::cb_text(0x81));
    assert("RES 0, D"@ =~= listing::cb_text(0x82));
    assert("RES 0, E"@ =~= listing::cb_text(0x83));
    assert("RES 0, H"@ =~= listing::cb_text(0x84));
    assert("RES 0, L"@ =~= listing::cb_text(0x85));
    assert("RES 0, (HL)"@ =~= listing::cb_text(0x86));
    assert("RES 0, A"@ =~= listing::cb_text(0x87));
    assert("RES 1, B"@ =~= listing::cb_text(0x88));
    assert("RES 1, C"@ =~= listing::cb_text(0x89));
    assert("RES 1, D"@ =~= listing::cb_text(0x8A));
    assert("RES 1, E"@ =~= listing::cb_text(0x8B));
    assert("RES 1, H"@ =~= listing::cb_text(0x8C));
    assert("RES 1, L"@ =~= listing::cb_text(0x8D));
    assert("RES 1, (HL)"@ =~= listing::cb_text(0x8E));
    assert("RES 1, A"@ =~= listing::cb_text(0x8F));
}

/// Opcodes 90 to 9F behind the prefix CB.
pub proof fn law_prefixed_mnemonics_9()
    ensures
        listing::cb_text(0x90) == "RES 2, B"@,
        listing::cb_text(0x91) == "RES 2, C"@,
        listing::cb_text(0x92) == "RES 2, D"@,
        listing::cb_text(0x93) == "RES 2, E"@,
        listing::cb_text(0x94) == "RES 2, H"@,
        listing::cb_text(0x95) == "RES 2, L"@,
        listing::cb_text(0x96) == "RES 2, (HL)"@,
        listing::cb_text(0x97) == "RES 2, A"@,
        listing::cb_text(0x98) == "RES 3, B"@,
        listing::cb_text(0x99) == "RES 3, C"@,
        listing::cb_text(0x9A) == "RES 3, D"@,
        listing::cb_text(0x9B) == "RES 3, E"@,
        listing::cb_text(0x9C) == "RES 3, H"@,
        listing::cb_text(0x9D) == "RES 3, L"@,
        listing::cb_text(0x9E) == "RES 3, (HL)"@,
        listing::cb_text(0x9F) == "RES 3, A"@,
{
    reveal_strlit("RES");
    reveal_strlit(" ");
    reveal_strlit("2");
    reveal_strlit(", ");
    reveal_strlit("B");
    reveal_strlit("RES 2, B");
    reveal_strlit("C");
    reveal_strlit("RES 2, C");
    reveal_strlit("D");
    reveal_strlit("RES 2, D");
    reveal_strlit("E");
    reveal_strlit("RES 2, E");
    reveal_strlit("H");
    reveal_strlit("RES 2, H");
    reveal_strlit("L");
    reveal_strlit("RES 2, L");
    reveal_strlit("(HL)");
    reveal_strlit("RES 2, (HL)");
    reveal_strlit("A");
    reveal_strlit("RES 2, A");
    reveal_strlit("3");
    reveal_strlit("RES 3, B");
    reveal_strlit("RES 3, C");
    reveal_strlit("RES 3, D");
    reveal_strlit("RES 3, E");
    reveal_strlit("RES 3, H");
    reveal_strlit("RES 3, L");
    reveal_strlit("RES 3, (HL)");
    reveal_strlit("RES 3, A");
    assert("RES 2, B"@ =~= listing::cb_text(0x90));
    assert("RES 2, C"@ =~= listing::cb_text(0x91));
    assert("RES 2, D"@ =~= listing::cb_text(0x92));
    assert("RES 2, E"@ =~= listing::cb_text(0x93));
    assert("RES 2, H"@ =~= listing::cb_text(0x94));
    assert("RES 2, L"@ =~= listing::cb_text(0x95));
    assert("RES 2, (HL)"@ =~= listing::cb_text(0x96));
    assert("RES 2, A"@ =~= listing::cb_text(0x97));
    assert("RES 3, B"@ =~= listing::cb_text(0x98));
    assert("RES 3, C"@ =~= listing::cb_text(0x99));
    assert("RES 3, D"@ =~= listing::cb_text(0x9A));
    assert("RES 3, E"@ =~= listing::cb_text(0x9B));
    assert("RES 3, H"@ =~= listing::cb_text(0x9C));
    assert("RES 3, L"@ =~= listing::cb_text(0x9D));
    assert("RES 3, (HL)"@ =~= listing::cb_text(0x9E));
    assert("RES 3, A"@ =~= listing::cb_text(0x9F));
}

/// Opcodes A0 to AF behind the prefix CB.
pub proof fn law_prefixed_mnemonics_a()
    ensures
        listing::cb_text(0xA0) == "RES 4, B"@,
        listing::cb_text(0xA1) == "RES 4, C"@,
        listing::cb_text(0xA2) == "RES 4, D"@,
        listing::cb_text(0xA3) == "RES 4, E"@,
        listing::cb_text(0xA4) == "RES 4, H"@,
        listing::cb_text(0xA5) == "RES 4, L"@,
        listing::cb_text(0xA6) == "RES 4, (HL)"@,
        listing::cb_text(0xA7) == "RES 4, A"@,
        listing::cb_text(0xA8) == "RES 5, B"@,
        listing::cb_text(0xA9) == "RES 5, C"@,
        listing::cb_text(0xAA) == "RES 5, D"@,
        listing::cb_text(0xAB) == "RES 5, E"@,
        listing::cb_text(0xAC) == "RES 5, H"@,
        listing::cb_text(0xAD) == "RES 5, L"@,
        listing::cb_text(0xAE) == "RES 5, (HL)"@,
        listing::cb_text(0xAF) == "RES 5, A"@,
{
    reveal_strlit("RES");
    reveal_strlit(" ");
    reveal_strlit("4");
    reveal_strlit(", ");
    reveal_strlit("B");
    reveal_strlit("RES 4, B");
    reveal_strlit("C");
    reveal_strlit("RES 4, C");
    reveal_strlit("D");
    reveal_strlit("RES 4, D");
    reveal_strlit("E");
    reveal_strlit("RES 4, E");
    reveal_strlit("H");
    reveal_strlit("RES 4, H");
    reveal_strlit("L");
    reveal_strlit("RES 4, L");
    reveal_strlit("(HL)");
    reveal_strlit("RES 4, (HL)");
    reveal_strlit("A");
    reveal_strlit("RES 4, A");
    reveal_strlit("5");
    reveal_strlit("RES 5, B");
    reveal_strlit("RES 5, C");
    reveal_strlit("RES 5, D");
    reveal_strlit("RES 5, E");
    reveal_strlit("RES 5, H");
    reveal_strlit("RES 5, L");
    reveal_strlit("RES 5, (HL)");
    reveal_strlit("RES 5, A");
    assert("RES 4, B"@ =~= listing::cb_text(0xA0));
    assert("RES 4, C"@ =~= listing::cb_text(0xA1));
    assert("RES 4, D"@ =~= listing::cb_text(0xA2));
    assert("RES 4, E"@ =~= listing::cb_text(0xA3));
    assert("RES 4, H"@ =~= listing::cb_text(0xA4));
    assert("RES 4, L"@ =~= listing::cb_text(0xA5));
    assert("RES 4, (HL)"@ =~= listing::cb_text(0xA6));
    assert("RES 4, A"@ =~= listing::cb_text(0xA7));
    assert("RES 5, B"@ =~= listing::cb_text(0xA8));
    assert("RES 5, C"@ =~= listing::cb_text(0xA9));
    assert("RES 5, D"@ =~= listing::cb_text(0xAA));
    assert("RES 5, E"@ =~= listing::cb_text(0xAB));
    assert("RES 5, H"@ =~= listing::cb_text(0xAC));
    assert("RES 5, L"@ =~= listing::cb_text(0xAD));
    assert("RES 5, (HL)"@ =~= listing::cb_text(0xAE));
    assert("RES 5, A"@ =~= listing::cb_text(0xAF));
}

/// Opcodes B0 to BF behind the prefix CB.
pub proof fn law_prefixed_mnemonics_b()
    ensures
        listing::cb_text(0xB0) == "RES 6, B"@,
        listing::cb_text(0xB1) == "RES 6, C"@,
        listing::cb_text(0xB2) == "RES 6, D"@,
        listing::cb_text(0xB3) == "RES 6, E"@,
        listing::cb_text(0xB4) == "RES 6, H"@,
        listing::cb_text(0xB5) == "RES 6, L"@,
        listing::cb_text(0xB6) == "RES 6, (HL)"@,
        listing::cb_text(0xB7) == "RES 6, A"@,
        listing::cb_text(0xB8) == "RES 7, B"@,
        listing::cb_text(0xB9) == "RES 7, C"@,
        listing::cb_text(0xBA) == "RES 7, D"@,
        listing::cb_text(0xBB) == "RES 7, E"@,
        listing::cb_text(0xBC) == "RES 7, H"@,
        listing::cb_text(0xBD) == "RES 7, L"@,
        listing::cb_text(0xBE) == "RES 7, (HL)"@,
        listing::cb_text(0xBF) == "RES 7, A"@,
{
    reveal_strlit("RES");
    reveal_strlit(" ");
    reveal_strlit("6");
    reveal_strlit(", ");
    reveal_strlit("B");
    reveal_strlit("RES 6, B");
    reveal_strlit("C");
    reveal_strlit("RES 6, C");
    reveal_strlit("D");
    reveal_strlit("RES 6, D");
    reveal_strlit("E");
    reveal_strlit("RES 6, E");
    reveal_strlit("H");
    reveal_strlit("RES 6, H");
    reveal_strlit("L");
    reveal_strlit("RES 6, L");
    reveal_strlit("(HL)");
    reveal_strlit("RES 6, (HL)");
    reveal_strlit("A");
    reveal_strlit("RES 6, A");
    reveal_strlit("7");
    reveal_strlit("RES 7, B");
    reveal_strlit("RES 7, C");
    reveal_strlit("RES 7, D");
    reveal_strlit("RES 7, E");
    reveal_strlit("RES 7, H");
    reveal_strlit("RES 7, L");
    reveal_strlit("RES 7, (HL)");
    reveal_strlit("RES 7, A");
    assert("RES 6, B"@ =~= listing::cb_text(0xB0));
    assert("RES 6, C"@ =~= listing::cb_text(0xB1));
    assert("RES 6, D"@ =~= listing::cb_text(0xB2));
    assert("RES 6, E"@ =~= listing::cb_text(0xB3));
    assert("RES 6, H"@ =~= listing::cb_text(0xB4));
    assert("RES 6, L"@ =~= listing::cb_text(0xB5));
    assert("RES 6, (HL)"@ =~= listing::cb_text(0xB6));
    assert("RES 6, A"@ =~= listing::cb_text(0xB7));
    assert("RES 7, B"@ =~= listing::cb_text(0xB8));
    assert("RES 7, C"@ =~= listing::cb_text(0xB9));
    assert("RES 7, D"@ =~= listing::cb_text(0xBA));
    assert("RES 7, E"@ =~= listing::cb_text(0xBB));
    assert("RES 7, H"@ =~= listing::cb_text(0xBC));
    assert("RES 7, L"@ =~= listing::cb_text(0xBD));
    assert("RES 7, (HL)"@ =~= listing::cb_text(0xBE));
    assert("RES 7, A"@ =~= listing::cb_text(0xBF));
}

/// Opcodes C0 to CF behind the prefix CB.
pub proof fn law_prefixed_mnemonics_c()
    ensures
        listing::cb_text(0xC0) == "SET 0, B"@,
        listing::cb_text(0xC1) == "SET 0, C"@,
        listing::cb_text(0xC2) == "SET 0, D"@,
        listing::cb_text(0xC3) == "SET 0, E"@,
        listing::cb_text(0xC4) == "SET 0, H"@,
        listing::cb_text(0xC5) == "SET 0, L"@,
        listing::cb_text(0xC6) == "SET 0, (HL)"@,
        listing::cb_text(0xC7) == "SET 0, A"@,
        listing::cb_text(0xC8) == "SET 1, B"@,
        listing::cb_text(0xC9) == "SET 1, C"@,
        listing::cb_text(0xCA) == "SET 1, D"@,
        listing::cb_text(0xCB) == "SET 1, E"@,
        listing::cb_text(0xCC) == "SET 1, H"@,
        listing::cb_text(0xCD) == "SET 1, L"@,
        listing::cb_text(0xCE) == "SET 1, (HL)"@,
        listing::cb_text(0xCF) == "SET 1, A"@,
{
    reveal_strlit("SET");
    reveal_strlit(" ");
    reveal_strlit("0");
    reveal_strlit(", ");
    reveal_strlit("B");
    reveal_strlit("SET 0, B");
    reveal_strlit("C");
    reveal_strlit("SET 0, C");
    reveal_strlit("D");
    reveal_strlit("SET 0, D");
    reveal_strlit("E");
    reveal_strlit("SET 0, E");
    reveal_strlit("H");
    reveal_strlit("SET 0, H");
    reveal_strlit("L");
    reveal_strlit("SET 0, L");
    reveal_strlit("(HL)");
    reveal_strlit("SET 0, (HL)");
    reveal_strlit("A");
    reveal_strlit("SET 0, A");
    reveal_strlit("1");
    reveal_strlit("SET 1, B");
    reveal_strlit("SET 1, C");
    reveal_strlit("SET 1, D");
    reveal_strlit("SET 1, E");
    reveal_strlit("SET 1, H");
    reveal_strlit("SET 1, L");
    reveal_strlit("SET 1, (HL)");
    reveal_strlit("SET 1, A");
    assert("SET 0, B"@ =~= listing::cb_text(0xC0));
    assert("SET 0, C"@ =~= listing::cb_text(0xC1));
    assert("SET 0, D"@ =~= listing::cb_text(0xC2));
    assert("SET 0, E"@ =~= listing::cb_text(0xC3));
    assert("SET 0, H"@ =~= listing::cb_text(0xC4));
    assert("SET 0, L"@ =~= listing::cb_text(0xC5));
    assert("SET 0, (HL)"@ =~= listing::cb_text(0xC6));
    assert("SET 0, A"@ =~= listing::cb_text(0xC7));
    assert("SET 1, B"@ =~= listing::cb_text(0xC8));
    assert("SET 1, C"@ =~= listing::cb_text(0xC9));
    assert("SET 1, D"@ =~= listing::cb_text(0xCA));
    assert("SET 1, E"@ =~= listing::cb_text(0xCB));
    assert("SET 1, H"@ =~= listing::cb_text(0xCC));
    assert("SET 1, L"@ =~= listing::cb_text(0xCD));
    assert("SET 1, (HL)"@ =~= listing::cb_text(0xCE));
    assert("SET 1, A"@ =~= listing::cb_text(0xCF));
}

/// Opcodes D0 to DF behind the prefix CB.
pub proof fn law_prefixed_mnemonics_d()
    ensures
        listing::cb_text(0xD0) == "SET 2, B"@,
        listing::cb_text(0xD1) == "SET 2, C"@,
        listing::cb_text(0xD2) == "SET 2, D"@,
        listing::cb_text(0xD3) == "SET 2, E"@,
        listing::cb_text(0xD4) == "SET 2, H"@,
        listing::cb_text(0xD5) == "SET 2, L"@,
        listing::cb_text(0xD6) == "SET 2, (HL)"@,
        listing::cb_text(0xD7) == "SET 2, A"@,
        listing::cb_text(0xD8) == "SET 3, B"@,
        listing::cb_text(0xD9) == "SET 3, C"@,
        listing::cb_text(0xDA) == "SET 3, D"@,
        listing::cb_text(0xDB) == "SET 3, E"@,
        listing::cb_text(0xDC) == "SET 3, H"@,
        listing::cb_text(0xDD) == "SET 3, L"@,
        listing::cb_text(0xDE) == "SET 3, (HL)"@,
        listing::cb_text(0xDF) == "SET 3, A"@,
{
    reveal_strlit("SET");
    reveal_strlit(" ");
    reveal_strlit("2");
    reveal_strlit(", ");
    reveal_strlit("B");
    reveal_strlit("SET 2, B");
    reveal_strlit("C");
    reveal_strlit("SET 2, C");
    reveal_strlit("D");
    reveal_strlit("SET 2, D");
    reveal_strlit("E");
    reveal_strlit("SET 2, E");
    reveal_strlit("H");
    reveal_strlit("SET 2, H");
    reveal_strlit("L");
    reveal_strlit("SET 2, L");
    reveal_strlit("(HL)");
    reveal_strlit("SET 2, (HL)");
    reveal_strlit("A");
    reveal_strlit("SET 2, A");
    reveal_strlit("3");
    reveal_strlit("SET 3, B");
    reveal_strlit("SET 3, C");
    reveal_strlit("SET 3, D");
    reveal_strlit("SET 3, E");
    reveal_strlit("SET 3, H");
    reveal_strlit("SET 3, L");
    reveal_strlit("SET 3, (HL)");
    reveal_strlit("SET 3, A");
    assert("SET 2, B"@ =~= listing::cb_text(0xD0));
    assert("SET 2, C"@ =~= listing::cb_text(0xD1));
    assert("SET 2, D"@ =~= listing::cb_text(0xD2));
    assert("SET 2, E"@ =~= listing::cb_text(0xD3));
    assert("SET 2, H"@ =~= listing::cb_text(0xD4));
    assert("SET 2, L"@ =~= listing::cb_text(0xD5));
    assert("SET 2, (HL)"@ =~= listing::cb_text(0xD6));
    assert("SET 2, A"@ =~= listing::cb_text(0xD7));
    assert("SET 3, B"@ =~= listing::cb_text(0xD8));
    assert("SET 3, C"@ =~= listing::cb_text(0xD9));
    assert("SET 3, D"@ =~= listing::cb_text(0xDA));
    assert("SET 3, E"@ =~= listing::cb_text(0xDB));
    assert("SET 3, H"@ =~= listing::cb_text(0xDC));
    assert("SET 3, L"@ =~= listing::cb_text(0xDD));
    assert("SET 3, (HL)"@ =~= listing::cb_text(0xDE));
    assert("SET 3, A"@ =~= listing::cb_text(0xDF));
}

/// Opcodes E0 to EF behind the prefix CB.
pub proof fn law_prefixed_mnemonics_e()
    ensures
        listing::cb_text(0xE0) == "SET 4, B"@,
        listing::cb_text(0xE1) == "SET 4, C"@,
        listing::cb_text(0xE2) == "SET 4, D"@,
        listing::cb_text(0xE3) == "SET 4, E"@,
        listing::cb_text(0xE4) == "SET 4, H"@,
        listing::cb_text(0xE5) == "SET 4, L"@,
        listing::cb_text(0xE6) == "SET 4, (HL)"@,
        listing::cb_text(0xE7) == "SET 4, A"@,
        listing::cb_text(0xE8) == "SET 5, B"@,
        listing::cb_text(0xE9) == "SET 5, C"@,
        listing::cb_text(0xEA) == "SET 5, D"@,
        listing::cb_text(0xEB) == "SET 5, E"@,
        listing::cb_text(0xEC) == "SET 5, H"@,
        listing::cb_text(0xED) == "SET 5, L"@,
        listing::cb_text(0xEE) == "SET 5, (HL)"@,
        listing::cb_text(0xEF) == "SET 5, A"@,
{
    reveal_strlit("SET");
    reveal_strlit(" ");
    reveal_strlit("4");
    reveal_strlit(", ");
    reveal_strlit("B");
    reveal_strlit("SET 4, B");
    reveal_strlit("C");
    reveal_strlit("SET 4, C");
    reveal_strlit("D");
    reveal_strlit("SET 4, D");
    reveal_strlit("E");
    reveal_strlit("SET 4, E");
    reveal_strlit("H");
    reveal_strlit("SET 4, H");
    reveal_strlit("L");
    reveal_strlit("SET 4, L");
    reveal_strlit("(HL)");
    reveal_strlit("SET 4, (HL)");
    reveal_strlit("A");
    reveal_strlit("SET 4, A");
    reveal_strlit("5");
    reveal_strlit("SET 5, B");
    reveal_strlit("SET 5, C");
    reveal_strlit("SET 5, D");
    reveal_strlit("SET 5, E");
    reveal_strlit("SET 5, H");
    reveal_strlit("SET 5, L");
    reveal_strlit("SET 5, (HL)");
    reveal_strlit("SET 5, A");
    assert("SET 4, B"@ =~= listing::cb_text(0xE0));
    assert("SET 4, C"@ =~= listing::cb_text(0xE1));
    assert("SET 4, D"@ =~= listing::cb_text(0xE2));
    assert("SET 4, E"@ =~= listing::cb_text(0xE3));
    assert("SET 4, H"@ =~= listing::cb_text(0xE4));
    assert("SET 4, L"@ =~= listing::cb_text(0xE5));
    assert("SET 4, (HL)"@ =~= listing::cb_text(0xE6));
    assert("SET 4, A"@ =~= listing::cb_text(0xE7));
    assert("SET 5, B"@ =~= listing::cb_text(0xE8));
    assert("SET 5, C"@ =~= listing::cb_text(0xE9));
    assert("SET 5, D"@ =~= listing::cb_text(0xEA));
    assert("SET 5, E"@ =~= listing::cb_text(0xEB));
    assert("SET 5, H"@ =~= listing::cb_text(0xEC));
    assert("SET 5, L"@ =~= listing::cb_text(0xED));
    assert("SET 5, (HL)"@ =~= listing::cb_text(0xEE));
    assert("SET 5, A"@ =~= listing::cb_text(0xEF));
}

/// Opcodes F0 to FF behind the prefix CB.
pub proof fn law_prefixed_mnemonics_f()
    ensures
        listing::cb_text(0xF0) == "SET 6, B"@,
        listing::cb_text(0xF1) == "SET 6, C"@,
        listing::cb_text(0xF2) == "SET 6, D"@,
        listing::cb_text(0xF3) == "SET 6, E"@,
        listing::cb_text(0xF4) == "SET 6, H"@,
        listing::cb_text(0xF5) == "SET 6, L"@,
        listing::cb_text(0xF6) == "SET 6, (HL)"@,
        listing::cb_text(0xF7) == "SET 6, A"@,
        listing::cb_text(0xF8) == "SET 7, B"@,
        listing::cb_text(0xF9) == "SET 7, C"@,
        listing::cb_text(0xFA) == "SET 7, D"@,
        listing::cb_text(0xFB) == "SET 7, E"@,
        listing::cb_text(0xFC) == "SET 7, H"@,
        listing::cb_text(0xFD) == "SET 7, L"@,
        listing::cb_text(0xFE) == "SET 7, (HL)"@,
        listing::cb_text(0xFF) == "SET 7, A"@,
{
    reveal_strlit("SET");
    reveal_strlit(" ");
    reveal_strlit("6");
    reveal_strlit(", ");
    reveal_strlit("B");
    reveal_strlit("SET 6, B");
    reveal_strlit("C");
    reveal_strlit("SET 6, C");
    reveal_strlit("D");
    reveal_strlit("SET 6, D");
    reveal_strlit("E");
    reveal_strlit("SET 6, E");
    reveal_strlit("H");
    reveal_strlit("SET 6, H");
    reveal_strlit("L");
    reveal_strlit("SET 6, L");
    reveal_strlit("(HL)");
    reveal_strlit("SET 6, (HL)");
    reveal_strlit("A");
    reveal_strlit("SET 6, A");
    reveal_strlit("7");
    reveal_strlit("SET 7, B");
    reveal_strlit("SET 7, C");
    reveal_strlit("SET 7, D");
    reveal_strlit("SET 7, E");
    reveal_strlit("SET 7, H");
    reveal_strlit("SET 7, L");
    reveal_strlit("SET 7, (HL)");
    reveal_strlit("SET 7, A");
    assert("SET 6, B"@ =~= listing::cb_text(0xF0));
    assert("SET 6, C"@ =~= listing::cb_text(0xF1));
    assert("SET 6, D"@ =~= listing::cb_text(0xF2));
    assert("SET 6, E"@ =~= listing::cb_text(0xF3));
    assert("SET 6, H"@ =~= listing::cb_text(0xF4));
    assert("SET 6, L"@ =~= listing::cb_text(0xF5));
    assert("SET 6, (HL)"@ =~= listing::cb_text(0xF6));
    assert("SET 6, A"@ =~= listing::cb_text(0xF7));
    assert("SET 7, B"@ =~= listing::cb_text(0xF8));
    assert("SET 7, C"@ =~= listing::cb_text(0xF9));
    assert("SET 7, D"@ =~= listing::cb_text(0xFA));
    assert("SET 7, E"@ =~= listing::cb_text(0xFB));
    assert("SET 7, H"@ =~= listing::cb_text(0xFC));
    assert("SET 7, L"@ =~= listing::cb_text(0xFD));
    assert("SET 7, (HL)"@ =~= listing::cb_text(0xFE));
    assert("SET 7, A"@ =~= listing::cb_text(0xFF));
}

} // verus!
