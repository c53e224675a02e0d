//! What the texts say: numbers read back, fields stand at their places, words are replaced.
use vstd::prelude::*;

use crate::cpu::CPUState;
use crate::dbg;
use crate::decode;
use crate::laws::raw;
use crate::listing;
use crate::text;
use crate::types;
use crate::types::InstructionCB;

verus! {

/// The number that a hexadecimal digit stands for, large or small.
pub open spec fn digit_value(c: char) -> int {
    if '0' <= c <= '9' {
        c as int - '0' as int
    } else if 'A' <= c <= 'F' {
        c as int - 'A' as int + 10
    } else {
        c as int - 'a' as int + 10
    }
}

/// The number that digits stand for.
pub open spec fn value(s: Seq<char>, base: int) -> int
    decreases s.len(),
{
    if s.len() == 0 {
        0
    } else {
        value(s.drop_last(), base) * base + digit_value(s.last())
    }
}

/// A digit reads back, and is large or small as asked.
pub proof fn law_digit(d: int, upper: bool)
    requires
        0 <= d < 16,
    ensures
        digit_value(text::hex_char(d, upper)) == d,
        d < 10 ==> '0' <= text::hex_char(d, upper) <= '9',
        d >= 10 && upper ==> 'A' <= text::hex_char(d, upper) <= 'F',
        d >= 10 && !upper ==> 'a' <= text::hex_char(d, upper) <= 'f',
{
}

/// A number reads back from its digits, which have no leading zero.
pub proof fn law_digits(n: nat, base: nat, upper: bool)
    requires
        2 <= base <= 16,
    ensures
        value(text::digits(n, base, upper), base as int) == n,
        text::digits(n, base, upper).len() >= 1,
        n > 0 ==> text::digits(n, base, upper)[0] != '0',
        forall|i: int|
            0 <= i < text::digits(n, base, upper).len() ==> 0 <= digit_value(
                #[trigger] text::digits(n, base, upper)[i],
            ) < base && (digit_value(text::digits(n, base, upper)[i]) >= 10 ==> (
            text::digits(n, base, upper)[i] <= 'F') == upper),
    decreases n,
{
    reveal_with_fuel(value, 2);
    let s = text::digits(n, base, upper);
    if n < base {
        law_digit(n as int, upper);
        assert(s.drop_last() =~= Seq::<char>::empty());
    } else {
        assert(n / base < n) by (nonlinear_arith)
            requires
                n >= base,
                base >= 2,
        ;
        assert(n / base >= 1) by (nonlinear_arith)
            requires
                n >= base,
                base >= 2,
        ;
        law_digits(n / base, base, upper);
        vstd::arithmetic::div_mod::lemma_fundamental_div_mod(n as int, base as int);
        vstd::arithmetic::div_mod::lemma_mod_bound(n as int, base as int);
        law_digit((n % base) as int, upper);
        let t = text::digits(n / base, base, upper);
        assert(s.drop_last() =~= t);
        assert((n / base) * base == base * (n / base)) by (nonlinear_arith);
    }
}

/// Two hexadecimal digits read back as the byte, and four as the word.
pub proof fn law_hexadecimal(b: u8, w: u16, upper: bool)
    ensures
        text::hex2(b, upper).len() == 2,
        value(text::hex2(b, upper), 16) == b,
        text::hex4(w, upper).len() == 4,
        value(text::hex4(w, upper), 16) == w,
{
    reveal_with_fuel(value, 5);
    let s = text::hex2(b, upper);
    law_digit(b as int / 16, upper);
    law_digit(b as int % 16, upper);
    assert(s.drop_last() =~= seq![s[0]]);
    assert(seq![s[0]].drop_last() =~= Seq::<char>::empty());
    let t = text::hex4(w, upper);
    let (high, low) = ((w / 256) as u8, (w % 256) as u8);
    law_digit(high as int / 16, upper);
    law_digit(high as int % 16, upper);
    law_digit(low as int / 16, upper);
    law_digit(low as int % 16, upper);
    assert(t.drop_last() =~= seq![t[0], t[1], t[2]]);
    assert(seq![t[0], t[1], t[2]].drop_last() =~= seq![t[0], t[1]]);
    assert(seq![t[0], t[1]].drop_last() =~= seq![t[0]]);
    assert(seq![t[0]].drop_last() =~= Seq::<char>::empty());
    assert(high == 16 * (high as int / 16) + high as int % 16);
    assert(low == 16 * (low as int / 16) + low as int % 16);
}

/// Whether a word occurs in a text at a place.
pub open spec fn occurs(s: Seq<char>, word: Seq<char>, i: int) -> bool {
    0 <= i && i + word.len() <= s.len() && s.subrange(i, i + word.len()) == word
}

/// A text in which a word does not occur stays as it is.
pub proof fn law_not_replaced(s: Seq<char>, word: Seq<char>, to: Seq<char>)
    requires
        word.len() > 0,
        forall|i: int| !#[trigger] occurs(s, word, i),
    ensures
        text::replaced(s, word, to) == s,
    decreases s.len(),
{
    if s.len() > 0 {
        assert(!occurs(s, word, 0));
        let rest = s.subrange(1, s.len() as int);
        assert forall|i: int| !#[trigger] occurs(rest, word, i) by {
            if occurs(rest, word, i) {
                assert(s.subrange(i + 1, i + 1 + word.len()) =~= rest.subrange(
                    i,
                    i + word.len(),
                ));
                assert(occurs(s, word, i + 1));
            }
        }
        law_not_replaced(rest, word, to);
        assert(seq![s[0]] + rest =~= s);
    }
}

/// The first occurrence of a word is replaced, what stands before it stays, and the replacing goes
/// on behind it.
pub proof fn law_replaced(before: Seq<char>, word: Seq<char>, after: Seq<char>, to: Seq<char>)
    requires
        word.len() > 0,
        forall|i: int| 0 <= i < before.len() ==> !#[trigger] occurs(before + word + after, word, i),
    ensures
        text::replaced(before + word + after, word, to) == before + to + text::replaced(
            after,
            word,
            to,
        ),
    decreases before.len(),
{
    let s = before + word + after;
    if before.len() == 0 {
        assert(s.subrange(0, word.len() as int) =~= word);
        assert(s.subrange(word.len() as int, s.len() as int) =~= after);
        assert(before + to + text::replaced(after, word, to) =~= to + text::replaced(
            after,
            word,
            to,
        ));
    } else {
        let rest = before.subrange(1, before.len() as int);
        assert(!occurs(s, word, 0));
        let t = rest + word + after;
        assert(s.subrange(1, s.len() as int) =~= t);
        assert forall|i: int| 0 <= i < rest.len() implies !#[trigger] occurs(t, word, i) by {
            assert(!occurs(s, word, i + 1));
            assert(s.subrange(i + 1, i + 1 + word.len()) =~= t.subrange(i, i + word.len()));
        }
        law_replaced(rest, word, after, to);
        assert(seq![s[0]] + (rest + to + text::replaced(after, word, to)) =~= before + to
            + text::replaced(after, word, to));
    }
}

/// The operand bytes are written into a mnemonic in place of `n` or `nn`, as a dollar sign and
/// small digits. Of two bytes the second is the high one.
pub proof fn law_operands(before: Seq<char>, after: Seq<char>, a: u8, b: u8)
    requires
        forall|i: int| 0 <= i < before.len() ==> before[i] != 'n',
        forall|i: int| 0 <= i < after.len() ==> after[i] != 'n',
    ensures
        types::mnemonic_with(before + seq!['n'] + after, seq![a]) == before + seq!['$']
            + text::hex2(a, false) + after,
        types::mnemonic_with(before + seq!['n', 'n'] + after, seq![a, b]) == before + seq!['$']
            + text::hex2(b, false) + text::hex2(a, false) + after,
{
    reveal_strlit("n");
    reveal_strlit("nn");
    reveal_strlit("$");
    assert("n"@ =~= seq!['n']);
    assert("nn"@ =~= seq!['n', 'n']);
    assert("$"@ =~= seq!['$']);
    let (one, two) = (seq!['n'], seq!['n', 'n']);
    let (s, t) = (before + one + after, before + two + after);
    let (to, to2) = (
        "$"@ + text::hex2(a, false),
        "$"@ + text::hex2(b, false) + text::hex2(a, false),
    );
    assert forall|i: int| 0 <= i < before.len() implies !#[trigger] occurs(s, one, i) by {
        assert(s[i] == before[i]);
        if occurs(s, one, i) {
            assert(s.subrange(i, i + 1)[0] == one[0]);
        }
    }
    law_replaced(before, one, after, to);
    assert forall|i: int| !#[trigger] occurs(after, one, i) by {
        if occurs(after, one, i) {
            assert(after.subrange(i, i + 1)[0] == one[0]);
        }
    }
    law_not_replaced(after, one, to);
    assert(before + to + after =~= before + seq!['$'] + text::hex2(a, false) + after);
    assert forall|i: int| 0 <= i < before.len() implies !#[trigger] occurs(t, two, i) by {
        assert(t[i] == before[i]);
        if occurs(t, two, i) {
            assert(t.subrange(i, i + 2)[0] == two[0]);
        }
    }
    law_replaced(before, two, after, to2);
    assert forall|i: int| !#[trigger] occurs(after, two, i) by {
        if occurs(after, two, i) {
            assert(after.subrange(i, i + 2)[0] == two[0]);
        }
    }
    law_not_replaced(after, two, to2);
    assert(before + to2 + after =~= before + seq!['$'] + text::hex2(b, false) + text::hex2(
        a,
        false,
    ) + after);
}

/// The debugger's line has the registers at fixed places, in the order A, F, B, C, D, E, H, L, SP
/// and PC, and behind them the four bytes.
#[verifier::rlimit(40)]
pub proof fn law_state_text(cpu: CPUState, next: Seq<u8>)
    requires
        next.len() == 4,
    ensures
        ({
            let s = dbg::state_text(cpu, next);
            &&& s.len() == 73
            &&& s.subrange(2, 4) == text::hex2(cpu.reg[7], true)
            &&& s.subrange(7, 9) == text::hex2(cpu.reg[6], true)
            &&& s.subrange(12, 14) == text::hex2(cpu.reg[0], true)
            &&& s.subrange(17, 19) == text::hex2(cpu.reg[1], true)
            &&& s.subrange(22, 24) == text::hex2(cpu.reg[2], true)
            &&& s.subrange(27, 29) == text::hex2(cpu.reg[3], true)
            &&& s.subrange(32, 34) == text::hex2(cpu.reg[4], true)
            &&& s.subrange(37, 39) == text::hex2(cpu.reg[5], true)
            &&& s.subrange(43, 47) == text::hex4(cpu.sp, true)
            &&& s.subrange(51, 55) == text::hex4(cpu.pc, true)
            &&& s.subrange(62, 64) == text::hex2(next[0], true)
            &&& s.subrange(65, 67) == text::hex2(next[1], true)
            &&& s.subrange(68, 70) == text::hex2(next[2], true)
            &&& s.subrange(71, 73) == text::hex2(next[3], true)
        }),
{
    reveal_strlit("A:");
    reveal_strlit(" F:");
    reveal_strlit(" B:");
    reveal_strlit(" C:");
    reveal_strlit(" D:");
    reveal_strlit(" E:");
    reveal_strlit(" H:");
    reveal_strlit(" L:");
    reveal_strlit(" SP:");
    reveal_strlit(" PC:");
    reveal_strlit(" PCMEM:");
    reveal_strlit(",");
}

/// The flags stand in the order C, H, N, Z, each by its letter or a dash.
pub proof fn law_flags_text(f: u8)
    ensures
        dbg::flags_text(f).len() == 4,
        dbg::flags_text(f)[0] == (if raw::on(f, 16) {
            'C'
        } else {
            '—'
        }),
        dbg::flags_text(f)[1] == (if raw::on(f, 32) {
            'H'
        } else {
            '—'
        }),
        dbg::flags_text(f)[2] == (if raw::on(f, 64) {
            'N'
        } else {
            '—'
        }),
        dbg::flags_text(f)[3] == (if raw::on(f, 128) {
            'Z'
        } else {
            '—'
        }),
{
    reveal_strlit("C");
    reveal_strlit("H");
    reveal_strlit("N");
    reveal_strlit("Z");
    reveal_strlit("—");
}

/// The line on the control register shows it in binary, right aligned in ten places, and then bit
/// by bit from the highest to the lowest.
#[verifier::rlimit(40)]
pub proof fn law_control_text(v: u8)
    ensures
        ({
            let s = dbg::lcdc_line(v);
            &&& s.len() == 120
            &&& exists|k: int|
                0 <= k <= 7 && #[trigger] s.subrange(k, 10) == seq!['0', 'b'] + text::digits(
                    v as nat,
                    2,
                    false,
                ) && forall|i: int| 0 <= i < k ==> s[i] == ' '
            &&& s.subrange(22, 25) == if raw::on(v, 128) {
                " on"@
            } else {
                "off"@
            }
            &&& s.subrange(36, 42) == if raw::on(v, 64) {
                "0x9C00"@
            } else {
                "0x9800"@
            }
            &&& s.subrange(49, 52) == if raw::on(v, 32) {
                " on"@
            } else {
                "off"@
            }
            &&& s.subrange(66, 72) == if raw::on(v, 16) {
                "0x8000"@
            } else {
                "0x8800"@
            }
            &&& s.subrange(82, 88) == if raw::on(v, 8) {
                "0x9C00"@
            } else {
                "0x9800"@
            }
            &&& s.subrange(98, 100) == if raw::on(v, 4) {
                "16"@
            } else {
                " 8"@
            }
            &&& s.subrange(107, 110) == if raw::on(v, 2) {
                " on"@
            } else {
                "off"@
            }
            &&& s.subrange(116, 119) == if raw::on(v, 1) {
                " on"@
            } else {
                "off"@
            }
        }),
{
    reveal_strlit("0b");
    reveal_strlit(" on");
    reveal_strlit("off");
    reveal_strlit("0x9C00");
    reveal_strlit("0x9800");
    reveal_strlit("0x8000");
    reveal_strlit("0x8800");
    reveal_strlit("16");
    reveal_strlit(" 8");
    reveal_strlit(" LCDC [scr: ");
    reveal_strlit(", wnd_map: ");
    reveal_strlit(", wnd: ");
    reveal_strlit(", bg/wnd_dat: ");
    reveal_strlit(", bg_map: ");
    reveal_strlit(", obj_sz: ");
    reveal_strlit(", obj: ");
    reveal_strlit(", bg: ");
    reveal_strlit("]");
    vstd::arithmetic::power2::lemma2_to64();
    lemma_binary_length(v as nat, 8);
    let binary = "0b"@ + text::digits(v as nat, 2, false);
    let head = dbg::padded(binary, 10);
    assert(head.len() == 10);
    let s = dbg::lcdc_line(v);
    let k = 10 - binary.len();
    assert(s.subrange(k, 10) =~= seq!['0', 'b'] + text::digits(v as nat, 2, false));
    assert(0 <= k <= 7);
}

/// A number below a power of two has as many binary digits at most.
proof fn lemma_binary_length(n: nat, k: nat)
    requires
        n < vstd::arithmetic::power2::pow2(k),
        k >= 1,
    ensures
        1 <= text::digits(n, 2, false).len() <= k,
    decreases k,
{
    vstd::arithmetic::power2::lemma_pow2_unfold(k);
    if n >= 2 {
        if k == 1 {
            vstd::arithmetic::power2::lemma2_to64();
        } else {
            lemma_binary_length(n / 2, (k - 1) as nat);
        }
    }
}

/// Where the byte with the number `i` stands in a dump: three places for each byte, and one more
/// for the end of each line of sixteen.
pub open spec fn dump_place(i: int) -> int {
    3 * i + i / 16
}

/// In a dump every byte stands at its place, with a space behind it, and lines end after sixteen.
pub proof fn law_dump(rom: Seq<u8>, n: int)
    requires
        0 <= n <= rom.len(),
    ensures
        listing::hex_rows(rom, n).len() == dump_place(n),
        forall|i: int|
            0 <= i < n ==> {
                let p = #[trigger] dump_place(i);
                &&& listing::hex_rows(rom, n).subrange(p, p + 2) == text::hex2(rom[i], true)
                &&& listing::hex_rows(rom, n)[p + 2] == ' '
                &&& i % 16 == 15 ==> listing::hex_rows(rom, n)[p + 3] == '\n'
            },
    decreases n,
{
    if n > 0 {
        law_dump(rom, n - 1);
        reveal_strlit(" ");
        reveal_strlit("\n");
        let before = listing::hex_rows(rom, n - 1);
        let s = listing::hex_rows(rom, n);
        assert(n % 16 == 0 <==> (n - 1) % 16 == 15);
        assert forall|i: int| 0 <= i < n implies {
            let p = #[trigger] dump_place(i);
            &&& s.subrange(p, p + 2) == text::hex2(rom[i], true)
            &&& s[p + 2] == ' '
            &&& i % 16 == 15 ==> s[p + 3] == '\n'
        } by {
            let p = dump_place(i);
            if i < n - 1 {
                assert(dump_place(i) + 3 <= before.len());
                assert(i % 16 == 15 ==> dump_place(i) + 4 <= before.len());
                assert(before.subrange(p, p + 2) == text::hex2(rom[i], true));
                assert(s.subrange(p, p + 2) =~= before.subrange(p, p + 2));
                assert(s[p + 2] == before[p + 2]);
            } else {
                assert(p == before.len());
                assert(s.subrange(p, p + 2) =~= text::hex2(rom[i], true));
            }
        }
    }
}

/// A mnemonic of an instruction behind the prefix, as it is decoded, is the one of the listing.
pub proof fn law_prefixed_text(op: int, icb: InstructionCB)
    requires
        0 <= op < 256,
        icb.opcode@ == decode::decoded_cb(op),
        icb.reg == op % 8,
        icb.bit == if op < 0x40 {
            0xFF
        } else {
            (op / 8) % 8
        },
    ensures
        types::cb_mnemonic(icb) == listing::cb_text(op),
{
}

/// The line for an instruction: unknown opcodes have a line of their own, the prefix CB stands for
/// the instruction behind it, and operand bytes are written into the mnemonic.
pub proof fn law_line(rom: Seq<u8>, i: int)
    requires
        0 <= i < rom.len(),
    ensures
        ({
            let (mnm, len) = decode::decoded(rom[i] as int);
            let (line, size) = (listing::line_text(rom, i), listing::line_length(rom, i));
            &&& len == 0 ==> line == "[invalid instruction]"@ && size == 1
            &&& rom[i] == 0xCB ==> line == listing::cb_text(rom[i + 1] as int) && size == 2
            &&& rom[i] != 0xCB && len == 1 ==> line == mnm && size == 1
            &&& len == 2 ==> size == 2 && (i + 2 <= rom.len() ==> line == types::mnemonic_with(
                mnm,
                seq![rom[i + 1]],
            ))
            &&& len == 3 ==> size == 3 && (i + 3 <= rom.len() ==> line == types::mnemonic_with(
                mnm,
                seq![rom[i + 1], rom[i + 2]],
            ))
            &&& listing::line_fits(rom, i) <==> i + size <= rom.len()
        }),
{
    decode::lemma_prefix(rom[i] as int);
    let len = decode::decoded(rom[i] as int).1;
    if len == 2 && i + 2 <= rom.len() {
        assert(rom.subrange(i + 1, i + 2) =~= seq![rom[i + 1]]);
    }
    if len == 3 && i + 3 <= rom.len() {
        assert(rom.subrange(i + 1, i + 3) =~= seq![rom[i + 1], rom[i + 2]]);
    }
}

/// A listing is complete exactly if every instruction on its way ends inside the cartridge, and it
/// ends where one does not.
pub proof fn law_listing_end(rom: Seq<u8>, i: int, end: int)
    requires
        0 <= i,
    ensures
        i >= end ==> listing::whole(rom, i, end) && listing::lines(rom, i, end).len() == 0,
        i < end && !listing::line_fits(rom, i) ==> !listing::whole(rom, i, end)
            && listing::lines(rom, i, end).len() == 0,
        i < end && listing::line_fits(rom, i) ==> listing::whole(rom, i, end) == listing::whole(
            rom,
            i + listing::line_length(rom, i),
            end,
        ),
{
}

} // verus!
