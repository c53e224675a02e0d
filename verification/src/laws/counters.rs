//! At which rate the divider and the timer count, and what an overflow does.
use vstd::prelude::*;

use crate::bits;
use crate::cpu;
use crate::laws::raw;
use crate::memory::Ram;

verus! {

/// The timer runs exactly if bit 2 of the register at FF07 is set.
pub proof fn law_timer_switch(mem: Ram)
    requires
        mem.wf(),
    ensures
        cpu::timer_on(mem) == raw::on(mem.data[0xFF07], 4),
{
}

/// The two low bits of the register at FF07 select the rate: 00 stands for one advance in 1024
/// cycles, 01 for one in 16, 10 for one in 64, and 11 for one in 256.
pub proof fn law_timer_rates(mem: Ram)
    requires
        mem.wf(),
    ensures
        mem.data[0xFF07] % 4 == 0 ==> cpu::timer_period(mem) == 1024,
        mem.data[0xFF07] % 4 == 1 ==> cpu::timer_period(mem) == 16,
        mem.data[0xFF07] % 4 == 2 ==> cpu::timer_period(mem) == 64,
        mem.data[0xFF07] % 4 == 3 ==> cpu::timer_period(mem) == 256,
{
}

/// The number of times that the timer advances in a number of cycles.
pub open spec fn advances(mem: Ram, cycles: int) -> int {
    if !raw::on(mem.data[0xFF07], 4) {
        0
    } else if mem.data[0xFF07] % 4 == 0 {
        cycles / 1024
    } else if mem.data[0xFF07] % 4 == 1 {
        cycles / 16
    } else if mem.data[0xFF07] % 4 == 2 {
        cycles / 64
    } else {
        cycles / 256
    }
}

/// One update of the clocks. The divider at FF04 goes up by one for every 256 cycles, and starts
/// over after 255. The timer at FF05 goes up at its rate; if it passes 255 it goes on from the
/// value at FF06, in a cycle from there to 255, and the interrupt with weight 4 is requested.
/// Without that no request changes, and nothing else in memory does.
pub proof fn law_clocks(mem: Ram, divider: int, timer: int)
    requires
        mem.wf(),
        divider >= 0,
        timer >= 0,
    ensures
        ({
            let t = cpu::clocked(mem, divider, timer);
            let (d, e) = (mem.data, t.data);
            let total = d[0xFF05] + advances(mem, timer);
            &&& e[0xFF04] == (d[0xFF04] + divider / 256) % 256
            &&& total <= 255 ==> e[0xFF05] == total && e[0xFF0F] == d[0xFF0F]
            &&& total > 255 ==> {
                &&& d[0xFF06] <= e[0xFF05]
                &&& (total - 256 - (e[0xFF05] - d[0xFF06])) % (256 - d[0xFF06]) == 0
                &&& e[0xFF0F] < 32
                &&& raw::on(e[0xFF0F], 4)
                &&& e[0xFF0F] % 4 == d[0xFF0F] % 4
                &&& e[0xFF0F] / 8 == (d[0xFF0F] % 32) / 8
            }
            &&& forall|a: int|
                0 <= a < 0x10000 && a != 0xFF04 && a != 0xFF05 && a != 0xFF0F ==> #[trigger] e[a]
                    == d[a]
            &&& t.wf() && t.dma_req == mem.dma_req && t.doctor == mem.doctor
        }),
{
    let k = timer / cpu::timer_period(mem);
    assert(cpu::timer_on(mem) ==> k == advances(mem, timer)) by {
        law_timer_rates(mem);
    }
    assert(k >= 0) by {
        law_timer_rates(mem);
    }
    let (v, modulo) = (mem.data[0xFF05] as int, mem.data[0xFF06] as int);
    lemma_wrapped(v, modulo, k);
    lemma_request(mem.data[0xFF0F]);
    let divided = cpu::divider_advanced(mem, divider / 256);
    assert(divided.data[0xFF05] == mem.data[0xFF05]);
}

/// A timer that passed 255 stands at its modulo plus what is left of whole rounds.
proof fn lemma_wrapped(v: int, modulo: int, k: int)
    requires
        0 <= v < 256,
        0 <= modulo < 256,
        k >= 0,
    ensures
        0 <= cpu::timer_value(v, modulo, k) < 256,
        v + k >= 256 ==> {
            &&& modulo <= cpu::timer_value(v, modulo, k)
            &&& (v + k - 256 - (cpu::timer_value(v, modulo, k) - modulo)) % (256 - modulo) == 0
        },
{
    if v + k >= 256 {
        let (m, p) = (v + k - 256, 256 - modulo);
        vstd::arithmetic::div_mod::lemma_mod_bound(m, p);
        vstd::arithmetic::div_mod::lemma_fundamental_div_mod(m, p);
        assert(m - m % p == p * (m / p));
        vstd::arithmetic::div_mod::lemma_mod_multiples_basic(m / p, p);
        assert(p * (m / p) == (m / p) * p) by (nonlinear_arith);
    }
}

proof fn lemma_request(v: u8)
    ensures
        ({
            let w = bits::with_bit((v % 32) as u8, 2, true);
            &&& w < 32
            &&& raw::on(w, 4)
            &&& w % 4 == v % 4
            &&& w / 8 == (v % 32) / 8
        }),
{
}

/// The value of the timer is determined by what the law on the clocks says of it: in a cycle no
/// two values differ by a whole number of rounds.
pub proof fn law_timer_unique(modulo: int, a: int, b: int, total: int)
    requires
        0 <= modulo < 256,
        modulo <= a < 256,
        modulo <= b < 256,
        (total - (a - modulo)) % (256 - modulo) == 0,
        (total - (b - modulo)) % (256 - modulo) == 0,
    ensures
        a == b,
{
    let p = 256 - modulo;
    let (x, y) = (total - (a - modulo), total - (b - modulo));
    vstd::arithmetic::div_mod::lemma_fundamental_div_mod(x, p);
    vstd::arithmetic::div_mod::lemma_fundamental_div_mod(y, p);
    let (i, j) = (x / p, y / p);
    assert(y - x == p * (j - i)) by (nonlinear_arith)
        requires
            x == p * i,
            y == p * j,
    ;
    assert(-p < p * (j - i) < p);
    assert(j == i) by (nonlinear_arith)
        requires
            -p < p * (j - i) < p,
            p > 0,
    ;
}

} // verus!
