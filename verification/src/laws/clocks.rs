//! The divider and the timer over longer times.
use vstd::prelude::*;

use crate::bits;
use crate::cpu;
use crate::memory::{Ram, DIV, IF, TAC, TIMA, TMA};

verus! {

/// The timer advances by `j` and then by `k` as it advances by both together, and passes 255 in
/// one of the parts exactly if it does so in the whole.
pub proof fn law_timer_parts(v: int, modulo: int, j: int, k: int)
    requires
        0 <= v < 256,
        0 <= modulo < 256,
        j >= 0,
        k >= 0,
    ensures
        0 <= cpu::timer_value(v, modulo, j) < 256,
        cpu::timer_value(cpu::timer_value(v, modulo, j), modulo, k) == cpu::timer_value(
            v,
            modulo,
            j + k,
        ),
        v + j + k >= 256 <==> v + j >= 256 || cpu::timer_value(v, modulo, j) + k >= 256,
    decreases k,
{
    cpu::lemma_timer_step(v, modulo, j);
    let w = cpu::timer_value(v, modulo, j);
    if k > 0 {
        law_timer_parts(v, modulo, j, k - 1);
        cpu::lemma_timer_step(w, modulo, k - 1);
        cpu::lemma_timer_step(v, modulo, j + k - 1);
    }
}

/// The timer starts over from its modulo: once past 255 it never falls below it.
pub proof fn law_timer_range(v: int, modulo: int, k: int)
    requires
        0 <= v < 256,
        0 <= modulo < 256,
        k >= 0,
        v + k >= 256,
    ensures
        modulo <= cpu::timer_value(v, modulo, k) < 256,
        k == 256 - v ==> cpu::timer_value(v, modulo, k) == modulo,
{
    vstd::arithmetic::div_mod::lemma_mod_bound(v + k - 256, 256 - modulo);
    if k == 256 - v {
        vstd::arithmetic::div_mod::lemma_small_mod(0, (256 - modulo) as nat);
    }
}

/// The part of the timer's cycles that has not advanced it yet.
pub open spec fn timer_rest(mem: Ram, timer: int) -> int {
    if cpu::timer_on(mem) {
        timer % cpu::timer_period(mem)
    } else {
        timer
    }
}

/// Time can be counted in parts: with the remainders carried over, two updates of the clocks leave
/// the memory and the remainders that one update for the whole time leaves.
pub proof fn law_clock_parts(mem: Ram, divider: int, timer: int, dt: int)
    requires
        mem.wf(),
        divider >= 0,
        timer >= 0,
        dt >= 0,
    ensures
        cpu::clocked(
            cpu::clocked(mem, divider, timer),
            divider % 256 + dt,
            timer_rest(mem, timer) + dt,
        ) == cpu::clocked(mem, divider + dt, timer + dt),
        (divider % 256 + dt) % 256 == (divider + dt) % 256,
        timer_rest(cpu::clocked(mem, divider, timer), timer_rest(mem, timer) + dt) == timer_rest(
            mem,
            timer + dt,
        ),
{
    let rest = timer_rest(mem, timer);
    let period = cpu::timer_period(mem);
    lemma_parts(timer, dt, period);
    lemma_parts(divider, dt, 256);
    let (d, j) = (divider / 256, timer / period);
    let (e, k) = ((divider % 256 + dt) / 256, (timer % period + dt) / period);
    lemma_advanced(mem, d, j);
    lemma_advanced_twice(mem, d, j, e, k);
    assert(cpu::clocked(mem, divider, timer) == advanced(mem, d, j));
    assert(cpu::clocked(mem, divider + dt, timer + dt) == advanced(mem, d + e, j + k));
    assert(cpu::clocked(advanced(mem, d, j), divider % 256 + dt, rest + dt) == advanced(
        advanced(mem, d, j),
        e,
        k,
    ));
}

/// Memory after the divider advanced `d` times, and the timer `k` times if it runs.
spec fn advanced(mem: Ram, d: int, k: int) -> Ram {
    let divided = cpu::divider_advanced(mem, d);
    if cpu::timer_on(mem) {
        cpu::timer_advanced(divided, k)
    } else {
        divided
    }
}

/// The registers that this changes.
proof fn lemma_advanced(mem: Ram, d: int, k: int)
    requires
        mem.wf(),
        d >= 0,
        k >= 0,
    ensures
        ({
            let r = advanced(mem, d, k);
            let v = mem.data[TIMA as int] as int;
            &&& r.wf() && r.dma_req == mem.dma_req && r.doctor == mem.doctor
            &&& r.data[DIV as int] == (mem.data[DIV as int] + d) % 256
            &&& r.data[TIMA as int] == if cpu::timer_on(mem) {
                cpu::timer_value(v, mem.data[TMA as int] as int, k) as u8
            } else {
                mem.data[TIMA as int]
            }
            &&& r.data[IF as int] == if cpu::timer_on(mem) && v + k >= 256 {
                bits::with_bit((mem.data[IF as int] % 32) as u8, 2, true)
            } else {
                mem.data[IF as int]
            }
            &&& forall|a: int|
                0 <= a < 0x10000 && a != DIV && a != TIMA && a != IF ==> #[trigger] r.data[a]
                    == mem.data[a]
            &&& cpu::timer_on(r) == cpu::timer_on(mem)
            &&& cpu::timer_period(r) == cpu::timer_period(mem)
        }),
{
    let r = advanced(mem, d, k);
    assert(r.data[TAC as int] == mem.data[TAC as int]);
}

proof fn lemma_advanced_twice(mem: Ram, d: int, j: int, e: int, k: int)
    requires
        mem.wf(),
        d >= 0,
        j >= 0,
        e >= 0,
        k >= 0,
    ensures
        advanced(advanced(mem, d, j), e, k) == advanced(mem, d + e, j + k),
{
    let first = advanced(mem, d, j);
    let both = advanced(first, e, k);
    let whole = advanced(mem, d + e, j + k);
    lemma_advanced(mem, d, j);
    lemma_advanced(first, e, k);
    lemma_advanced(mem, d + e, j + k);
    law_timer_parts(mem.data[TIMA as int] as int, mem.data[TMA as int] as int, j, k);
    lemma_request(mem.data[IF as int]);
    assert(both.data[DIV as int] == whole.data[DIV as int]);
    assert(both.data[TIMA as int] == whole.data[TIMA as int]);
    assert(both.data[IF as int] == whole.data[IF as int]);
    assert(both.data =~= whole.data);
}

proof fn lemma_parts(t: int, dt: int, period: int)
    requires
        t >= 0,
        dt >= 0,
        period == 16 || period == 64 || period == 256 || period == 1024,
    ensures
        t / period >= 0,
        (t % period + dt) / period >= 0,
        t / period + (t % period + dt) / period == (t + dt) / period,
        (t % period + dt) % period == (t + dt) % period,
{
}

proof fn lemma_request(v: u8)
    ensures
        ({
            let set = bits::with_bit((v % 32) as u8, 2, true);
            bits::with_bit((set % 32) as u8, 2, true) == set
        }),
{
}

/// The divider counts one for every 256 cycles, whatever the timer does.
pub proof fn law_divider(mem: Ram, divider: int, timer: int)
    requires
        mem.wf(),
        divider >= 0,
        timer >= 0,
    ensures
        cpu::clocked(mem, divider, timer).read(DIV as int) == (mem.read(DIV as int) + divider / 256)
            % 256,
{
}

} // verus!
