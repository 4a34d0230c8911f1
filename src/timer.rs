use vstd::prelude::*;
use crate::irq::TIMER_BIT;
use crate::mmu::{Mmu, INTERRUPT_FLAGS_REGISTER, TAC_REGISTER, TIMA_REGISTER, TMA_REGISTER};

verus! {

/// T-cycles per TIMA increment for the TAC clock select `tac & 3`, doubled in double speed.
pub open spec fn timer_period(tac: u8, double_speed: bool) -> nat {
    let base: nat = if tac % 4 == 0 {
        1024
    } else if tac % 4 == 1 {
        16
    } else if tac % 4 == 2 {
        64
    } else {
        256
    };
    if double_speed {
        base * 2
    } else {
        base
    }
}

/// One TIMA increment: from 0xff it reloads TMA.
pub open spec fn tima_step(tima: u8, tma: u8) -> u8 {
    if tima == 0xff {
        tma
    } else {
        (tima + 1) as u8
    }
}

/// TIMA after `n` increments.
pub open spec fn tima_iter(tima: u8, tma: u8, n: nat) -> u8
    decreases n,
{
    if n == 0 {
        tima
    } else {
        tima_step(tima_iter(tima, tma, (n - 1) as nat), tma)
    }
}

/// Whether any of `n` increments overflowed from 0xff.
pub open spec fn tima_overflows(tima: u8, tma: u8, n: nat) -> bool
    decreases n,
{
    if n == 0 {
        false
    } else {
        tima_overflows(tima, tma, (n - 1) as nat) || tima_iter(tima, tma, (n - 1) as nat) == 0xff
    }
}

/// DIV as seen through the 16-bit divider counter.
pub open spec fn div_of(counter: u16) -> u8 {
    (counter / 256) as u8
}

/// The divider and the TIMA prescaler.
pub struct Timer {
    cycles: usize,
}

impl Timer {
    /// T-cycles accumulated toward the next TIMA increment.
    pub closed spec fn pending(&self) -> nat {
        self.cycles as nat
    }

    pub open spec fn wf(&self) -> bool {
        self.pending() < 2048
    }

    pub fn new() -> (r: Timer)
        ensures
            r.wf(),
            r.pending() == 0,
    {
        Timer { cycles: 0 }
    }

    /// Advances by `cycles` T-cycles. The divider counter advances by `cycles` (half of it
    /// in double speed). While TAC enables the timer, every full period of accumulated
    /// cycles increments TIMA; an increment from 0xff reloads TMA and raises the timer
    /// interrupt in IF.
    #[verifier::rlimit(40)]
    pub fn tick(&mut self, mmu: &mut Mmu, cycles: usize)
        requires
            old(self).wf(),
            old(mmu).wf(),
            cycles <= usize::MAX - 2048,
        ensures
            final(self).wf(),
            final(mmu).wf(),
            ({
                let ds = old(mmu).cgb_double_speed;
                let tac = old(mmu).mem(TAC_REGISTER as int);
                let tima = old(mmu).mem(TIMA_REGISTER as int);
                let tma = old(mmu).mem(TMA_REGISTER as int);
                let iflags = old(mmu).mem(INTERRUPT_FLAGS_REGISTER as int);
                let step: nat = if ds { (cycles / 2) as nat } else { cycles as nat };
                let period = timer_period(tac, ds);
                let total = old(self).pending() + cycles;
                let n = (total / period as int) as nat;
                &&& final(mmu).div_counter == (old(mmu).div_counter + step) % 0x10000
                &&& tac % 8 < 4 ==> final(self).pending() == old(self).pending()
                    && final(mmu).memory == old(mmu).memory
                &&& tac % 8 >= 4 ==> {
                    &&& final(self).pending() == total % period as int
                    &&& final(mmu).memory@ == old(mmu).memory@.update(
                        TIMA_REGISTER as int,
                        tima_iter(tima, tma, n),
                    ).update(
                        INTERRUPT_FLAGS_REGISTER as int,
                        if tima_overflows(tima, tma, n) {
                            iflags | TIMER_BIT
                        } else {
                            iflags
                        },
                    )
                }
                &&& *final(mmu) == (Mmu {
                    memory: final(mmu).memory,
                    div_counter: final(mmu).div_counter,
                    ..*old(mmu)
                })
            }),
    {
        let step = if mmu.cgb_double_speed {
            cycles / 2
        } else {
            cycles
        };
        let d0 = mmu.div_counter;
        let s16 = (step % 0x10000) as u16;
        mmu.div_counter = d0.wrapping_add(s16);
        proof {
            let m = 0x10000int;
            assert((d0 as int + s16 as int) % m == (d0 as int + step as int) % m) by {
                vstd::arithmetic::div_mod::lemma_add_mod_noop(d0 as int, step as int, m);
                vstd::arithmetic::div_mod::lemma_small_mod(d0 as nat, m as nat);
            }
        }
        let tac = mmu.memory[TAC_REGISTER as usize];
        if tac % 8 < 4 {
            return ;
        }
        let base: usize = if tac % 4 == 0 {
            1024
        } else if tac % 4 == 1 {
            16
        } else if tac % 4 == 2 {
            64
        } else {
            256
        };
        let period: usize = if mmu.cgb_double_speed {
            base * 2
        } else {
            base
        };
        let tma = mmu.memory[TMA_REGISTER as usize];
        let tima0 = mmu.memory[TIMA_REGISTER as usize];
        let if0 = mmu.memory[INTERRUPT_FLAGS_REGISTER as usize];
        let mut tima = tima0;
        let mut overflowed = false;
        let total: usize = self.cycles + cycles;
        let mut acc: usize = total;
        let ghost mut n: nat = 0;
        while acc >= period
            invariant
                period == timer_period(tac, mmu.cgb_double_speed),
                period > 0,
                acc <= total,
                total == n * period + acc,
                tima == tima_iter(tima0, tma, n),
                overflowed == tima_overflows(tima0, tma, n),
            decreases acc,
        {
            if tima == 0xff {
                overflowed = true;
                tima = tma;
            } else {
                tima = tima + 1;
            }
            acc = acc - period;
            proof {
                assert((n + 1) * period == n * period + period) by (nonlinear_arith);
                n = n + 1;
            }
        }
        proof {
            assert(n as int == total as int / period as int) by (nonlinear_arith)
                requires
                    total == n * period + acc,
                    acc < period,
                    period > 0,
            ;
            assert(acc as int == total as int % period as int) by (nonlinear_arith)
                requires
                    total == n * period + acc,
                    acc < period,
                    period > 0,
            ;
        }
        self.cycles = acc;
        mmu.memory.set(TIMA_REGISTER as usize, tima);
        let new_if = if overflowed {
            if0 | TIMER_BIT
        } else {
            if0
        };
        mmu.memory.set(INTERRUPT_FLAGS_REGISTER as usize, new_if);
    }

    /// Clears the divider counter, as STOP does.
    pub fn reset_divider(&mut self, mmu: &mut Mmu)
        ensures
            *final(self) == *old(self),
            *final(mmu) == (Mmu { div_counter: 0, ..*old(mmu) }),
    {
        mmu.div_counter = 0;
    }
}

/// After `n` T-cycles counted from a reset divider, DIV reads `(n / 256) mod 256`; and
/// ticks compose, so a counter advanced by `n1` and then by `n2` cycles stands where one
/// advanced by `n1 + n2` would.
pub proof fn lemma_div_after_reset(n: nat, n1: nat, n2: nat)
    ensures
        div_of(((0 + n) % 0x10000) as u16) == (n / 256) % 256,
        ((n1 % 0x10000) + n2) % 0x10000 == (n1 + n2) % 0x10000,
{
    let c = n % 0x10000;
    assert(c / 256 == (n / 256) % 256) by (nonlinear_arith)
        requires
            c == n % 0x10000,
    ;
    vstd::arithmetic::div_mod::lemma_add_mod_noop(n1 as int, n2 as int, 0x10000);
    vstd::arithmetic::div_mod::lemma_mod_twice(n2 as int, 0x10000);
    vstd::arithmetic::div_mod::lemma_add_mod_noop((n1 % 0x10000) as int, n2 as int, 0x10000);
    vstd::arithmetic::div_mod::lemma_mod_twice(n1 as int, 0x10000);
}

/// With TAC = 0b101 at single speed, TIMA counts every 16 T-cycles; the increment from
/// 0xff yields TMA and is an overflow, which raises the timer interrupt.
pub proof fn lemma_tima_prescale_16(tima: u8, tma: u8)
    ensures
        timer_period(0b101, false) == 16,
        tima_iter(tima, tma, 1) == if tima == 0xff { tma } else { (tima + 1) as u8 },
        tima_overflows(tima, tma, 1) == (tima == 0xff),
        tima_iter(0xff, tma, 1) == tma,
{
    reveal_with_fuel(tima_iter, 2);
    reveal_with_fuel(tima_overflows, 2);
}

/// TIMA counts up one per increment while it does not pass 0xff.
pub proof fn lemma_tima_counts(tima: u8, tma: u8, n: nat)
    requires
        tima + n <= 0xff,
    ensures
        tima_iter(tima, tma, n) == tima + n,
        !tima_overflows(tima, tma, n),
    decreases n,
{
    if n > 0 {
        lemma_tima_counts(tima, tma, (n - 1) as nat);
    }
}

/// Increments compose: `n1` then `n2` increments are `n1 + n2` increments.
pub proof fn lemma_tima_compose(tima: u8, tma: u8, n1: nat, n2: nat)
    ensures
        tima_iter(tima_iter(tima, tma, n1), tma, n2) == tima_iter(tima, tma, n1 + n2),
    decreases n2,
{
    if n2 > 0 {
        lemma_tima_compose(tima, tma, n1, (n2 - 1) as nat);
    }
}

/// Splitting fed cycles over two ticks changes neither the number of periods completed nor
/// what is left pending: so over any sequence of ticks from a fresh timer, TIMA has been
/// incremented once per full period of the cycles fed in total.
pub proof fn lemma_period_split(pending: nat, c1: nat, c2: nat, period: nat)
    requires
        period > 0,
    ensures
        (pending + c1) / period + ((pending + c1) % period + c2) / period == (pending + c1 + c2) / period,
        ((pending + c1) % period + c2) % period == (pending + c1 + c2) % period,
{
    let a = (pending + c1) as int;
    let p = period as int;
    vstd::arithmetic::div_mod::lemma_fundamental_div_mod(a, p);
    let q = a / p;
    let m = a % p;
    let t = m + c2 as int;
    vstd::arithmetic::div_mod::lemma_fundamental_div_mod(t, p);
    let q2 = t / p;
    let r2 = t % p;
    assert(a + c2 == p * (q + q2) + r2) by (nonlinear_arith)
        requires a == p * q + m, t == m + c2, t == p * q2 + r2;
    vstd::arithmetic::div_mod::lemma_div_multiples_vanish_fancy(q + q2, r2, p);
    vstd::arithmetic::div_mod::lemma_mod_multiples_vanish(q + q2, r2, p);
    vstd::arithmetic::div_mod::lemma_small_mod(r2 as nat, p as nat);
}

} // verus!
