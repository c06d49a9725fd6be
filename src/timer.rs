use vstd::prelude::*;
use crate::mmu::{Mmu, MemView};

verus! {

/// Divider register: counts up at 16384 Hz.
pub const DIV: u16 = 0xFF04;
/// Timer counter: counts up at the rate TAC selects.
pub const TIMA: u16 = 0xFF05;
/// Timer modulo: the value TIMA is reloaded with when it overflows.
pub const TMA: u16 = 0xFF06;
/// Timer control: bit 2 enables TIMA, bits 1-0 select its rate.
pub const TAC: u16 = 0xFF07;
/// Interrupt raised when TIMA overflows.
pub const TIMER_INTERRUPT_ID: u8 = 2;
/// Clock cycles per DIV increment (4194304 Hz / 16384 Hz).
pub const DIV_PERIOD: usize = 256;

/// The cycle accumulators of the divider and the timer counter.
#[derive(Clone, Copy, PartialEq, Eq, Structural)]
pub struct Timer {
    pub div_cycles: usize,
    pub tima_cycles: usize,
}

/// TIMA rate in Hz that bits 1-0 of TAC select.
pub open spec fn frequency_of(control: u8) -> usize {
    let select = control % 4;
    if select == 0 {
        4096
    } else if select == 1 {
        262144
    } else if select == 2 {
        65536
    } else {
        16384
    }
}

/// Clock cycles per TIMA increment at the rate that TAC selects.
pub open spec fn period_of(control: u8) -> usize {
    (crate::cpu::CLOCK_SPEED / frequency_of(control)) as usize
}

/// TIMA and IF after `k` increments of TIMA: on overflow TIMA is reloaded
/// from TMA and the timer interrupt is requested.
pub open spec fn tima_run(tima: u8, tma: u8, flag: u8, k: nat) -> (u8, u8)
    decreases k,
{
    if k == 0 {
        (tima, flag)
    } else {
        let (t, f) = tima_run(tima, tma, flag, (k - 1) as nat);
        if t == 0xFF {
            (tma, f | (1u8 << TIMER_INTERRUPT_ID))
        } else {
            ((t + 1) as u8, f)
        }
    }
}

impl Timer {
    pub open spec fn wf(self) -> bool {
        self.div_cycles < DIV_PERIOD && self.tima_cycles < 1024
    }

    /// DIV increments owed after `cycles` more clock cycles.
    pub open spec fn div_steps(self, cycles: usize) -> nat {
        (cycles / 256 + (self.div_cycles + cycles % 256) / 256int) as nat
    }

    /// TIMA increments owed after `cycles` more clock cycles at `period`.
    pub open spec fn tima_steps(self, cycles: usize, period: usize) -> nat {
        (cycles / period + (self.tima_cycles + cycles % period) / (period as int)) as nat
    }

    /// Whether TIMA counts under this TAC value (bit 2).
    pub open spec fn enabled(control: u8) -> bool {
        crate::bit_set(control, 2)
    }

    /// The accumulators after `cycles` more clock cycles under TAC `control`.
    pub open spec fn advanced(self, cycles: usize, control: u8) -> Timer {
        Timer {
            div_cycles: ((self.div_cycles + cycles % 256) % 256) as usize,
            tima_cycles: if Timer::enabled(control) {
                ((self.tima_cycles + cycles % period_of(control)) % (period_of(control) as int)) as usize
            } else {
                self.tima_cycles
            },
        }
    }

    /// RAM after `cycles` more clock cycles: DIV advanced, then TIMA
    /// advanced (with reloads and interrupt requests) when TAC enables it.
    pub open spec fn memory_after(self, memory: Seq<u8>, cycles: usize) -> Seq<u8> {
        let m = memory.update(0x7F04, ((memory[0x7F04] + self.div_steps(cycles)) % 256) as u8);
        let control = m[0x7F07];
        if Timer::enabled(control) {
            let (t, f) = tima_run(
                m[0x7F05],
                m[0x7F06],
                m[0x7F0F],
                self.tima_steps(cycles, period_of(control)),
            );
            m.update(0x7F05, t).update(0x7F0F, f)
        } else {
            m
        }
    }

    /// Both accumulators empty.
    pub open spec fn initial() -> Timer {
        Timer { div_cycles: 0, tima_cycles: 0 }
    }

    pub fn new() -> (r: Self)
        ensures
            r == Timer::initial(),
    {
        Timer { div_cycles: 0, tima_cycles: 0 }
    }

    /// Whether TIMA counts under this TAC value (bit 2).
    pub fn tac_enabled(&self, control: u8) -> (r: bool)
        ensures
            r == Timer::enabled(control),
    {
        crate::check_bit(control, 2)
    }

    /// TIMA rate in Hz that bits 1-0 of TAC select.
    pub fn tac_frequency(&self, control: u8) -> (r: usize)
        ensures
            r == frequency_of(control),
    {
        let select = control % 4;
        if select == 0 {
            4096
        } else if select == 1 {
            262144
        } else if select == 2 {
            65536
        } else {
            16384
        }
    }

    /// Advances DIV and, when TAC enables it, TIMA by `cycles` clock cycles.
    /// DIV counts at 16384 Hz (one step per 256 cycles); TIMA at the rate TAC
    /// selects. On TIMA overflow, TIMA is reloaded from TMA and the timer
    /// interrupt is requested. DIV is stored directly: the write path would
    /// reset it.
    pub fn update(&mut self, mmu: &mut Mmu, cycles: usize)
        requires
            old(self).wf(),
            old(mmu).wf(),
        ensures
            final(self).wf(),
            final(mmu).wf(),
            *final(self) == old(self).advanced(cycles, old(mmu)@.memory[0x7F07]),
            final(mmu)@ == old(mmu)@.with_memory(old(self).memory_after(old(mmu)@.memory, cycles)),
    {
        let ghost m0 = mmu@.memory;
        // Divider
        let div_rest = self.div_cycles + cycles % DIV_PERIOD;
        let div_steps = cycles / DIV_PERIOD + div_rest / DIV_PERIOD;
        self.div_cycles = div_rest % DIV_PERIOD;
        let div = mmu.memory[0x7F04];
        mmu.memory.set(0x7F04, div.wrapping_add((div_steps % 256) as u8));
        assert(mmu@.memory[0x7F04] == ((m0[0x7F04] + old(self).div_steps(cycles)) % 256) as u8);
        let ghost m1 = mmu@.memory;
        // Timer counter
        let control = mmu.get(TAC);
        if self.tac_enabled(control) {
            let period = crate::cpu::CLOCK_SPEED / self.tac_frequency(control);
            assert(period == period_of(control));
            assert(16 <= period <= 1024);
            let rest = self.tima_cycles + cycles % period;
            assert(cycles / period <= cycles / 16 && rest / period <= rest / 16) by (nonlinear_arith)
                requires
                    16 <= period,
            ;
            let steps = cycles / period + rest / period;
            self.tima_cycles = rest % period;
            let tma = mmu.get(TMA);
            let mut i: usize = 0;
            while i < steps
                invariant
                    mmu.wf(),
                    i <= steps,
                    mmu@ == old(mmu)@.with_memory(mmu@.memory),
                    mmu@.memory.len() == m1.len(),
                    tma == m1[0x7F06],
                    forall|j: int|
                        0 <= j < m1.len() && j != 0x7F05 && j != 0x7F0F ==> mmu@.memory[j] == m1[j],
                    (mmu@.memory[0x7F05], mmu@.memory[0x7F0F]) == tima_run(
                        m1[0x7F05],
                        m1[0x7F06],
                        m1[0x7F0F],
                        i as nat,
                    ),
                decreases steps - i,
            {
                let tima = mmu.get(TIMA);
                if tima == 0xFF {
                    mmu.set(TIMA, tma);
                    mmu.request_interrupt(TIMER_INTERRUPT_ID);
                } else {
                    mmu.set(TIMA, tima + 1);
                }
                i = i + 1;
            }
            assert(mmu@.memory =~= old(self).memory_after(m0, cycles));
        } else {
            assert(mmu@.memory =~= old(self).memory_after(m0, cycles));
        }
    }
}

} // verus!
