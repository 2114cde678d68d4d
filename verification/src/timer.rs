//! The hardware timer: a free-running divider (DIV, the high byte of a 16-bit
//! internal counter) and a programmable counter (TIMA) that advances once per
//! TAC-selected cycle window and requests an interrupt on overflow.

use vstd::prelude::*;

verus! {

/// Timer state.  `div_counter` backs DIV (0xFF04 reads its high byte),
/// `tima_counter` accumulates cycles toward the next TIMA increment.
pub struct Timer {
    pub div_counter: u16,
    pub tima: u8,
    pub tma: u8,
    pub tac: u8,
    pub tima_counter: u16,
}

/// Result of advancing the timer: the new state and whether TIMA overflowed.
pub ghost struct TickOut {
    pub timer: Timer,
    pub overflow: bool,
}

/// Result of repeatedly folding the cycle accumulator into TIMA increments.
pub ghost struct TimaRun {
    pub tima: u8,
    pub acc: int,
    pub fired: bool,
}

/// Timer enable bit: bit 2 of TAC.
pub open spec fn spec_timer_enabled(t: Timer) -> bool {
    t.tac / 4 % 2 == 1
}

/// Cycle window selected by the low two bits of TAC.
pub open spec fn spec_tima_period(t: Timer) -> u16 {
    let sel = t.tac % 4;
    if sel == 0 {
        1024
    } else if sel == 1 {
        16
    } else if sel == 2 {
        64
    } else {
        256
    }
}

/// While the accumulator holds at least one full period, consume a period and
/// increment TIMA; an increment past 0xFF reloads TMA and marks an overflow.
pub open spec fn spec_tima_run(tima: u8, tma: u8, acc: int, period: int) -> TimaRun
    decreases acc,
{
    if period >= 1 && acc >= period {
        let next = if tima == 0xFF {
            tma
        } else {
            (tima + 1) as u8
        };
        let rest = spec_tima_run(next, tma, acc - period, period);
        TimaRun { tima: rest.tima, acc: rest.acc, fired: tima == 0xFF || rest.fired }
    } else {
        TimaRun { tima, acc, fired: false }
    }
}

/// One timer advance by `cycles`: DIV always counts; TIMA counts only when
/// enabled, at the TAC-selected rate.
pub open spec fn spec_tick(t: Timer, cycles: u8) -> TickOut {
    let div2 = crate::arith::wadd16(t.div_counter, cycles as int);
    if spec_timer_enabled(t) {
        let run = spec_tima_run(
            t.tima,
            t.tma,
            t.tima_counter + cycles,
            spec_tima_period(t) as int,
        );
        TickOut {
            timer: Timer {
                div_counter: div2,
                tima: run.tima,
                tma: t.tma,
                tac: t.tac,
                tima_counter: run.acc as u16,
            },
            overflow: run.fired,
        }
    } else {
        TickOut {
            timer: Timer {
                div_counter: div2,
                tima: t.tima,
                tma: t.tma,
                tac: t.tac,
                tima_counter: t.tima_counter,
            },
            overflow: false,
        }
    }
}

/// Register read decode for 0xFF04..=0xFF07.
pub open spec fn spec_timer_read(t: Timer, address: u16) -> u8 {
    if address == 0xFF04 {
        crate::arith::hi8(t.div_counter)
    } else if address == 0xFF05 {
        t.tima
    } else if address == 0xFF06 {
        t.tma
    } else {
        t.tac
    }
}

/// Register write decode for 0xFF04..=0xFF07: a DIV write clears the divider
/// counter (the value is ignored); the others are direct assignments.
pub open spec fn spec_timer_write(t: Timer, address: u16, value: u8) -> Timer {
    if address == 0xFF04 {
        Timer { div_counter: 0, tima: t.tima, tma: t.tma, tac: t.tac, tima_counter: t.tima_counter }
    } else if address == 0xFF05 {
        Timer { div_counter: t.div_counter, tima: value, tma: t.tma, tac: t.tac, tima_counter: t.tima_counter }
    } else if address == 0xFF06 {
        Timer { div_counter: t.div_counter, tima: t.tima, tma: value, tac: t.tac, tima_counter: t.tima_counter }
    } else {
        Timer { div_counter: t.div_counter, tima: t.tima, tma: t.tma, tac: value, tima_counter: t.tima_counter }
    }
}

/// After folding, the accumulator is the remainder of the cycles by the
/// period, and when TIMA does not wrap it has grown by the quotient.
pub proof fn lemma_tima_run_division(tima: u8, tma: u8, acc: int, period: int)
    requires
        period >= 1,
        acc >= 0,
    ensures
        spec_tima_run(tima, tma, acc, period).acc == acc % period,
        tima + acc / period <= 255 ==> spec_tima_run(tima, tma, acc, period).tima == tima + acc / period
            && !spec_tima_run(tima, tma, acc, period).fired,
        tima + acc / period > 255 ==> spec_tima_run(tima, tma, acc, period).fired,
    decreases acc,
{
    if acc >= period {
        assert((acc - period) / period == acc / period - 1 && (acc - period) % period == acc % period)
            by (nonlinear_arith)
            requires
                acc >= period,
                period >= 1,
        ;
        let next = if tima == 0xFF {
            tma
        } else {
            (tima + 1) as u8
        };
        lemma_tima_run_division(next, tma, acc - period, period);
    } else {
        assert(acc % period == acc && acc / period == 0) by (nonlinear_arith)
            requires
                0 <= acc < period,
        ;
    }
}

impl Timer {
    /// The cycle accumulator always holds less than one full (largest) period.
    pub open spec fn wf(self) -> bool {
        self.tima_counter < 1024
    }

    pub fn new() -> (t: Timer)
        ensures
            t == (Timer { div_counter: 0, tima: 0, tma: 0, tac: 0, tima_counter: 0 }),
            t.wf(),
    {
        Timer { div_counter: 0, tima: 0, tma: 0, tac: 0, tima_counter: 0 }
    }

    /// Bit 2 of TAC gates TIMA counting.
    pub fn is_timer_enabled(&self) -> (enabled: bool)
        ensures
            enabled == spec_timer_enabled(*self),
    {
        self.tac / 4 % 2 == 1
    }

    /// Cycles per TIMA increment, from the low two bits of TAC.
    pub fn get_tima_frequency(&self) -> (period: u16)
        ensures
            period == spec_tima_period(*self),
            16 <= period <= 1024,
    {
        let sel: u8 = self.tac % 4;
        if sel == 0 {
            1024
        } else if sel == 1 {
            16
        } else if sel == 2 {
            64
        } else {
            256
        }
    }

    /// Advance the timer by `cycles`; the result reports whether TIMA
    /// overflowed (0xFF to 0x00, reloading TMA) during this call.
    pub fn tick(&mut self, cycles: u8) -> (overflow: bool)
        requires
            old(self).wf(),
        ensures
            final(self).wf(),
            *final(self) == spec_tick(*old(self), cycles).timer,
            overflow == spec_tick(*old(self), cycles).overflow,
    {
        self.div_counter = self.div_counter.wrapping_add(cycles as u16);
        let mut fired = false;
        if self.is_timer_enabled() {
            let period: u16 = self.get_tima_frequency();
            let ghost acc0: int = old(self).tima_counter + cycles;
            let mut acc: u16 = self.tima_counter + cycles as u16;
            while acc >= period
                invariant
                    16 <= period <= 1024,
                    period == spec_tima_period(*old(self)),
                    self.div_counter == spec_tick(*old(self), cycles).timer.div_counter,
                    self.tma == old(self).tma,
                    self.tac == old(self).tac,
                    self.tima_counter == old(self).tima_counter,
                    spec_tima_run(old(self).tima, old(self).tma, acc0, period as int)
                        == ({
                        let rest = spec_tima_run(self.tima, self.tma, acc as int, period as int);
                        TimaRun { tima: rest.tima, acc: rest.acc, fired: fired || rest.fired }
                    }),
                decreases acc,
            {
                acc = acc - period;
                if self.tima == 0xFF {
                    self.tima = self.tma;
                    fired = true;
                } else {
                    self.tima = self.tima + 1;
                }
            }
            self.tima_counter = acc;
        }
        fired
    }

    /// Read one of the memory-mapped registers DIV/TIMA/TMA/TAC.
    pub fn read_register(&self, address: u16) -> (value: u8)
        requires
            0xFF04 <= address <= 0xFF07,
        ensures
            value == spec_timer_read(*self, address),
    {
        if address == 0xFF04 {
            (self.div_counter / 256) as u8
        } else if address == 0xFF05 {
            self.tima
        } else if address == 0xFF06 {
            self.tma
        } else {
            self.tac
        }
    }

    /// Write one of the memory-mapped registers DIV/TIMA/TMA/TAC.
    pub fn write_register(&mut self, address: u16, value: u8)
        requires
            0xFF04 <= address <= 0xFF07,
            old(self).wf(),
        ensures
            final(self).wf(),
            *final(self) == spec_timer_write(*old(self), address, value),
    {
        if address == 0xFF04 {
            self.div_counter = 0;
        } else if address == 0xFF05 {
            self.tima = value;
        } else if address == 0xFF06 {
            self.tma = value;
        } else {
            self.tac = value;
        }
    }
}

impl Default for Timer {
    fn default() -> (t: Timer)
        ensures
            t == (Timer { div_counter: 0, tima: 0, tma: 0, tac: 0, tima_counter: 0 }),
            t.wf(),
    {
        Timer::new()
    }
}

/// The divider half of the timer advances the same way whatever TAC holds:
/// enabling, disabling or retiming TIMA never disturbs DIV.
pub proof fn lemma_div_unaffected_by_tac(t1: Timer, t2: Timer, cycles: u8)
    requires
        t1.div_counter == t2.div_counter,
    ensures
        spec_tick(t1, cycles).timer.div_counter == spec_tick(t2, cycles).timer.div_counter,
{
}

/// Any write to 0xFF04 makes DIV read back as zero.
pub proof fn lemma_div_write_resets(t: Timer, value: u8)
    ensures
        spec_timer_read(spec_timer_write(t, 0xFF04, value), 0xFF04) == 0,
{
}

/// With TIMA counting enabled, one tick call increments TIMA exactly once per
/// elapsed period of the TAC-selected window (the accumulator keeps the
/// remainder), as long as TIMA does not wrap past 0xFF.
pub proof fn lemma_tima_rate(t: Timer, cycles: u8)
    requires
        t.wf(),
        spec_timer_enabled(t),
    ensures
        spec_tick(t, cycles).timer.tima_counter
            == (t.tima_counter + cycles) % (spec_tima_period(t) as int),
        t.tima + (t.tima_counter + cycles) / (spec_tima_period(t) as int) <= 255
            ==> spec_tick(t, cycles).timer.tima
                == t.tima + (t.tima_counter + cycles) / (spec_tima_period(t) as int)
            && !spec_tick(t, cycles).overflow,
        t.tima + (t.tima_counter + cycles) / (spec_tima_period(t) as int) > 255
            ==> spec_tick(t, cycles).overflow,
{
    lemma_tima_run_division(t.tima, t.tma, t.tima_counter + cycles, spec_tima_period(t) as int);
}

/// Disabling TIMA suppresses increments without clearing the counter or the
/// accumulator.
pub proof fn lemma_tima_disabled(t: Timer, cycles: u8)
    requires
        !spec_timer_enabled(t),
    ensures
        spec_tick(t, cycles).timer.tima == t.tima,
        spec_tick(t, cycles).timer.tima_counter == t.tima_counter,
        !spec_tick(t, cycles).overflow,
{
}

/// On the tick in which TIMA passes 0xFF exactly once, it reloads TMA and the
/// overflow is reported.
pub proof fn lemma_overflow_loads_tma(t: Timer, cycles: u8)
    requires
        t.wf(),
        spec_timer_enabled(t),
        t.tima == 0xFF,
        spec_tima_period(t) <= t.tima_counter + cycles < 2 * spec_tima_period(t),
    ensures
        spec_tick(t, cycles).overflow,
        spec_tick(t, cycles).timer.tima == t.tma,
{
    let p = spec_tima_period(t) as int;
    let acc = t.tima_counter + cycles as int;
    assert(spec_tima_run(t.tma, t.tma, acc - p, p) == (TimaRun { tima: t.tma, acc: acc - p, fired: false }));
}

} // verus!
