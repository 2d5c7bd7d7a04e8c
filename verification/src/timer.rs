//! The programmable timer: the free-running DIV counter and the TIMA/TMA/TAC
//! counter that raises the timer interrupt on overflow.

use vstd::prelude::*;
use vstd::wrapping::u8_specs;

verus! {

pub const ADDR_DIV: u16 = 0xFF04;

pub const ADDR_TIMA: u16 = 0xFF05;

pub const ADDR_TMA: u16 = 0xFF06;

pub const ADDR_TAC: u16 = 0xFF07;

/// Outcome of advancing the timer: whether the timer interrupt fired.
pub struct TimerResult {
    pub interrupt: bool,
}

pub struct Timer {
    pub div: u8,
    pub tima: u8,
    pub tma: u8,
    pub tac_enabled: bool,
    /// TAC bits 1..0: the clock select.
    pub tac_freq: u8,
    pub div_cycles: usize,
    pub tima_cycles: usize,
}

/// CPU cycles per TIMA increment for a TAC clock select.
pub open spec fn spec_tac_cycles(freq: u8) -> usize {
    if freq == 0 {
        1024
    } else if freq == 1 {
        16
    } else if freq == 2 {
        64
    } else {
        256
    }
}

/// Runs the TIMA counter over an accumulated cycle count: one increment per
/// `thr` cycles; on overflow TIMA reloads from TMA and the interrupt fires.
/// Returns the new TIMA, the cycles left over, and whether any overflow
/// happened.
pub open spec fn spec_tima_steps(tima: u8, tma: u8, acc: int, thr: int) -> (u8, int, bool)
    decreases acc,
{
    if thr <= 0 || acc < thr {
        (tima, acc, false)
    } else {
        let next = if tima == 0xFF {
            tma
        } else {
            (tima + 1) as u8
        };
        let rest = spec_tima_steps(next, tma, acc - thr, thr);
        (rest.0, rest.1, rest.2 || tima == 0xFF)
    }
}

impl Timer {
    pub open spec fn wf(self) -> bool {
        &&& self.tac_freq < 4
        &&& self.div_cycles < 256
        &&& self.tima_cycles < spec_tac_cycles(self.tac_freq)
    }

    /// The state and interrupt after `cycles` CPU cycles: DIV advances once
    /// per 256 cycles whatever TAC says; TIMA advances only when TAC enables
    /// it, at the selected rate.
    pub open spec fn spec_step(self, cycles: usize) -> (Timer, bool) {
        let dc = self.div_cycles + cycles;
        let div2: u8 = if dc >= 256 {
            u8_specs::wrapping_add(self.div, 1)
        } else {
            self.div
        };
        let dc2: int = if dc >= 256 {
            dc - 256
        } else {
            dc
        };
        if self.tac_enabled {
            let thr = spec_tac_cycles(self.tac_freq);
            let stepped = spec_tima_steps(self.tima, self.tma, self.tima_cycles + cycles, thr as int);
            (
                Timer {
                    div: div2,
                    div_cycles: dc2 as usize,
                    tima: stepped.0,
                    tima_cycles: stepped.1 as usize,
                    ..self
                },
                stepped.2,
            )
        } else {
            (Timer { div: div2, div_cycles: dc2 as usize, ..self }, false)
        }
    }

    /// What a read of a timer register returns; other addresses read 0.
    pub open spec fn spec_read(self, addr: u16) -> u8 {
        if addr == ADDR_DIV {
            self.div
        } else if addr == ADDR_TIMA {
            self.tima
        } else if addr == ADDR_TMA {
            self.tma
        } else if addr == ADDR_TAC {
            (0xF8 + (if self.tac_enabled { 4 } else { 0 as int }) + self.tac_freq) as u8
        } else {
            0
        }
    }

    /// What a write does: DIV clears the whole counter, TAC discards the
    /// partial accumulation.
    pub open spec fn spec_write(self, addr: u16, val: u8) -> Timer {
        if addr == ADDR_DIV {
            Timer { div: 0, div_cycles: 0, tima_cycles: 0, ..self }
        } else if addr == ADDR_TIMA {
            Timer { tima: val, ..self }
        } else if addr == ADDR_TMA {
            Timer { tma: val, ..self }
        } else if addr == ADDR_TAC {
            Timer {
                tac_enabled: val & 0x04 == 0x04,
                tac_freq: (val % 4) as u8,
                tima_cycles: 0,
                ..self
            }
        } else {
            self
        }
    }

    pub fn new() -> (r: Timer)
        ensures
            r == (Timer {
                div: 0xAB,
                tima: 0,
                tma: 0,
                tac_enabled: false,
                tac_freq: 0,
                div_cycles: 0,
                tima_cycles: 0,
            }),
            r.wf(),
    {
        Timer {
            div: 0xAB,
            tima: 0,
            tma: 0,
            tac_enabled: false,
            tac_freq: 0,
            div_cycles: 0,
            tima_cycles: 0,
        }
    }

    pub fn step(&mut self, cycles: usize) -> (r: TimerResult)
        requires
            old(self).wf(),
            cycles <= 255,
        ensures
            (*final(self), r.interrupt) == old(self).spec_step(cycles),
            final(self).wf(),
    {
        let mut interrupt = false;

        self.div_cycles = self.div_cycles + cycles;
        if self.div_cycles >= 256 {
            self.div = self.div.wrapping_add(1);
            self.div_cycles = self.div_cycles - 256;
        }

        if self.tac_enabled {
            self.tima_cycles = self.tima_cycles + cycles;
            let thr = self.tac_cycles();
            let ghost pre = *self;
            let ghost t0 = self.tima;
            let ghost acc0 = self.tima_cycles as int;
            while self.tima_cycles >= thr
                invariant
                    thr == spec_tac_cycles(self.tac_freq),
                    self.tac_freq < 4,
                    self.tima_cycles <= acc0,
                    self.div == pre.div,
                    self.div_cycles == pre.div_cycles,
                    self.tma == pre.tma,
                    self.tac_enabled == pre.tac_enabled,
                    self.tac_freq == pre.tac_freq,
                    spec_tima_steps(t0, self.tma, acc0, thr as int)
                        == {
                            let rest = spec_tima_steps(
                                self.tima,
                                self.tma,
                                self.tima_cycles as int,
                                thr as int,
                            );
                            (rest.0, rest.1, rest.2 || interrupt)
                        },
                decreases self.tima_cycles,
            {
                if self.tima == 0xFF {
                    self.tima = self.tma;
                    interrupt = true;
                } else {
                    self.tima = self.tima + 1;
                }
                self.tima_cycles = self.tima_cycles - thr;
            }
        }

        TimerResult { interrupt }
    }

    /// CPU cycles per TIMA increment under the current clock select.
    pub fn tac_cycles(&self) -> (r: usize)
        requires
            self.tac_freq < 4,
        ensures
            r == spec_tac_cycles(self.tac_freq),
    {
        if self.tac_freq == 0 {
            1024
        } else if self.tac_freq == 1 {
            16
        } else if self.tac_freq == 2 {
            64
        } else {
            256
        }
    }

    pub fn read(&self, addr: u16) -> (r: u8)
        requires
            self.wf(),
        ensures
            r == self.spec_read(addr),
    {
        if addr == ADDR_DIV {
            self.div
        } else if addr == ADDR_TIMA {
            self.tima
        } else if addr == ADDR_TMA {
            self.tma
        } else if addr == ADDR_TAC {
            0xF8 + (if self.tac_enabled { 4 } else { 0 }) + self.tac_freq
        } else {
            0
        }
    }

    pub fn write(&mut self, addr: u16, val: u8)
        requires
            old(self).wf(),
        ensures
            *final(self) == old(self).spec_write(addr, val),
            final(self).wf(),
    {
        if addr == ADDR_DIV {
            self.div = 0;
            self.div_cycles = 0;
            self.tima_cycles = 0;
        } else if addr == ADDR_TIMA {
            self.tima = val;
        } else if addr == ADDR_TMA {
            self.tma = val;
        } else if addr == ADDR_TAC {
            self.tac_enabled = (val & 0x04) == 0x04;
            self.tac_freq = val % 4;
            self.tima_cycles = 0;
        }
    }
}

} // verus!
