//! The serial port: the SB shift byte and the SC control register. With the
//! internal clock selected and a transfer enabled, one bit shifts out every
//! 512 CPU cycles; after eight shifts the enable bit clears and the serial
//! interrupt fires.

use vstd::prelude::*;

verus! {

pub const ADDR_SB: u16 = 0xFF01;

pub const ADDR_SC: u16 = 0xFF02;

/// CPU cycles per shifted bit at the 8192 Hz internal clock.
pub const SERIAL_BIT_CYCLES: usize = 512;

/// Outcome of advancing the serial port: whether a byte finished shifting.
pub struct SerialResult {
    pub interrupt: bool,
}

pub struct Serial {
    pub sb: u8,
    pub sc: u8,
    pub transfer_bit: usize,
    pub transfer_bit_cycles: usize,
}

impl Serial {
    pub open spec fn wf(self) -> bool {
        &&& self.transfer_bit < 8
        &&& self.transfer_bit_cycles < 512
    }

    /// Whether the port is shifting: transfer enabled on the internal clock.
    pub open spec fn active(self) -> bool {
        self.sc & 0x80 == 0x80 && self.sc & 0x01 == 0x01
    }

    /// The state and interrupt after `cycles` CPU cycles. While active, one
    /// bit of SB shifts out per 512 cycles; the eighth shift clears the SC
    /// enable bit and raises the interrupt.
    pub open spec fn spec_step(self, cycles: usize) -> (Serial, bool) {
        if self.active() {
            let acc = self.transfer_bit_cycles + cycles;
            if acc >= 512 {
                if self.transfer_bit == 7 {
                    (
                        Serial {
                            sb: self.sb << 1,
                            sc: self.sc & 0x7F,
                            transfer_bit: 0,
                            transfer_bit_cycles: (acc - 512) as usize,
                        },
                        true,
                    )
                } else {
                    (
                        Serial {
                            sb: self.sb << 1,
                            transfer_bit: (self.transfer_bit + 1) as usize,
                            transfer_bit_cycles: (acc - 512) as usize,
                            ..self
                        },
                        false,
                    )
                }
            } else {
                (Serial { transfer_bit_cycles: acc as usize, ..self }, false)
            }
        } else {
            (self, false)
        }
    }

    /// What a read of a serial register returns; other addresses read 0.
    pub open spec fn spec_read(self, addr: u16) -> u8 {
        if addr == ADDR_SB {
            self.sb
        } else if addr == ADDR_SC {
            self.sc
        } else {
            0
        }
    }

    /// What a write does: SC keeps only the enable and clock-select bits.
    pub open spec fn spec_write(self, addr: u16, val: u8) -> Serial {
        if addr == ADDR_SB {
            Serial { sb: val, ..self }
        } else if addr == ADDR_SC {
            Serial { sc: val & 0x81, ..self }
        } else {
            self
        }
    }

    pub fn new() -> (r: Serial)
        ensures
            r == (Serial { sb: 0u8, sc: 0u8, transfer_bit: 0usize, transfer_bit_cycles: 0usize }),
            r.wf(),
    {
        Serial { sb: 0, sc: 0, transfer_bit: 0, transfer_bit_cycles: 0 }
    }

    pub fn step(&mut self, cycles: usize) -> (r: SerialResult)
        requires
            old(self).wf(),
            cycles <= 255,
        ensures
            (*final(self), r.interrupt) == old(self).spec_step(cycles),
            final(self).wf(),
    {
        let mut interrupt = false;

        if (self.sc & 0x80) == 0x80 && (self.sc & 0x01) == 0x01 {
            self.transfer_bit_cycles = self.transfer_bit_cycles + cycles;

            if self.transfer_bit_cycles >= 512 {
                self.sb = self.sb << 1;
                self.transfer_bit_cycles = self.transfer_bit_cycles - 512;

                if self.transfer_bit == 7 {
                    interrupt = true;
                    self.transfer_bit = 0;
                    self.sc = self.sc & 0x7F;
                } else {
                    self.transfer_bit = self.transfer_bit + 1;
                }
            }
        }

        SerialResult { interrupt }
    }

    pub fn read(&self, addr: u16) -> (r: u8)
        ensures
            r == self.spec_read(addr),
    {
        if addr == ADDR_SB {
            self.sb
        } else if addr == ADDR_SC {
            self.sc
        } else {
            0
        }
    }

    pub fn write(&mut self, addr: u16, val: u8)
        requires
            old(self).wf(),
        ensures
            *final(self) == old(self).spec_write(addr, val),
            final(self).wf(),
    {
        if addr == ADDR_SB {
            self.sb = val;
        } else if addr == ADDR_SC {
            self.sc = val & 0x81;
        }
    }
}

} // verus!
