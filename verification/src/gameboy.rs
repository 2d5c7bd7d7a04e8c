//! The whole machine: one CPU step fanned out to the timer, serial port,
//! display and joypad, with their interrupt requests folded into IF. The
//! host around it owns only the window, the clock and the key map.

use vstd::prelude::*;
use crate::bus::{Bus, BusView};
use crate::cartridge::Cartridge;
use crate::cpu::{Cpu, Interrupt, spec_step, spec_interrupt_mask};
use crate::joypad::{Button, Joypad};

verus! {

/// What one whole-machine step reports: the cycles the CPU consumed, and
/// whether the display entered VBlank (the moment to present the frame).
pub struct StepResult {
    pub cycles: usize,
    pub vblank: bool,
}

pub struct Gameboy {
    pub cpu: Cpu,
    pub bus: Bus,
}

/// The bus with one interrupt source's IF bit raised when `raise` holds;
/// the CPU also wakes from halt.
pub open spec fn spec_fold_interrupt(cpu: Cpu, bus: BusView, raise: bool, i: Interrupt) -> (
    Cpu,
    BusView,
) {
    if raise {
        (
            Cpu { halted: false, ..cpu },
            BusView { io_if: bus.io_if | spec_interrupt_mask(i), ..bus },
        )
    } else {
        (cpu, bus)
    }
}

/// One whole-machine step: the CPU runs one step, the cycle count feeds
/// the timer, serial port, display and joypad in that order, and each
/// peripheral's interrupt request lands in IF.
pub open spec fn spec_system_step(cpu: Cpu, bus: BusView, buttons: Button, buf: Seq<u32>) -> (
    Cpu,
    BusView,
    Seq<u32>,
    usize,
    bool,
) {
    let s = spec_step(cpu, bus);
    let c1 = s.0;
    let n = s.2;
    let t = s.1.timer.spec_step(n);
    let b2 = BusView { timer: t.0, ..s.1 };
    let se = b2.serial.spec_step(n);
    let b3 = BusView { serial: se.0, ..b2 };
    let l = b3.lcd.spec_step(n, buf);
    let b4 = BusView { lcd: l.0, ..b3 };
    let jp_pins = b4.joypad.spec_step_pins(buttons);
    let jp_int = b4.joypad.spec_step_interrupt(buttons);
    let b5 = BusView { joypad: Joypad { pins: jp_pins }, ..b4 };
    let f1 = spec_fold_interrupt(c1, b5, t.1, Interrupt::Timer);
    let f2 = spec_fold_interrupt(f1.0, f1.1, se.1, Interrupt::Serial);
    let f3 = spec_fold_interrupt(f2.0, f2.1, l.3, Interrupt::Stat);
    let f4 = spec_fold_interrupt(f3.0, f3.1, jp_int, Interrupt::Joypad);
    let f5 = spec_fold_interrupt(f4.0, f4.1, l.2, Interrupt::VBlank);
    (f5.0, f5.1, l.1, n, l.2)
}

impl Gameboy {
    pub fn new(cartridge: Cartridge) -> (r: Gameboy)
        requires
            cartridge@.wf(),
        ensures
            r.bus@.wf(),
            r.bus@.cartridge == cartridge@,
            r.cpu.ime == true,
            r.cpu.halted == false,
    {
        Gameboy { cpu: Cpu::new(), bus: Bus::new(cartridge) }
    }

    /// Loads the documented power-on register values into the CPU.
    pub fn power_on(&mut self)
        ensures
            final(self).cpu == (Cpu {
                regs: crate::registers::Registers {
                    a: 0x01u8,
                    f: 0xB0u8,
                    b: 0x00u8,
                    c: 0x13u8,
                    d: 0x00u8,
                    e: 0xD8u8,
                    h: 0x01u8,
                    l: 0x4Du8,
                    sp: 0xFFFEu16,
                    pc: 0x0100u16,
                },
                ime: true,
                halted: old(self).cpu.halted,
            }),
            final(self).bus == old(self).bus,
    {
        self.cpu.reset();
    }

    /// One whole-machine step; the screen buffer gains any line the display
    /// rendered, and `vblank` says a full frame is ready to present.
    pub fn step(&mut self, buttons: Button, screen_buffer: &mut Vec<u32>) -> (r: StepResult)
        requires
            old(self).bus@.wf(),
            old(screen_buffer)@.len() == 160 * 144,
        ensures
            ({
                let s = spec_system_step(
                    old(self).cpu,
                    old(self).bus@,
                    buttons,
                    old(screen_buffer)@,
                );
                final(self).cpu == s.0 && final(self).bus@ == s.1
                    && final(screen_buffer)@ == s.2 && r.cycles == s.3 && r.vblank == s.4
            }),
            final(self).bus@.wf(),
            final(screen_buffer)@.len() == 160 * 144,
            r.cycles <= 24,
    {
        let cycles = self.cpu.step(&mut self.bus);

        let timer_result = self.bus.timer.step(cycles);
        let serial_result = self.bus.serial.step(cycles);
        let lcd_result = self.bus.lcd.step(cycles, screen_buffer);
        let joypad_result = self.bus.joypad.step(buttons);

        if timer_result.interrupt {
            self.cpu.interrupt(&mut self.bus, Interrupt::Timer);
        }
        if serial_result.interrupt {
            self.cpu.interrupt(&mut self.bus, Interrupt::Serial);
        }
        if lcd_result.int_stat {
            self.cpu.interrupt(&mut self.bus, Interrupt::Stat);
        }
        if joypad_result.interrupt {
            self.cpu.interrupt(&mut self.bus, Interrupt::Joypad);
        }
        if lcd_result.int_vblank {
            self.cpu.interrupt(&mut self.bus, Interrupt::VBlank);
        }

        StepResult { cycles, vblank: lcd_result.int_vblank }
    }
}

} // verus!
