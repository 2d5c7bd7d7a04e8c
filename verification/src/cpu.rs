//! The CPU core: the register file with the interrupt-master and halt
//! latches, the fetch helpers, stack discipline, interrupt arbitration, and
//! the published cycle tables.

use vstd::prelude::*;
use vstd::wrapping::u16_specs;
use crate::bus::{Bus, BusView, IO_IE_ADDR, IO_IF_ADDR};
use crate::registers::{Registers, word_of, high_byte, low_byte};
use crate::bitops::{lemma_u8_and_le, lemma_u8_mask_f0};

verus! {

broadcast use lemma_u8_and_le, lemma_u8_mask_f0;

/// A condition a control-flow instruction can test; `Always` is the
/// unconditional variant.
#[derive(Copy, Clone, PartialEq, Eq, Structural, Debug)]
pub enum Condition {
    Always,
    Z,
    C,
    Nz,
    Nc,
}

/// The five interrupt sources, highest priority first.
#[derive(Copy, Clone, PartialEq, Eq, Structural, Debug)]
pub enum Interrupt {
    VBlank,
    Stat,
    Timer,
    Serial,
    Joypad,
}

/// The IF / IE bit of an interrupt source.
pub open spec fn spec_interrupt_mask(i: Interrupt) -> u8 {
    match i {
        Interrupt::VBlank => 0x01,
        Interrupt::Stat => 0x02,
        Interrupt::Timer => 0x04,
        Interrupt::Serial => 0x08,
        Interrupt::Joypad => 0x10,
    }
}

/// The fixed vector an interrupt dispatches to.
pub open spec fn spec_interrupt_start_address(i: Interrupt) -> u16 {
    match i {
        Interrupt::VBlank => 0x40,
        Interrupt::Stat => 0x48,
        Interrupt::Timer => 0x50,
        Interrupt::Serial => 0x58,
        Interrupt::Joypad => 0x60,
    }
}

pub fn interrupt_mask(i: Interrupt) -> (r: u8)
    ensures
        r == spec_interrupt_mask(i),
{
    match i {
        Interrupt::VBlank => 0x01,
        Interrupt::Stat => 0x02,
        Interrupt::Timer => 0x04,
        Interrupt::Serial => 0x08,
        Interrupt::Joypad => 0x10,
    }
}

pub fn interrupt_start_address(i: Interrupt) -> (r: u16)
    ensures
        r == spec_interrupt_start_address(i),
{
    match i {
        Interrupt::VBlank => 0x40,
        Interrupt::Stat => 0x48,
        Interrupt::Timer => 0x50,
        Interrupt::Serial => 0x58,
        Interrupt::Joypad => 0x60,
    }
}

pub struct Cpu {
    pub regs: Registers,
    pub ime: bool,
    pub halted: bool,
}

/// Whether the registers satisfy condition `cond`.
pub open spec fn spec_condition_met(regs: Registers, cond: Condition) -> bool {
    match cond {
        Condition::Always => true,
        Condition::C => regs.f & 0x10 == 0x10,
        Condition::Z => regs.f & 0x80 == 0x80,
        Condition::Nc => regs.f & 0x10 != 0x10,
        Condition::Nz => regs.f & 0x80 != 0x80,
    }
}

/// The highest-priority interrupt that is both requested and enabled.
pub open spec fn spec_pending_interrupt(bus: BusView) -> Option<Interrupt> {
    let m = bus.io_if & bus.io_ie & 0x1F;
    if m & 0x01 == 0x01 {
        Some(Interrupt::VBlank)
    } else if m & 0x02 == 0x02 {
        Some(Interrupt::Stat)
    } else if m & 0x04 == 0x04 {
        Some(Interrupt::Timer)
    } else if m & 0x08 == 0x08 {
        Some(Interrupt::Serial)
    } else if m & 0x10 == 0x10 {
        Some(Interrupt::Joypad)
    } else {
        None
    }
}

/// The CPU and bus after pushing `val`: high byte at SP-1, low byte at
/// SP-2, SP down by two.
pub open spec fn spec_push(cpu: Cpu, bus: BusView, val: u16) -> (Cpu, BusView) {
    let sp = cpu.regs.sp;
    let b1 = bus.spec_write(u16_specs::wrapping_sub(sp, 2), low_byte(val));
    let b2 = b1.spec_write(u16_specs::wrapping_sub(sp, 1), high_byte(val));
    (
        Cpu { regs: Registers { sp: u16_specs::wrapping_sub(sp, 2), ..cpu.regs }, ..cpu },
        b2,
    )
}

/// The CPU and popped word: low byte at SP, high byte at SP+1, SP up by two.
pub open spec fn spec_pop(cpu: Cpu, bus: BusView) -> (Cpu, u16) {
    let sp = cpu.regs.sp;
    let low = bus.spec_read(sp);
    let high = bus.spec_read(u16_specs::wrapping_add(sp, 1));
    (
        Cpu { regs: Registers { sp: u16_specs::wrapping_add(sp, 2), ..cpu.regs }, ..cpu },
        word_of(high, low),
    )
}

/// Dispatch: push PC, jump to the source's vector, clear IME, and clear the
/// source's IF bit — and nothing else.
pub open spec fn spec_handle_interrupt(cpu: Cpu, bus: BusView, i: Interrupt) -> (Cpu, BusView) {
    let pushed = spec_push(cpu, bus, cpu.regs.pc);
    let c1 = pushed.0;
    let b1 = pushed.1;
    (
        Cpu {
            regs: Registers { pc: spec_interrupt_start_address(i), ..c1.regs },
            ime: false,
            ..c1
        },
        BusView { io_if: b1.io_if & !spec_interrupt_mask(i), ..b1 },
    )
}

/// What one CPU step does. In order: if an interrupt is pending and IME is
/// set, it dispatches (20 cycles, 24 clearing a halt); if one is pending
/// with IME clear and the CPU halted, the halt clears (4 cycles); a halted
/// CPU otherwise idles (4 cycles); else the opcode at PC is fetched (a
/// second byte after 0xCB), decoded, executed, and the cycle table's
/// taken or not-taken column is charged.
pub open spec fn spec_step(cpu: Cpu, bus: BusView) -> (Cpu, BusView, usize) {
    let pending = spec_pending_interrupt(bus);
    if pending is Some && cpu.ime {
        let h = spec_handle_interrupt(cpu, bus, pending->0);
        if cpu.halted {
            (Cpu { halted: false, ..h.0 }, h.1, 24)
        } else {
            (h.0, h.1, 20)
        }
    } else if pending is Some && cpu.halted {
        (Cpu { halted: false, ..cpu }, bus, 4)
    } else if cpu.halted {
        (cpu, bus, 4)
    } else {
        let op0 = bus.spec_read(cpu.regs.pc);
        let pc1 = u16_specs::wrapping_add(cpu.regs.pc, 1);
        if op0 == 0xCB {
            let op = bus.spec_read(pc1);
            let pc2 = u16_specs::wrapping_add(pc1, 1);
            let d = crate::instructions::spec_decode(bus, pc2, op, true);
            let c1 = Cpu { regs: Registers { pc: d.1, ..cpu.regs }, ..cpu };
            let e = crate::instructions::spec_execute(c1, bus, d.0);
            (e.0, e.1, if e.2 { spec_prefixed_cycles(op).0 } else { spec_prefixed_cycles(op).1 })
        } else {
            let d = crate::instructions::spec_decode(bus, pc1, op0, false);
            let c1 = Cpu { regs: Registers { pc: d.1, ..cpu.regs }, ..cpu };
            let e = crate::instructions::spec_execute(c1, bus, d.0);
            (e.0, e.1, if e.2 { spec_cycles(op0).0 } else { spec_cycles(op0).1 })
        }
    }
}

/// Clock cycles of each unprefixed opcode, as (taken, not-taken) columns.
pub open spec fn spec_cycles(op: u8) -> (usize, usize) {
    if op == 0x02 || op == 0x03 || op == 0x06 || op == 0x09 || op == 0x0A || op == 0x0B
        || op == 0x0E || op == 0x12 || op == 0x13 || op == 0x16 || op == 0x19 || op == 0x1A
        || op == 0x1B || op == 0x1E || op == 0x22 || op == 0x23 || op == 0x26 || op == 0x29
        || op == 0x2A || op == 0x2B || op == 0x2E || op == 0x32 || op == 0x33 || op == 0x39
        || op == 0x3A || op == 0x3B || op == 0x3E || op == 0x46 || op == 0x4E || op == 0x56
        || op == 0x5E || op == 0x66 || op == 0x6E || op == 0x70 || op == 0x71 || op == 0x72
        || op == 0x73 || op == 0x74 || op == 0x75 || op == 0x76 || op == 0x77 || op == 0x7E
        || op == 0x86 || op == 0x8E || op == 0x96 || op == 0x9E || op == 0xA6 || op == 0xAE
        || op == 0xB6 || op == 0xBE || op == 0xC6 || op == 0xCE || op == 0xD6 || op == 0xDE
        || op == 0xE2 || op == 0xE6 || op == 0xEE || op == 0xF2 || op == 0xF6 || op == 0xF9
        || op == 0xFE {
        (8, 8)
    } else if op == 0xC3 || op == 0xC5 || op == 0xC7 || op == 0xC9 || op == 0xCF || op == 0xD5
        || op == 0xD7 || op == 0xD9 || op == 0xDF || op == 0xE5 || op == 0xE7 || op == 0xE8
        || op == 0xEA || op == 0xEF || op == 0xF5 || op == 0xF7 || op == 0xFA || op == 0xFF {
        (16, 16)
    } else if op == 0x01 || op == 0x11 || op == 0x18 || op == 0x21 || op == 0x31 || op == 0x34
        || op == 0x35 || op == 0x36 || op == 0xC1 || op == 0xD1 || op == 0xE1 || op == 0xF1
        || op == 0xE0 || op == 0xF0 || op == 0xF8 {
        (12, 12)
    } else if op == 0x20 || op == 0x28 || op == 0x30 || op == 0x38 {
        (12, 8)
    } else if op == 0xC0 || op == 0xC8 || op == 0xD0 || op == 0xD8 {
        (20, 8)
    } else if op == 0xC2 || op == 0xCA || op == 0xD2 || op == 0xDA {
        (16, 12)
    } else if op == 0xC4 || op == 0xCC || op == 0xD4 || op == 0xDC {
        (24, 12)
    } else if op == 0xCD {
        (24, 24)
    } else if op == 0x08 {
        (20, 20)
    } else if op == 0xD3 || op == 0xDB || op == 0xDD || op == 0xE3 || op == 0xE4 || op == 0xEB
        || op == 0xEC || op == 0xED || op == 0xF4 || op == 0xFC || op == 0xFD {
        (0, 0)
    } else {
        (4, 4)
    }
}

/// Clock cycles of each 0xCB-prefixed opcode: 8 for register forms, 16 for
/// the (HL) forms, 12 for BIT on (HL).
pub open spec fn spec_prefixed_cycles(op: u8) -> (usize, usize) {
    if op & 0x07 == 0x06 {
        if 0x40 <= op && op < 0x80 {
            (12, 12)
        } else {
            (16, 16)
        }
    } else {
        (8, 8)
    }
}

/// Clock cycles of each unprefixed opcode, as (taken, not-taken) columns.
pub fn cycles_for(op: u8) -> (r: (usize, usize))
    ensures
        r == spec_cycles(op),
        r.0 <= 24,
        r.1 <= 24,
{
    match op {
        0x02 | 0x03 | 0x06 | 0x09 | 0x0A | 0x0B | 0x0E | 0x12 | 0x13 | 0x16 | 0x19 | 0x1A
            | 0x1B | 0x1E | 0x22 | 0x23 | 0x26 | 0x29 | 0x2A | 0x2B | 0x2E | 0x32 | 0x33
            | 0x39 | 0x3A | 0x3B | 0x3E | 0x46 | 0x4E | 0x56 | 0x5E | 0x66 | 0x6E | 0x70
            | 0x71 | 0x72 | 0x73 | 0x74 | 0x75 | 0x76 | 0x77 | 0x7E | 0x86 | 0x8E | 0x96
            | 0x9E | 0xA6 | 0xAE | 0xB6 | 0xBE | 0xC6 | 0xCE | 0xD6 | 0xDE | 0xE2 | 0xE6
            | 0xEE | 0xF2 | 0xF6 | 0xF9 | 0xFE => (8, 8),
        0xC3 | 0xC5 | 0xC7 | 0xC9 | 0xCF | 0xD5 | 0xD7 | 0xD9 | 0xDF | 0xE5 | 0xE7 | 0xE8
            | 0xEA | 0xEF | 0xF5 | 0xF7 | 0xFA | 0xFF => (16, 16),
        0x01 | 0x11 | 0x18 | 0x21 | 0x31 | 0x34 | 0x35 | 0x36 | 0xC1 | 0xD1 | 0xE1 | 0xF1
            | 0xE0 | 0xF0 | 0xF8 => (12, 12),
        0x20 | 0x28 | 0x30 | 0x38 => (12, 8),
        0xC0 | 0xC8 | 0xD0 | 0xD8 => (20, 8),
        0xC2 | 0xCA | 0xD2 | 0xDA => (16, 12),
        0xC4 | 0xCC | 0xD4 | 0xDC => (24, 12),
        0xCD => (24, 24),
        0x08 => (20, 20),
        0xD3 | 0xDB | 0xDD | 0xE3 | 0xE4 | 0xEB | 0xEC | 0xED | 0xF4 | 0xFC | 0xFD => (0, 0),
        _ => (4, 4),
    }
}

/// Clock cycles of each 0xCB-prefixed opcode.
pub fn prefixed_cycles_for(op: u8) -> (r: (usize, usize))
    ensures
        r == spec_prefixed_cycles(op),
        r.0 <= 24,
        r.1 <= 24,
{
    if op & 0x07 == 0x06 {
        if 0x40 <= op && op < 0x80 {
            (12, 12)
        } else {
            (16, 16)
        }
    } else {
        (8, 8)
    }
}

impl Cpu {
    pub fn new() -> (r: Cpu)
        ensures
            r == (Cpu {
                regs: Registers {
                    a: 0u8,
                    f: 0u8,
                    b: 0u8,
                    c: 0u8,
                    d: 0u8,
                    e: 0u8,
                    h: 0u8,
                    l: 0u8,
                    sp: 0u16,
                    pc: 0u16,
                },
                ime: true,
                halted: false,
            }),
    {
        Cpu { regs: Registers::new(), ime: true, halted: false }
    }

    /// Loads the documented power-on register values and enables interrupts.
    pub fn reset(&mut self)
        ensures
            *final(self) == (Cpu {
                regs: Registers {
                    a: 0x01u8,
                    f: 0xB0u8,
                    b: 0x00u8,
                    c: 0x13u8,
                    d: 0x00u8,
                    e: 0xD8u8,
                    h: 0x01u8,
                    l: 0x4Du8,
                    sp: 0xFFFEu16,
                    pc: 0x0100u16,
                },
                ime: true,
                halted: old(self).halted,
            }),
    {
        self.regs.set_af(0x01B0);
        self.regs.set_bc(0x0013);
        self.regs.set_de(0x00D8);
        self.regs.set_hl(0x014D);
        self.regs.set_sp(0xFFFE);
        self.regs.set_pc(0x100);
        self.ime = true;
    }

    /// Fetches the byte at PC and advances PC.
    pub fn step_next_byte(&mut self, bus: &Bus) -> (r: u8)
        requires
            bus@.wf(),
        ensures
            r == bus@.spec_read(old(self).regs.pc),
            *final(self) == (Cpu {
                regs: Registers {
                    pc: u16_specs::wrapping_add(old(self).regs.pc, 1),
                    ..old(self).regs
                },
                ..*old(self)
            }),
    {
        let pc = self.regs.pc();
        let byte = bus.read(pc);
        self.regs.set_pc(pc.wrapping_add(1));
        byte
    }

    /// Fetches the little-endian word at PC and advances PC by two.
    pub fn step_next_word(&mut self, bus: &Bus) -> (r: u16)
        requires
            bus@.wf(),
        ensures
            r == word_of(
                bus@.spec_read(u16_specs::wrapping_add(old(self).regs.pc, 1)),
                bus@.spec_read(old(self).regs.pc),
            ),
            *final(self) == (Cpu {
                regs: Registers {
                    pc: u16_specs::wrapping_add(old(self).regs.pc, 2),
                    ..old(self).regs
                },
                ..*old(self)
            }),
    {
        let lb = self.step_next_byte(bus);
        let hb = self.step_next_byte(bus);
        (hb as u16) * 256 + (lb as u16)
    }

    /// Requests an interrupt: sets the source's IF bit and wakes a halted
    /// CPU. No IF bit is cleared.
    pub fn interrupt(&mut self, bus: &mut Bus, interrupt: Interrupt)
        requires
            old(bus)@.wf(),
        ensures
            *final(self) == (Cpu { halted: false, ..*old(self) }),
            final(bus)@ == (BusView {
                io_if: old(bus)@.io_if | spec_interrupt_mask(interrupt),
                ..old(bus)@
            }),
            final(bus)@.wf(),
    {
        self.halted = false;
        bus.io_if = bus.io_if | interrupt_mask(interrupt);
    }

    /// Pops a little-endian word off the stack.
    pub fn pop_stack(&mut self, bus: &Bus) -> (r: u16)
        requires
            bus@.wf(),
        ensures
            (*final(self), r) == spec_pop(*old(self), bus@),
    {
        let addr = self.regs.sp();
        let low = bus.read(addr);
        let high = bus.read(addr.wrapping_add(1));
        self.regs.set_sp(addr.wrapping_add(2));
        (high as u16) * 256 + (low as u16)
    }

    /// Pushes a word: high byte first at SP-1, then low at SP-2.
    pub fn push_stack(&mut self, bus: &mut Bus, val: u16)
        requires
            old(bus)@.wf(),
        ensures
            ({
                let r = spec_push(*old(self), old(bus)@, val);
                *final(self) == r.0 && final(bus)@ == r.1
            }),
            final(bus)@.wf(),
    {
        let addr = self.regs.sp();
        bus.write(addr.wrapping_sub(2), (val % 256) as u8);
        bus.write(addr.wrapping_sub(1), (val / 256) as u8);
        self.regs.set_sp(addr.wrapping_sub(2));
    }

    /// Whether the registers satisfy condition `cond`.
    pub fn condition_met(&self, cond: Condition) -> (r: bool)
        ensures
            r == spec_condition_met(self.regs, cond),
    {
        match cond {
            Condition::Always => true,
            Condition::C => (self.regs.f & 0x10) == 0x10,
            Condition::Z => (self.regs.f & 0x80) == 0x80,
            Condition::Nc => (self.regs.f & 0x10) != 0x10,
            Condition::Nz => (self.regs.f & 0x80) != 0x80,
        }
    }

    /// The highest-priority interrupt that is both requested and enabled.
    pub fn pending_interrupt(&self, bus: &Bus) -> (r: Option<Interrupt>)
        ensures
            r == spec_pending_interrupt(bus@),
    {
        let m = bus.io_if & bus.io_ie & 0x1F;
        if m & 0x01 == 0x01 {
            Some(Interrupt::VBlank)
        } else if m & 0x02 == 0x02 {
            Some(Interrupt::Stat)
        } else if m & 0x04 == 0x04 {
            Some(Interrupt::Timer)
        } else if m & 0x08 == 0x08 {
            Some(Interrupt::Serial)
        } else if m & 0x10 == 0x10 {
            Some(Interrupt::Joypad)
        } else {
            None
        }
    }

    /// Advances the machine by one step and returns the clock cycles it
    /// consumed: a multiple of 4, at most 24.
    pub fn step(&mut self, bus: &mut Bus) -> (cycles: usize)
        requires
            old(bus)@.wf(),
        ensures
            ({
                let r = spec_step(*old(self), old(bus)@);
                *final(self) == r.0 && final(bus)@ == r.1 && cycles == r.2
            }),
            final(bus)@.wf(),
            cycles <= 24,
    {
        let interrupt = self.pending_interrupt(bus);

        match interrupt {
            Some(source) if self.ime => {
                self.handle_interrupt(bus, source);
                if self.halted {
                    self.halted = false;
                    24
                } else {
                    20
                }
            },
            Some(_) if self.halted => {
                self.halted = false;
                4
            },
            _ => {
                if self.halted {
                    4
                } else {
                    let mut opcode = self.step_next_byte(bus);
                    let mut prefixed = false;
                    if opcode == 0xCB {
                        prefixed = true;
                        opcode = self.step_next_byte(bus);
                    }
                    let instruction = crate::instructions::decode(self, bus, opcode, prefixed);
                    let condition_met = crate::instructions::execute(self, bus, &instruction);
                    let columns = if prefixed {
                        prefixed_cycles_for(opcode)
                    } else {
                        cycles_for(opcode)
                    };
                    if condition_met {
                        columns.0
                    } else {
                        columns.1
                    }
                }
            },
        }
    }

    /// Dispatches to the source's vector, clearing IME and the IF bit.
    fn handle_interrupt(&mut self, bus: &mut Bus, interrupt: Interrupt)
        requires
            old(bus)@.wf(),
        ensures
            ({
                let r = spec_handle_interrupt(*old(self), old(bus)@, interrupt);
                *final(self) == r.0 && final(bus)@ == r.1
            }),
            final(bus)@.wf(),
    {
        let addr = interrupt_start_address(interrupt);
        let pc = self.regs.pc();
        self.push_stack(bus, pc);
        self.regs.set_pc(addr);
        self.ime = false;
        bus.io_if = bus.io_if & !interrupt_mask(interrupt);
    }
}

} // verus!
