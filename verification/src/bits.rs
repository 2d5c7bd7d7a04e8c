//! Rotate, shift, swap and single-bit instructions. The accumulator
//! rotates always clear Z; the prefixed forms set Z from their result.

use vstd::prelude::*;
use crate::addressing::{Addr8, addr8_read, addr8_write, spec_addr8_read, spec_addr8_write};
use crate::bus::{Bus, BusView};
use crate::cpu::Cpu;
use crate::registers::{Registers, flag_byte, spec_flags};
use crate::bitops::{lemma_u8_and_le, lemma_u8_mask_f0};

verus! {

broadcast use lemma_u8_and_le, lemma_u8_mask_f0;

/// RLCA: rotates A left; C takes the old bit 7, other flags clear.
pub open spec fn spec_rlca(cpu: Cpu) -> Cpu {
    let a = cpu.regs.a;
    Cpu {
        regs: Registers {
            a: (a << 1) | ((a >> 7) & 1),
            f: spec_flags(false, false, false, (a >> 7) & 1 > 0),
            ..cpu.regs
        },
        ..cpu
    }
}

pub fn rlca(cpu: &mut Cpu)
    ensures
        *final(cpu) == spec_rlca(*old(cpu)),
{
    let a = cpu.regs.a();
    let carry = (a >> 7) & 1;
    let f = flag_byte(false, false, false, carry > 0);
    cpu.regs.set_a((a << 1) | carry);
    cpu.regs.set_f(f);
}

/// RLA: rotates A left through the carry; C takes the old bit 7.
pub open spec fn spec_rla(cpu: Cpu) -> Cpu {
    let a = cpu.regs.a;
    let cin: u8 = if cpu.regs.f & 0x10 == 0x10 { 1 } else { 0 };
    Cpu {
        regs: Registers {
            a: (a << 1) | cin,
            f: spec_flags(false, false, false, (a >> 7) & 1 > 0),
            ..cpu.regs
        },
        ..cpu
    }
}

pub fn rla(cpu: &mut Cpu)
    ensures
        *final(cpu) == spec_rla(*old(cpu)),
{
    let a = cpu.regs.a();
    let cin: u8 = if (cpu.regs.f & 0x10) == 0x10 {
        1
    } else {
        0
    };
    let carry = (a >> 7) & 1;
    let f = flag_byte(false, false, false, carry > 0);
    cpu.regs.set_a((a << 1) | cin);
    cpu.regs.set_f(f);
}

/// RRCA: rotates A right; C takes the old bit 0, other flags clear.
pub open spec fn spec_rrca(cpu: Cpu) -> Cpu {
    let a = cpu.regs.a;
    Cpu {
        regs: Registers {
            a: ((a & 1) << 7) | (a >> 1),
            f: spec_flags(false, false, false, a & 1 > 0),
            ..cpu.regs
        },
        ..cpu
    }
}

pub fn rrca(cpu: &mut Cpu)
    ensures
        *final(cpu) == spec_rrca(*old(cpu)),
{
    let a = cpu.regs.a();
    let carry = a & 1;
    let f = flag_byte(false, false, false, carry > 0);
    cpu.regs.set_a((carry << 7) | (a >> 1));
    cpu.regs.set_f(f);
}

/// RRA: rotates A right through the carry; C takes the old bit 0.
pub open spec fn spec_rra(cpu: Cpu) -> Cpu {
    let a = cpu.regs.a;
    let cin: u8 = if cpu.regs.f & 0x10 == 0x10 { 1 } else { 0 };
    Cpu {
        regs: Registers {
            a: (a >> 1) | (cin << 7),
            f: spec_flags(false, false, false, a & 1 == 1),
            ..cpu.regs
        },
        ..cpu
    }
}

pub fn rra(cpu: &mut Cpu)
    ensures
        *final(cpu) == spec_rra(*old(cpu)),
{
    let a = cpu.regs.a();
    let cin: u8 = if (cpu.regs.f & 0x10) == 0x10 {
        1
    } else {
        0
    };
    let f = flag_byte(false, false, false, (a & 1) == 1);
    cpu.regs.set_a((a >> 1) | (cin << 7));
    cpu.regs.set_f(f);
}

/// RLC reg: rotates left; Z from the result, C the old bit 7.
pub open spec fn spec_rlc(cpu: Cpu, bus: BusView, reg: Addr8) -> (Cpu, BusView) {
    let v = spec_addr8_read(cpu, bus, reg);
    let shifted = (v << 1) | ((v >> 7) & 1);
    let w = spec_addr8_write(cpu, bus, reg, shifted);
    let c1 = w.0;
    (
        Cpu {
            regs: Registers {
                f: spec_flags(shifted == 0, false, false, (v >> 7) & 1 > 0),
                ..c1.regs
            },
            ..c1
        },
        w.1,
    )
}

pub fn rlc(cpu: &mut Cpu, bus: &mut Bus, reg: Addr8)
    requires
        old(bus)@.wf(),
    ensures
        ({
            let r = spec_rlc(*old(cpu), old(bus)@, reg);
            *final(cpu) == r.0 && final(bus)@ == r.1
        }),
        final(bus)@.wf(),
{
    let v = addr8_read(cpu, bus, reg);
    let carry = (v >> 7) & 1;
    let shifted = (v << 1) | carry;
    addr8_write(cpu, bus, reg, shifted);
    let f = flag_byte(shifted == 0, false, false, carry > 0);
    cpu.regs.set_f(f);
}

/// RRC reg: rotates right; Z from the result, C the old bit 0.
pub open spec fn spec_rrc(cpu: Cpu, bus: BusView, reg: Addr8) -> (Cpu, BusView) {
    let v = spec_addr8_read(cpu, bus, reg);
    let shifted = ((v & 1) << 7) | (v >> 1);
    let w = spec_addr8_write(cpu, bus, reg, shifted);
    let c1 = w.0;
    (
        Cpu {
            regs: Registers { f: spec_flags(shifted == 0, false, false, v & 1 > 0), ..c1.regs },
            ..c1
        },
        w.1,
    )
}

pub fn rrc(cpu: &mut Cpu, bus: &mut Bus, reg: Addr8)
    requires
        old(bus)@.wf(),
    ensures
        ({
            let r = spec_rrc(*old(cpu), old(bus)@, reg);
            *final(cpu) == r.0 && final(bus)@ == r.1
        }),
        final(bus)@.wf(),
{
    let v = addr8_read(cpu, bus, reg);
    let carry = v & 1;
    let shifted = (carry << 7) | (v >> 1);
    addr8_write(cpu, bus, reg, shifted);
    let f = flag_byte(shifted == 0, false, false, carry > 0);
    cpu.regs.set_f(f);
}

/// RL reg: rotates left through the carry; Z from the result.
pub open spec fn spec_rl(cpu: Cpu, bus: BusView, reg: Addr8) -> (Cpu, BusView) {
    let v = spec_addr8_read(cpu, bus, reg);
    let cin: u8 = if cpu.regs.f & 0x10 == 0x10 { 1 } else { 0 };
    let shifted = (v << 1) | cin;
    let w = spec_addr8_write(cpu, bus, reg, shifted);
    let c1 = w.0;
    (
        Cpu {
            regs: Registers {
                f: spec_flags(shifted == 0, false, false, v & 0x80 > 0),
                ..c1.regs
            },
            ..c1
        },
        w.1,
    )
}

pub fn rl(cpu: &mut Cpu, bus: &mut Bus, reg: Addr8)
    requires
        old(bus)@.wf(),
    ensures
        ({
            let r = spec_rl(*old(cpu), old(bus)@, reg);
            *final(cpu) == r.0 && final(bus)@ == r.1
        }),
        final(bus)@.wf(),
{
    let v = addr8_read(cpu, bus, reg);
    let cin: u8 = if (cpu.regs.f & 0x10) == 0x10 {
        1
    } else {
        0
    };
    let carry = v & 0x80;
    let shifted = (v << 1) | cin;
    addr8_write(cpu, bus, reg, shifted);
    let f = flag_byte(shifted == 0, false, false, carry > 0);
    cpu.regs.set_f(f);
}

/// RR reg: rotates right through the carry; Z from the result.
pub open spec fn spec_rr(cpu: Cpu, bus: BusView, reg: Addr8) -> (Cpu, BusView) {
    let v = spec_addr8_read(cpu, bus, reg);
    let cin: u8 = if cpu.regs.f & 0x10 == 0x10 { 1 } else { 0 };
    let shifted = (v >> 1) | (cin << 7);
    let w = spec_addr8_write(cpu, bus, reg, shifted);
    let c1 = w.0;
    (
        Cpu {
            regs: Registers { f: spec_flags(shifted == 0, false, false, v & 1 > 0), ..c1.regs },
            ..c1
        },
        w.1,
    )
}

pub fn rr(cpu: &mut Cpu, bus: &mut Bus, reg: Addr8)
    requires
        old(bus)@.wf(),
    ensures
        ({
            let r = spec_rr(*old(cpu), old(bus)@, reg);
            *final(cpu) == r.0 && final(bus)@ == r.1
        }),
        final(bus)@.wf(),
{
    let v = addr8_read(cpu, bus, reg);
    let cin: u8 = if (cpu.regs.f & 0x10) == 0x10 {
        1
    } else {
        0
    };
    let carry = v & 1;
    let shifted = (v >> 1) | (cin << 7);
    addr8_write(cpu, bus, reg, shifted);
    let f = flag_byte(shifted == 0, false, false, carry > 0);
    cpu.regs.set_f(f);
}

/// SLA reg: arithmetic shift left; Z from the result, C the old bit 7.
pub open spec fn spec_sla(cpu: Cpu, bus: BusView, reg: Addr8) -> (Cpu, BusView) {
    let v = spec_addr8_read(cpu, bus, reg);
    let shifted = v << 1;
    let w = spec_addr8_write(cpu, bus, reg, shifted);
    let c1 = w.0;
    (
        Cpu {
            regs: Registers {
                f: spec_flags(shifted == 0, false, false, v & 0x80 > 0),
                ..c1.regs
            },
            ..c1
        },
        w.1,
    )
}

pub fn sla(cpu: &mut Cpu, bus: &mut Bus, reg: Addr8)
    requires
        old(bus)@.wf(),
    ensures
        ({
            let r = spec_sla(*old(cpu), old(bus)@, reg);
            *final(cpu) == r.0 && final(bus)@ == r.1
        }),
        final(bus)@.wf(),
{
    let v = addr8_read(cpu, bus, reg);
    let carry = v & 0x80;
    let shifted = v << 1;
    addr8_write(cpu, bus, reg, shifted);
    let f = flag_byte(shifted == 0, false, false, carry > 0);
    cpu.regs.set_f(f);
}

/// SRA reg: arithmetic shift right keeping bit 7; C the old bit 0.
pub open spec fn spec_sra(cpu: Cpu, bus: BusView, reg: Addr8) -> (Cpu, BusView) {
    let v = spec_addr8_read(cpu, bus, reg);
    let shifted = (v & 0x80) | (v >> 1);
    let w = spec_addr8_write(cpu, bus, reg, shifted);
    let c1 = w.0;
    (
        Cpu {
            regs: Registers { f: spec_flags(shifted == 0, false, false, v & 1 > 0), ..c1.regs },
            ..c1
        },
        w.1,
    )
}

pub fn sra(cpu: &mut Cpu, bus: &mut Bus, reg: Addr8)
    requires
        old(bus)@.wf(),
    ensures
        ({
            let r = spec_sra(*old(cpu), old(bus)@, reg);
            *final(cpu) == r.0 && final(bus)@ == r.1
        }),
        final(bus)@.wf(),
{
    let v = addr8_read(cpu, bus, reg);
    let carry = v & 1;
    let shifted = (v & 0x80) | (v >> 1);
    addr8_write(cpu, bus, reg, shifted);
    let f = flag_byte(shifted == 0, false, false, carry > 0);
    cpu.regs.set_f(f);
}

/// SWAP reg: exchanges the nibbles; Z from the result, other flags clear.
pub open spec fn spec_swap(cpu: Cpu, bus: BusView, reg: Addr8) -> (Cpu, BusView) {
    let v = spec_addr8_read(cpu, bus, reg);
    let swapped = ((v & 0x0F) << 4) | ((v & 0xF0) >> 4);
    let w = spec_addr8_write(cpu, bus, reg, swapped);
    let c1 = w.0;
    (
        Cpu {
            regs: Registers { f: spec_flags(swapped == 0, false, false, false), ..c1.regs },
            ..c1
        },
        w.1,
    )
}

pub fn swap(cpu: &mut Cpu, bus: &mut Bus, reg: Addr8)
    requires
        old(bus)@.wf(),
    ensures
        ({
            let r = spec_swap(*old(cpu), old(bus)@, reg);
            *final(cpu) == r.0 && final(bus)@ == r.1
        }),
        final(bus)@.wf(),
{
    let v = addr8_read(cpu, bus, reg);
    let swapped = ((v & 0x0F) << 4) | ((v & 0xF0) >> 4);
    addr8_write(cpu, bus, reg, swapped);
    let f = flag_byte(swapped == 0, false, false, false);
    cpu.regs.set_f(f);
}

/// SRL reg: logical shift right; Z from the result, C the old bit 0.
pub open spec fn spec_srl(cpu: Cpu, bus: BusView, reg: Addr8) -> (Cpu, BusView) {
    let v = spec_addr8_read(cpu, bus, reg);
    let shifted = v >> 1;
    let w = spec_addr8_write(cpu, bus, reg, shifted);
    let c1 = w.0;
    (
        Cpu {
            regs: Registers { f: spec_flags(shifted == 0, false, false, v & 1 > 0), ..c1.regs },
            ..c1
        },
        w.1,
    )
}

pub fn srl(cpu: &mut Cpu, bus: &mut Bus, reg: Addr8)
    requires
        old(bus)@.wf(),
    ensures
        ({
            let r = spec_srl(*old(cpu), old(bus)@, reg);
            *final(cpu) == r.0 && final(bus)@ == r.1
        }),
        final(bus)@.wf(),
{
    let v = addr8_read(cpu, bus, reg);
    let carry = v & 1;
    let shifted = v >> 1;
    addr8_write(cpu, bus, reg, shifted);
    let f = flag_byte(shifted == 0, false, false, carry > 0);
    cpu.regs.set_f(f);
}

/// BIT b, reg: Z set exactly when bit `b` is clear; N clear, H set, C
/// preserved; the operand is not written.
pub open spec fn spec_bit(cpu: Cpu, bus: BusView, b: u8, reg: Addr8) -> Cpu {
    let v = spec_addr8_read(cpu, bus, reg);
    Cpu {
        regs: Registers {
            f: spec_flags(v & (1u8 << b) == 0, false, true, cpu.regs.f & 0x10 == 0x10),
            ..cpu.regs
        },
        ..cpu
    }
}

pub fn bit(cpu: &mut Cpu, bus: &Bus, b: u8, reg: Addr8)
    requires
        bus@.wf(),
        b < 8,
    ensures
        *final(cpu) == spec_bit(*old(cpu), bus@, b, reg),
{
    let v = addr8_read(cpu, bus, reg);
    let test = 1u8 << b;
    let f = flag_byte(v & test == 0, false, true, (cpu.regs.f & 0x10) == 0x10);
    cpu.regs.set_f(f);
}

/// RES b, reg: clears bit `b` of the operand; no flags.
pub open spec fn spec_res(cpu: Cpu, bus: BusView, b: u8, reg: Addr8) -> (Cpu, BusView) {
    let v = spec_addr8_read(cpu, bus, reg);
    spec_addr8_write(cpu, bus, reg, v & !(1u8 << b))
}

pub fn res(cpu: &mut Cpu, bus: &mut Bus, b: u8, reg: Addr8)
    requires
        old(bus)@.wf(),
        b < 8,
    ensures
        ({
            let r = spec_res(*old(cpu), old(bus)@, b, reg);
            *final(cpu) == r.0 && final(bus)@ == r.1
        }),
        final(bus)@.wf(),
{
    let v = addr8_read(cpu, bus, reg);
    addr8_write(cpu, bus, reg, v & !(1u8 << b));
}

/// SET b, reg: sets bit `b` of the operand; no flags.
pub open spec fn spec_set(cpu: Cpu, bus: BusView, b: u8, reg: Addr8) -> (Cpu, BusView) {
    let v = spec_addr8_read(cpu, bus, reg);
    spec_addr8_write(cpu, bus, reg, v | (1u8 << b))
}

pub fn set(cpu: &mut Cpu, bus: &mut Bus, b: u8, reg: Addr8)
    requires
        old(bus)@.wf(),
        b < 8,
    ensures
        ({
            let r = spec_set(*old(cpu), old(bus)@, b, reg);
            *final(cpu) == r.0 && final(bus)@ == r.1
        }),
        final(bus)@.wf(),
{
    let v = addr8_read(cpu, bus, reg);
    addr8_write(cpu, bus, reg, v | (1u8 << b));
}

} // verus!
