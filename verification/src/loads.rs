//! Load, stack and HL-pointer instructions.

use vstd::prelude::*;
use vstd::wrapping::u16_specs;
use crate::addressing::{Addr8, Addr16, addr8_read, addr8_write, addr16_read, addr16_write, spec_addr8_read, spec_addr8_write, spec_addr16_read, spec_addr16_write};
use crate::bus::{Bus, BusView};
use crate::cpu::{Cpu, spec_push, spec_pop};
use crate::registers::{Registers, flag_byte, spec_flags, word_of, high_byte, low_byte};
use crate::bitops::{lemma_u8_and_le, lemma_u16_and_le, lemma_u8_mask_f0};

verus! {

broadcast use lemma_u8_and_le, lemma_u16_and_le, lemma_u8_mask_f0;

/// LD dest, src (8-bit): copies the source byte into the destination.
pub open spec fn spec_ld(cpu: Cpu, bus: BusView, dest: Addr8, src: Addr8) -> (Cpu, BusView) {
    spec_addr8_write(cpu, bus, dest, spec_addr8_read(cpu, bus, src))
}

pub fn ld(cpu: &mut Cpu, bus: &mut Bus, dest: Addr8, src: Addr8)
    requires
        old(bus)@.wf(),
    ensures
        ({
            let r = spec_ld(*old(cpu), old(bus)@, dest, src);
            *final(cpu) == r.0 && final(bus)@ == r.1
        }),
        final(bus)@.wf(),
{
    let v = addr8_read(cpu, bus, src);
    addr8_write(cpu, bus, dest, v);
}

/// LD dest, src (16-bit): copies the source word into the destination.
pub open spec fn spec_ld_16(cpu: Cpu, bus: BusView, dest: Addr16, src: Addr16) -> (Cpu, BusView) {
    spec_addr16_write(cpu, bus, dest, spec_addr16_read(cpu, bus, src))
}

pub fn ld_16(cpu: &mut Cpu, bus: &mut Bus, dest: Addr16, src: Addr16)
    requires
        old(bus)@.wf(),
    ensures
        ({
            let r = spec_ld_16(*old(cpu), old(bus)@, dest, src);
            *final(cpu) == r.0 && final(bus)@ == r.1
        }),
        final(bus)@.wf(),
{
    let v = addr16_read(cpu, bus, src);
    addr16_write(cpu, bus, dest, v);
}

/// LD HL, SP+e8: HL takes SP plus the signed immediate; Z and N clear, H
/// and C from the unsigned low-byte addition.
pub open spec fn spec_ldhl(cpu: Cpu, bus: BusView, src: Addr8) -> Cpu {
    let sp = cpu.regs.sp;
    let v = spec_addr8_read(cpu, bus, src);
    let hl = if v < 128 {
        u16_specs::wrapping_add(sp, v as u16)
    } else {
        u16_specs::wrapping_sub(sp, (256 - v) as u16)
    };
    Cpu {
        regs: Registers {
            h: high_byte(hl),
            l: low_byte(hl),
            f: spec_flags(false, false, (sp & 0xF) + (v & 0xF) > 0xF, (sp & 0xFF) + v > 0xFF),
            ..cpu.regs
        },
        ..cpu
    }
}

pub fn ldhl(cpu: &mut Cpu, bus: &Bus, src: Addr8)
    requires
        bus@.wf(),
    ensures
        *final(cpu) == spec_ldhl(*old(cpu), bus@, src),
{
    let sp = cpu.regs.sp();
    let v = addr8_read(cpu, bus, src);
    let hl = if v < 128 {
        sp.wrapping_add(v as u16)
    } else {
        sp.wrapping_sub(256 - (v as u16))
    };
    let f = flag_byte(
        false,
        false,
        (sp & 0xF) + ((v & 0xF) as u16) > 0xF,
        (sp & 0xFF) + (v as u16) > 0xFF,
    );
    cpu.regs.set_hl(hl);
    cpu.regs.set_f(f);
}

/// LDD dest, src: an 8-bit load, then HL steps down by one.
pub open spec fn spec_ldd(cpu: Cpu, bus: BusView, dest: Addr8, src: Addr8) -> (Cpu, BusView) {
    let hl = u16_specs::wrapping_sub(word_of(cpu.regs.h, cpu.regs.l), 1);
    let w = spec_addr8_write(cpu, bus, dest, spec_addr8_read(cpu, bus, src));
    let c1 = w.0;
    (
        Cpu { regs: Registers { h: high_byte(hl), l: low_byte(hl), ..c1.regs }, ..c1 },
        w.1,
    )
}

pub fn ldd(cpu: &mut Cpu, bus: &mut Bus, dest: Addr8, src: Addr8)
    requires
        old(bus)@.wf(),
    ensures
        ({
            let r = spec_ldd(*old(cpu), old(bus)@, dest, src);
            *final(cpu) == r.0 && final(bus)@ == r.1
        }),
        final(bus)@.wf(),
{
    let v = addr8_read(cpu, bus, src);
    let hl = cpu.regs.hl();
    addr8_write(cpu, bus, dest, v);
    cpu.regs.set_hl(hl.wrapping_sub(1));
}

/// LDI dest, src: an 8-bit load, then HL steps up by one.
pub open spec fn spec_ldi(cpu: Cpu, bus: BusView, dest: Addr8, src: Addr8) -> (Cpu, BusView) {
    let hl = u16_specs::wrapping_add(word_of(cpu.regs.h, cpu.regs.l), 1);
    let w = spec_addr8_write(cpu, bus, dest, spec_addr8_read(cpu, bus, src));
    let c1 = w.0;
    (
        Cpu { regs: Registers { h: high_byte(hl), l: low_byte(hl), ..c1.regs }, ..c1 },
        w.1,
    )
}

pub fn ldi(cpu: &mut Cpu, bus: &mut Bus, dest: Addr8, src: Addr8)
    requires
        old(bus)@.wf(),
    ensures
        ({
            let r = spec_ldi(*old(cpu), old(bus)@, dest, src);
            *final(cpu) == r.0 && final(bus)@ == r.1
        }),
        final(bus)@.wf(),
{
    let v = addr8_read(cpu, bus, src);
    let hl = cpu.regs.hl();
    addr8_write(cpu, bus, dest, v);
    cpu.regs.set_hl(hl.wrapping_add(1));
}

/// PUSH src: the source word goes onto the stack.
pub open spec fn spec_push_op(cpu: Cpu, bus: BusView, src: Addr16) -> (Cpu, BusView) {
    spec_push(cpu, bus, spec_addr16_read(cpu, bus, src))
}

pub fn push(cpu: &mut Cpu, bus: &mut Bus, src: Addr16)
    requires
        old(bus)@.wf(),
    ensures
        ({
            let r = spec_push_op(*old(cpu), old(bus)@, src);
            *final(cpu) == r.0 && final(bus)@ == r.1
        }),
        final(bus)@.wf(),
{
    let v = addr16_read(cpu, bus, src);
    cpu.push_stack(bus, v);
}

/// POP dest: the stack word lands in the destination; popping into AF
/// masks the lower nibble of F.
pub open spec fn spec_pop_op(cpu: Cpu, bus: BusView, dest: Addr16) -> (Cpu, BusView) {
    let p = spec_pop(cpu, bus);
    spec_addr16_write(p.0, bus, dest, p.1)
}

pub fn pop(cpu: &mut Cpu, bus: &mut Bus, dest: Addr16)
    requires
        old(bus)@.wf(),
    ensures
        ({
            let r = spec_pop_op(*old(cpu), old(bus)@, dest);
            *final(cpu) == r.0 && final(bus)@ == r.1
        }),
        final(bus)@.wf(),
{
    let v = cpu.pop_stack(bus);
    addr16_write(cpu, bus, dest, v);
}

} // verus!
