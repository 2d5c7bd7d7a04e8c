//! Control-flow instructions. Each conditional one reports whether its
//! condition was met, so the step loop can pick the right cycle column.

use vstd::prelude::*;
use vstd::wrapping::u16_specs;
use crate::addressing::{Addr8, Addr16, addr8_read, addr16_read, spec_addr8_read, spec_addr16_read};
use crate::bus::{Bus, BusView};
use crate::cpu::{Condition, Cpu, spec_condition_met, spec_push, spec_pop};
use crate::registers::Registers;

verus! {

/// JR cond, e8: when the condition holds, PC moves by the signed offset
/// (PC already points past the immediate).
pub open spec fn spec_jr(cpu: Cpu, bus: BusView, cond: Condition, src: Addr8) -> (Cpu, bool) {
    if spec_condition_met(cpu.regs, cond) {
        let e = spec_addr8_read(cpu, bus, src);
        let pc = if e < 128 {
            u16_specs::wrapping_add(cpu.regs.pc, e as u16)
        } else {
            u16_specs::wrapping_sub(cpu.regs.pc, (256 - e) as u16)
        };
        (Cpu { regs: Registers { pc: pc, ..cpu.regs }, ..cpu }, true)
    } else {
        (cpu, false)
    }
}

pub fn jr(cpu: &mut Cpu, bus: &Bus, cond: Condition, src: Addr8) -> (taken: bool)
    requires
        bus@.wf(),
    ensures
        (*final(cpu), taken) == spec_jr(*old(cpu), bus@, cond, src),
{
    if cpu.condition_met(cond) {
        let pc = cpu.regs.pc();
        let e = addr8_read(cpu, bus, src);
        if e < 128 {
            cpu.regs.set_pc(pc.wrapping_add(e as u16));
        } else {
            cpu.regs.set_pc(pc.wrapping_sub(256 - (e as u16)));
        }
        true
    } else {
        false
    }
}

/// JP cond, addr: when the condition holds, PC takes the target.
pub open spec fn spec_jp(cpu: Cpu, bus: BusView, cond: Condition, src: Addr16) -> (Cpu, bool) {
    if spec_condition_met(cpu.regs, cond) {
        (
            Cpu {
                regs: Registers { pc: spec_addr16_read(cpu, bus, src), ..cpu.regs },
                ..cpu
            },
            true,
        )
    } else {
        (cpu, false)
    }
}

pub fn jp(cpu: &mut Cpu, bus: &Bus, cond: Condition, src: Addr16) -> (taken: bool)
    requires
        bus@.wf(),
    ensures
        (*final(cpu), taken) == spec_jp(*old(cpu), bus@, cond, src),
{
    if cpu.condition_met(cond) {
        let addr = addr16_read(cpu, bus, src);
        cpu.regs.set_pc(addr);
        true
    } else {
        false
    }
}

/// CALL cond, addr: when the condition holds, the return address (the PC
/// past the operand) is pushed and PC takes the target.
pub open spec fn spec_call(cpu: Cpu, bus: BusView, cond: Condition, src: Addr16) -> (
    Cpu,
    BusView,
    bool,
) {
    if spec_condition_met(cpu.regs, cond) {
        let addr = spec_addr16_read(cpu, bus, src);
        let p = spec_push(cpu, bus, cpu.regs.pc);
        let c1 = p.0;
        (Cpu { regs: Registers { pc: addr, ..c1.regs }, ..c1 }, p.1, true)
    } else {
        (cpu, bus, false)
    }
}

pub fn call(cpu: &mut Cpu, bus: &mut Bus, cond: Condition, src: Addr16) -> (taken: bool)
    requires
        old(bus)@.wf(),
    ensures
        ({
            let r = spec_call(*old(cpu), old(bus)@, cond, src);
            *final(cpu) == r.0 && final(bus)@ == r.1 && taken == r.2
        }),
        final(bus)@.wf(),
{
    if cpu.condition_met(cond) {
        let addr = addr16_read(cpu, bus, src);
        let pc = cpu.regs.pc();
        cpu.push_stack(bus, pc);
        cpu.regs.set_pc(addr);
        true
    } else {
        false
    }
}

/// RET cond: when the condition holds, PC is popped off the stack.
pub open spec fn spec_ret(cpu: Cpu, bus: BusView, cond: Condition) -> (Cpu, bool) {
    if spec_condition_met(cpu.regs, cond) {
        let p = spec_pop(cpu, bus);
        let c1 = p.0;
        (Cpu { regs: Registers { pc: p.1, ..c1.regs }, ..c1 }, true)
    } else {
        (cpu, false)
    }
}

pub fn ret(cpu: &mut Cpu, bus: &Bus, cond: Condition) -> (taken: bool)
    requires
        bus@.wf(),
    ensures
        (*final(cpu), taken) == spec_ret(*old(cpu), bus@, cond),
{
    if cpu.condition_met(cond) {
        let addr = cpu.pop_stack(bus);
        cpu.regs.set_pc(addr);
        true
    } else {
        false
    }
}

/// RETI: returns and enables interrupts.
pub open spec fn spec_reti(cpu: Cpu, bus: BusView) -> Cpu {
    let p = spec_pop(cpu, bus);
    let c1 = p.0;
    Cpu { regs: Registers { pc: p.1, ..c1.regs }, ime: true, ..c1 }
}

pub fn reti(cpu: &mut Cpu, bus: &Bus)
    requires
        bus@.wf(),
    ensures
        *final(cpu) == spec_reti(*old(cpu), bus@),
{
    let addr = cpu.pop_stack(bus);
    cpu.regs.set_pc(addr);
    cpu.ime = true;
}

/// RST index: pushes PC and jumps to index * 8.
pub open spec fn spec_rst(cpu: Cpu, bus: BusView, index: u8) -> (Cpu, BusView) {
    let p = spec_push(cpu, bus, cpu.regs.pc);
    let c1 = p.0;
    (Cpu { regs: Registers { pc: (index * 8) as u16, ..c1.regs }, ..c1 }, p.1)
}

pub fn rst(cpu: &mut Cpu, bus: &mut Bus, index: u8) -> (r: ())
    requires
        old(bus)@.wf(),
    ensures
        ({
            let r2 = spec_rst(*old(cpu), old(bus)@, index);
            *final(cpu) == r2.0 && final(bus)@ == r2.1
        }),
        final(bus)@.wf(),
{
    let pc = cpu.regs.pc();
    cpu.push_stack(bus, pc);
    cpu.regs.set_pc((index as u16) * 8);
}

} // verus!
