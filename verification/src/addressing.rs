//! Operand addressing: the tagged variants an instruction carries, and the
//! read / write routines that resolve them against the registers and bus.

use vstd::prelude::*;
use vstd::wrapping::u16_specs;
use crate::bus::{Bus, BusView};
use crate::cpu::Cpu;
use crate::registers::{Register, Registers, mask_flags, word_of, high_byte, low_byte};

verus! {

/// Where an 8-bit operand lives: a byte register, memory behind a register,
/// an immediate, the high page behind an 8-bit offset, or an absolute
/// address.
#[derive(Copy, Clone, PartialEq, Eq, Structural, Debug)]
pub enum Addr8 {
    Register(Register),
    RegisterIndirect(Register),
    Immediate(u8),
    HighIndirect(u8),
    Indirect(u16),
}

/// Where a 16-bit operand lives.
#[derive(Copy, Clone, PartialEq, Eq, Structural, Debug)]
pub enum Addr16 {
    Register(Register),
    Immediate(u16),
    Indirect(u16),
}

/// Whether the register names a byte half.
pub open spec fn reg_is_8(reg: Register) -> bool {
    matches!(reg, Register::A | Register::B | Register::C | Register::D | Register::E
        | Register::F | Register::H | Register::L)
}

/// The value of a byte register.
pub open spec fn spec_reg8_read(regs: Registers, reg: Register) -> u8 {
    match reg {
        Register::A => regs.a,
        Register::B => regs.b,
        Register::C => regs.c,
        Register::D => regs.d,
        Register::E => regs.e,
        Register::F => regs.f,
        Register::H => regs.h,
        Register::L => regs.l,
        _ => 0,
    }
}

/// The registers after writing a byte register; F keeps its lower nibble
/// hardwired to zero.
pub open spec fn spec_reg8_write(regs: Registers, reg: Register, val: u8) -> Registers {
    match reg {
        Register::A => Registers { a: val, ..regs },
        Register::B => Registers { b: val, ..regs },
        Register::C => Registers { c: val, ..regs },
        Register::D => Registers { d: val, ..regs },
        Register::E => Registers { e: val, ..regs },
        Register::F => Registers { f: mask_flags(val), ..regs },
        Register::H => Registers { h: val, ..regs },
        Register::L => Registers { l: val, ..regs },
        _ => regs,
    }
}

/// The value of a word register.
pub open spec fn spec_reg16_read(regs: Registers, reg: Register) -> u16 {
    match reg {
        Register::AF => word_of(regs.a, regs.f),
        Register::BC => word_of(regs.b, regs.c),
        Register::DE => word_of(regs.d, regs.e),
        Register::HL => word_of(regs.h, regs.l),
        Register::SP => regs.sp,
        Register::PC => regs.pc,
        _ => 0,
    }
}

/// The registers after writing a word register; writes to AF mask the lower
/// nibble of F.
pub open spec fn spec_reg16_write(regs: Registers, reg: Register, val: u16) -> Registers {
    match reg {
        Register::AF => Registers { a: high_byte(val), f: mask_flags(low_byte(val)), ..regs },
        Register::BC => Registers { b: high_byte(val), c: low_byte(val), ..regs },
        Register::DE => Registers { d: high_byte(val), e: low_byte(val), ..regs },
        Register::HL => Registers { h: high_byte(val), l: low_byte(val), ..regs },
        Register::SP => Registers { sp: val, ..regs },
        Register::PC => Registers { pc: val, ..regs },
        _ => regs,
    }
}

/// The memory address a register-indirect operand points at: byte registers
/// address the high page, word registers address their value.
pub open spec fn spec_regind_addr(regs: Registers, reg: Register) -> u16 {
    if reg_is_8(reg) {
        (0xFF00 + spec_reg8_read(regs, reg)) as u16
    } else {
        spec_reg16_read(regs, reg)
    }
}

/// The value an 8-bit operand denotes.
pub open spec fn spec_addr8_read(cpu: Cpu, bus: BusView, a: Addr8) -> u8 {
    match a {
        Addr8::Register(r) => spec_reg8_read(cpu.regs, r),
        Addr8::RegisterIndirect(r) => bus.spec_read(spec_regind_addr(cpu.regs, r)),
        Addr8::Immediate(v) => v,
        Addr8::HighIndirect(n) => bus.spec_read((0xFF00 + n) as u16),
        Addr8::Indirect(w) => bus.spec_read(w),
    }
}

/// The machine after storing a byte through an 8-bit operand; an immediate
/// destination stores nothing.
pub open spec fn spec_addr8_write(cpu: Cpu, bus: BusView, a: Addr8, val: u8) -> (Cpu, BusView) {
    match a {
        Addr8::Register(r) => (Cpu { regs: spec_reg8_write(cpu.regs, r, val), ..cpu }, bus),
        Addr8::RegisterIndirect(r) => (cpu, bus.spec_write(spec_regind_addr(cpu.regs, r), val)),
        Addr8::Immediate(v) => (cpu, bus),
        Addr8::HighIndirect(n) => (cpu, bus.spec_write((0xFF00 + n) as u16, val)),
        Addr8::Indirect(w) => (cpu, bus.spec_write(w, val)),
    }
}

/// The value a 16-bit operand denotes; memory words are little-endian.
pub open spec fn spec_addr16_read(cpu: Cpu, bus: BusView, a: Addr16) -> u16 {
    match a {
        Addr16::Register(r) => spec_reg16_read(cpu.regs, r),
        Addr16::Immediate(v) => v,
        Addr16::Indirect(w) => word_of(
            bus.spec_read(u16_specs::wrapping_add(w, 1)),
            bus.spec_read(w),
        ),
    }
}

/// The machine after storing a word through a 16-bit operand.
pub open spec fn spec_addr16_write(cpu: Cpu, bus: BusView, a: Addr16, val: u16) -> (Cpu, BusView) {
    match a {
        Addr16::Register(r) => (Cpu { regs: spec_reg16_write(cpu.regs, r, val), ..cpu }, bus),
        Addr16::Immediate(v) => (cpu, bus),
        Addr16::Indirect(w) => (
            cpu,
            bus.spec_write(w, low_byte(val)).spec_write(
                u16_specs::wrapping_add(w, 1),
                high_byte(val),
            ),
        ),
    }
}

/// The value of a byte register; word registers read 0.
pub fn reg8_read(regs: &Registers, reg: Register) -> (r: u8)
    ensures
        r == spec_reg8_read(*regs, reg),
{
    match reg {
        Register::A => regs.a,
        Register::B => regs.b,
        Register::C => regs.c,
        Register::D => regs.d,
        Register::E => regs.e,
        Register::F => regs.f,
        Register::H => regs.h,
        Register::L => regs.l,
        _ => 0,
    }
}

/// Writes a byte register; word registers ignore the write.
pub fn reg8_write(regs: &mut Registers, reg: Register, val: u8)
    ensures
        *final(regs) == spec_reg8_write(*old(regs), reg, val),
{
    match reg {
        Register::A => regs.set_a(val),
        Register::B => regs.set_b(val),
        Register::C => regs.set_c(val),
        Register::D => regs.set_d(val),
        Register::E => regs.set_e(val),
        Register::F => regs.set_f(val),
        Register::H => regs.set_h(val),
        Register::L => regs.set_l(val),
        _ => {},
    }
}

/// The value of a word register; byte registers read 0.
pub fn reg16_read(regs: &Registers, reg: Register) -> (r: u16)
    ensures
        r == spec_reg16_read(*regs, reg),
{
    match reg {
        Register::AF => regs.af(),
        Register::BC => regs.bc(),
        Register::DE => regs.de(),
        Register::HL => regs.hl(),
        Register::SP => regs.sp,
        Register::PC => regs.pc,
        _ => 0,
    }
}

/// Writes a word register; byte registers ignore the write.
pub fn reg16_write(regs: &mut Registers, reg: Register, val: u16)
    ensures
        *final(regs) == spec_reg16_write(*old(regs), reg, val),
{
    match reg {
        Register::AF => regs.set_af(val),
        Register::BC => regs.set_bc(val),
        Register::DE => regs.set_de(val),
        Register::HL => regs.set_hl(val),
        Register::SP => regs.set_sp(val),
        Register::PC => regs.set_pc(val),
        _ => {},
    }
}

/// The memory address a register-indirect operand points at.
pub fn regind_addr(regs: &Registers, reg: Register) -> (r: u16)
    ensures
        r == spec_regind_addr(*regs, reg),
{
    match reg {
        Register::A => 0xFF00 + (regs.a as u16),
        Register::B => 0xFF00 + (regs.b as u16),
        Register::C => 0xFF00 + (regs.c as u16),
        Register::D => 0xFF00 + (regs.d as u16),
        Register::E => 0xFF00 + (regs.e as u16),
        Register::F => 0xFF00 + (regs.f as u16),
        Register::H => 0xFF00 + (regs.h as u16),
        Register::L => 0xFF00 + (regs.l as u16),
        _ => reg16_read(regs, reg),
    }
}

/// Resolves an 8-bit operand to its value.
pub fn addr8_read(cpu: &Cpu, bus: &Bus, a: Addr8) -> (r: u8)
    requires
        bus@.wf(),
    ensures
        r == spec_addr8_read(*cpu, bus@, a),
{
    match a {
        Addr8::Register(r) => reg8_read(&cpu.regs, r),
        Addr8::RegisterIndirect(r) => bus.read(regind_addr(&cpu.regs, r)),
        Addr8::Immediate(v) => v,
        Addr8::HighIndirect(n) => bus.read(0xFF00 + (n as u16)),
        Addr8::Indirect(w) => bus.read(w),
    }
}

/// Stores a byte through an 8-bit operand.
pub fn addr8_write(cpu: &mut Cpu, bus: &mut Bus, a: Addr8, val: u8)
    requires
        old(bus)@.wf(),
    ensures
        ({
            let r = spec_addr8_write(*old(cpu), old(bus)@, a, val);
            *final(cpu) == r.0 && final(bus)@ == r.1
        }),
        final(bus)@.wf(),
{
    match a {
        Addr8::Register(r) => reg8_write(&mut cpu.regs, r, val),
        Addr8::RegisterIndirect(r) => {
            let addr = regind_addr(&cpu.regs, r);
            bus.write(addr, val);
        },
        Addr8::Immediate(_) => {},
        Addr8::HighIndirect(n) => bus.write(0xFF00 + (n as u16), val),
        Addr8::Indirect(w) => bus.write(w, val),
    }
}

/// Resolves a 16-bit operand to its value.
pub fn addr16_read(cpu: &Cpu, bus: &Bus, a: Addr16) -> (r: u16)
    requires
        bus@.wf(),
    ensures
        r == spec_addr16_read(*cpu, bus@, a),
{
    match a {
        Addr16::Register(r) => reg16_read(&cpu.regs, r),
        Addr16::Immediate(v) => v,
        Addr16::Indirect(w) => {
            let low = bus.read(w);
            let high = bus.read(w.wrapping_add(1));
            (high as u16) * 256 + (low as u16)
        },
    }
}

/// Stores a word through a 16-bit operand, little-endian in memory.
pub fn addr16_write(cpu: &mut Cpu, bus: &mut Bus, a: Addr16, val: u16)
    requires
        old(bus)@.wf(),
    ensures
        ({
            let r = spec_addr16_write(*old(cpu), old(bus)@, a, val);
            *final(cpu) == r.0 && final(bus)@ == r.1
        }),
        final(bus)@.wf(),
{
    match a {
        Addr16::Register(r) => reg16_write(&mut cpu.regs, r, val),
        Addr16::Immediate(_) => {},
        Addr16::Indirect(w) => {
            bus.write(w, (val % 256) as u8);
            bus.write(w.wrapping_add(1), (val / 256) as u8);
        },
    }
}

} // verus!
