//! Arithmetic and logic instructions: the 8- and 16-bit adds and subtracts,
//! the accumulator logic operations, increments, decimal adjust, and the
//! carry-flag instructions.

use vstd::prelude::*;
use vstd::wrapping::{u8_specs, u16_specs};
use crate::addressing::{Addr8, Addr16, addr8_read, addr16_read, addr16_write, spec_addr8_read, spec_addr16_read, spec_addr16_write, spec_addr8_write, addr8_write};
use crate::bus::{Bus, BusView};
use crate::cpu::Cpu;
use crate::registers::{Registers, flag_byte, spec_flags, mask_flags};
use crate::bitops::{lemma_u8_and_le, lemma_u16_and_le, lemma_u8_mask_f0};

verus! {

broadcast use lemma_u8_and_le, lemma_u16_and_le, lemma_u8_mask_f0;

/// ADD A, src: A takes the wrapped sum; Z from the result, N clear, H from
/// bit 3, C from bit 7.
pub open spec fn spec_add_8(cpu: Cpu, bus: BusView, src: Addr8) -> Cpu {
    let a = cpu.regs.a;
    let v = spec_addr8_read(cpu, bus, src);
    let sum = u8_specs::wrapping_add(a, v);
    Cpu {
        regs: Registers {
            a: sum,
            f: spec_flags(sum == 0, false, (a & 0xF) + (v & 0xF) > 0xF, a + v > 0xFF),
            ..cpu.regs
        },
        ..cpu
    }
}

pub fn add_8(cpu: &mut Cpu, bus: &Bus, src: Addr8)
    requires
        bus@.wf(),
    ensures
        *final(cpu) == spec_add_8(*old(cpu), bus@, src),
{
    let a = cpu.regs.a();
    let v = addr8_read(cpu, bus, src);
    let sum = a.wrapping_add(v);
    let f = flag_byte(
        sum == 0,
        false,
        ((a & 0xF) as u16) + ((v & 0xF) as u16) > 0xF,
        (a as u16) + (v as u16) > 0xFF,
    );
    cpu.regs.set_a(sum);
    cpu.regs.set_f(f);
}

/// ADD dest, src (16-bit): dest takes the wrapped sum; Z preserved, N
/// clear, H from bit 11, C from bit 15.
pub open spec fn spec_add_16(cpu: Cpu, bus: BusView, dest: Addr16, src: Addr16) -> (Cpu, BusView) {
    let s = spec_addr16_read(cpu, bus, src);
    let d = spec_addr16_read(cpu, bus, dest);
    let w = spec_addr16_write(cpu, bus, dest, u16_specs::wrapping_add(d, s));
    let c1 = w.0;
    (
        Cpu {
            regs: Registers {
                f: spec_flags(
                    cpu.regs.f & 0x80 == 0x80,
                    false,
                    (d & 0xFFF) + (s & 0xFFF) > 0xFFF,
                    d + s > 0xFFFF,
                ),
                ..c1.regs
            },
            ..c1
        },
        w.1,
    )
}

pub fn add_16(cpu: &mut Cpu, bus: &mut Bus, dest: Addr16, src: Addr16)
    requires
        old(bus)@.wf(),
    ensures
        ({
            let r = spec_add_16(*old(cpu), old(bus)@, dest, src);
            *final(cpu) == r.0 && final(bus)@ == r.1
        }),
        final(bus)@.wf(),
{
    let s = addr16_read(cpu, bus, src);
    let d = addr16_read(cpu, bus, dest);
    let z_old = (cpu.regs.f & 0x80) == 0x80;
    addr16_write(cpu, bus, dest, d.wrapping_add(s));
    let f = flag_byte(
        z_old,
        false,
        ((d & 0xFFF) as u32) + ((s & 0xFFF) as u32) > 0xFFF,
        (d as u32) + (s as u32) > 0xFFFF,
    );
    cpu.regs.set_f(f);
}

/// ADD SP, e8: SP moves by the signed immediate; Z and N clear, H and C
/// from the unsigned low-byte addition.
pub open spec fn spec_add_sp(cpu: Cpu, bus: BusView, src: Addr8) -> Cpu {
    let sp = cpu.regs.sp;
    let v = spec_addr8_read(cpu, bus, src);
    let sp2 = if v < 128 {
        u16_specs::wrapping_add(sp, v as u16)
    } else {
        u16_specs::wrapping_sub(sp, (256 - v) as u16)
    };
    Cpu {
        regs: Registers {
            sp: sp2,
            f: spec_flags(false, false, (sp & 0xF) + (v & 0xF) > 0xF, (sp & 0xFF) + v > 0xFF),
            ..cpu.regs
        },
        ..cpu
    }
}

pub fn add_sp(cpu: &mut Cpu, bus: &Bus, src: Addr8)
    requires
        bus@.wf(),
    ensures
        *final(cpu) == spec_add_sp(*old(cpu), bus@, src),
{
    let sp = cpu.regs.sp();
    let v = addr8_read(cpu, bus, src);
    let sp2 = if v < 128 {
        sp.wrapping_add(v as u16)
    } else {
        sp.wrapping_sub(256 - (v as u16))
    };
    let f = flag_byte(
        false,
        false,
        (sp & 0xF) + (((v & 0xF) as u16)) > 0xF,
        (sp & 0xFF) + (v as u16) > 0xFF,
    );
    cpu.regs.set_sp(sp2);
    cpu.regs.set_f(f);
}

/// ADC A, src: adds with the carry in; flags as ADD A.
pub open spec fn spec_adc(cpu: Cpu, bus: BusView, src: Addr8) -> Cpu {
    let a = cpu.regs.a;
    let v = spec_addr8_read(cpu, bus, src);
    let cin: int = if cpu.regs.f & 0x10 == 0x10 { 1 } else { 0 };
    let sum = ((a + v + cin) % 0x100) as u8;
    Cpu {
        regs: Registers {
            a: sum,
            f: spec_flags(
                sum == 0,
                false,
                (a & 0xF) + (v & 0xF) + cin > 0xF,
                a + v + cin > 0xFF,
            ),
            ..cpu.regs
        },
        ..cpu
    }
}

pub fn adc(cpu: &mut Cpu, bus: &Bus, src: Addr8)
    requires
        bus@.wf(),
    ensures
        *final(cpu) == spec_adc(*old(cpu), bus@, src),
{
    let a = cpu.regs.a();
    let v = addr8_read(cpu, bus, src);
    let cin: u16 = if (cpu.regs.f & 0x10) == 0x10 {
        1
    } else {
        0
    };
    let full: u16 = (a as u16) + (v as u16) + cin;
    let sum = (full % 0x100) as u8;
    let f = flag_byte(
        sum == 0,
        false,
        ((a & 0xF) as u16) + ((v & 0xF) as u16) + cin > 0xF,
        full > 0xFF,
    );
    cpu.regs.set_a(sum);
    cpu.regs.set_f(f);
}

/// SUB src: A takes the wrapped difference; Z from the result, N set, H
/// from the low-nibble borrow, C from the full borrow.
pub open spec fn spec_sub(cpu: Cpu, bus: BusView, src: Addr8) -> Cpu {
    let a = cpu.regs.a;
    let v = spec_addr8_read(cpu, bus, src);
    let diff = u8_specs::wrapping_sub(a, v);
    Cpu {
        regs: Registers {
            a: diff,
            f: spec_flags(diff == 0, true, (a & 0xF) < (v & 0xF), a < v),
            ..cpu.regs
        },
        ..cpu
    }
}

pub fn sub(cpu: &mut Cpu, bus: &Bus, src: Addr8)
    requires
        bus@.wf(),
    ensures
        *final(cpu) == spec_sub(*old(cpu), bus@, src),
{
    let a = cpu.regs.a();
    let v = addr8_read(cpu, bus, src);
    let diff = a.wrapping_sub(v);
    let f = flag_byte(diff == 0, true, (a & 0xF) < (v & 0xF), a < v);
    cpu.regs.set_a(diff);
    cpu.regs.set_f(f);
}

/// SBC A, src: subtracts with the borrow in; flags as SUB.
pub open spec fn spec_sbc(cpu: Cpu, bus: BusView, src: Addr8) -> Cpu {
    let a = cpu.regs.a;
    let v = spec_addr8_read(cpu, bus, src);
    let cin: int = if cpu.regs.f & 0x10 == 0x10 { 1 } else { 0 };
    let diff = if a >= v + cin {
        (a - v - cin) as u8
    } else {
        (a - v - cin + 0x100) as u8
    };
    Cpu {
        regs: Registers {
            a: diff,
            f: spec_flags(
                diff == 0,
                true,
                (a & 0xF) < (v & 0xF) + cin,
                a < v + cin,
            ),
            ..cpu.regs
        },
        ..cpu
    }
}

pub fn sbc(cpu: &mut Cpu, bus: &Bus, src: Addr8)
    requires
        bus@.wf(),
    ensures
        *final(cpu) == spec_sbc(*old(cpu), bus@, src),
{
    let a = cpu.regs.a();
    let v = addr8_read(cpu, bus, src);
    let cin: u16 = if (cpu.regs.f & 0x10) == 0x10 {
        1
    } else {
        0
    };
    let diff: u8 = if (a as u16) >= (v as u16) + cin {
        ((a as u16) - (v as u16) - cin) as u8
    } else {
        ((a as u16) + 0x100 - (v as u16) - cin) as u8
    };
    let f = flag_byte(
        diff == 0,
        true,
        ((a & 0xF) as u16) < ((v & 0xF) as u16) + cin,
        (a as u16) < (v as u16) + cin,
    );
    cpu.regs.set_a(diff);
    cpu.regs.set_f(f);
}

/// AND src: bitwise and into A; Z from the result, H set, N and C clear.
pub open spec fn spec_and(cpu: Cpu, bus: BusView, src: Addr8) -> Cpu {
    let r = cpu.regs.a & spec_addr8_read(cpu, bus, src);
    Cpu { regs: Registers { a: r, f: spec_flags(r == 0, false, true, false), ..cpu.regs }, ..cpu }
}

pub fn and(cpu: &mut Cpu, bus: &Bus, src: Addr8)
    requires
        bus@.wf(),
    ensures
        *final(cpu) == spec_and(*old(cpu), bus@, src),
{
    let v = addr8_read(cpu, bus, src);
    let r = cpu.regs.a & v;
    let f = flag_byte(r == 0, false, true, false);
    cpu.regs.set_a(r);
    cpu.regs.set_f(f);
}

/// XOR src: bitwise exclusive or into A; Z from the result, others clear.
pub open spec fn spec_xor(cpu: Cpu, bus: BusView, src: Addr8) -> Cpu {
    let r = cpu.regs.a ^ spec_addr8_read(cpu, bus, src);
    Cpu { regs: Registers { a: r, f: spec_flags(r == 0, false, false, false), ..cpu.regs }, ..cpu }
}

pub fn xor(cpu: &mut Cpu, bus: &Bus, src: Addr8)
    requires
        bus@.wf(),
    ensures
        *final(cpu) == spec_xor(*old(cpu), bus@, src),
{
    let v = addr8_read(cpu, bus, src);
    let r = cpu.regs.a ^ v;
    let f = flag_byte(r == 0, false, false, false);
    cpu.regs.set_a(r);
    cpu.regs.set_f(f);
}

/// OR src: bitwise or into A; Z from the result, others clear.
pub open spec fn spec_or(cpu: Cpu, bus: BusView, src: Addr8) -> Cpu {
    let r = cpu.regs.a | spec_addr8_read(cpu, bus, src);
    Cpu { regs: Registers { a: r, f: spec_flags(r == 0, false, false, false), ..cpu.regs }, ..cpu }
}

pub fn or(cpu: &mut Cpu, bus: &Bus, src: Addr8)
    requires
        bus@.wf(),
    ensures
        *final(cpu) == spec_or(*old(cpu), bus@, src),
{
    let v = addr8_read(cpu, bus, src);
    let r = cpu.regs.a | v;
    let f = flag_byte(r == 0, false, false, false);
    cpu.regs.set_a(r);
    cpu.regs.set_f(f);
}

/// CP src: the flags of SUB with A left unchanged.
pub open spec fn spec_cp(cpu: Cpu, bus: BusView, src: Addr8) -> Cpu {
    let a = cpu.regs.a;
    let v = spec_addr8_read(cpu, bus, src);
    let diff = u8_specs::wrapping_sub(a, v);
    Cpu {
        regs: Registers {
            f: spec_flags(diff == 0, true, (a & 0xF) < (v & 0xF), a < v),
            ..cpu.regs
        },
        ..cpu
    }
}

pub fn cp(cpu: &mut Cpu, bus: &Bus, src: Addr8)
    requires
        bus@.wf(),
    ensures
        *final(cpu) == spec_cp(*old(cpu), bus@, src),
{
    let a = cpu.regs.a();
    let v = addr8_read(cpu, bus, src);
    let diff = a.wrapping_sub(v);
    let f = flag_byte(diff == 0, true, (a & 0xF) < (v & 0xF), a < v);
    cpu.regs.set_f(f);
}

/// INC dest (8-bit): the wrapped increment; Z from the result, N clear, H
/// from bit 3, C preserved.
pub open spec fn spec_inc_8(cpu: Cpu, bus: BusView, dest: Addr8) -> (Cpu, BusView) {
    let v = spec_addr8_read(cpu, bus, dest);
    let r = u8_specs::wrapping_add(v, 1);
    let w = spec_addr8_write(cpu, bus, dest, r);
    let c1 = w.0;
    (
        Cpu {
            regs: Registers {
                f: spec_flags(r == 0, false, (v & 0xF) + 1 > 0xF, cpu.regs.f & 0x10 == 0x10),
                ..c1.regs
            },
            ..c1
        },
        w.1,
    )
}

pub fn inc_8(cpu: &mut Cpu, bus: &mut Bus, dest: Addr8)
    requires
        old(bus)@.wf(),
    ensures
        ({
            let r = spec_inc_8(*old(cpu), old(bus)@, dest);
            *final(cpu) == r.0 && final(bus)@ == r.1
        }),
        final(bus)@.wf(),
{
    let v = addr8_read(cpu, bus, dest);
    let r = v.wrapping_add(1);
    let c_old = (cpu.regs.f & 0x10) == 0x10;
    addr8_write(cpu, bus, dest, r);
    let f = flag_byte(r == 0, false, ((v & 0xF) as u16) + 1 > 0xF, c_old);
    cpu.regs.set_f(f);
}

/// DEC dest (8-bit): the wrapped decrement; Z from the result, N set, H
/// from the low-nibble borrow, C preserved.
pub open spec fn spec_dec_8(cpu: Cpu, bus: BusView, dest: Addr8) -> (Cpu, BusView) {
    let v = spec_addr8_read(cpu, bus, dest);
    let r = u8_specs::wrapping_sub(v, 1);
    let w = spec_addr8_write(cpu, bus, dest, r);
    let c1 = w.0;
    (
        Cpu {
            regs: Registers {
                f: spec_flags(r == 0, true, v & 0xF == 0, cpu.regs.f & 0x10 == 0x10),
                ..c1.regs
            },
            ..c1
        },
        w.1,
    )
}

pub fn dec_8(cpu: &mut Cpu, bus: &mut Bus, dest: Addr8)
    requires
        old(bus)@.wf(),
    ensures
        ({
            let r = spec_dec_8(*old(cpu), old(bus)@, dest);
            *final(cpu) == r.0 && final(bus)@ == r.1
        }),
        final(bus)@.wf(),
{
    let v = addr8_read(cpu, bus, dest);
    let r = v.wrapping_sub(1);
    let c_old = (cpu.regs.f & 0x10) == 0x10;
    addr8_write(cpu, bus, dest, r);
    let f = flag_byte(r == 0, true, (v & 0xF) == 0, c_old);
    cpu.regs.set_f(f);
}

/// INC dest (16-bit): the wrapped increment; no flags.
pub open spec fn spec_inc_16(cpu: Cpu, bus: BusView, dest: Addr16) -> (Cpu, BusView) {
    let v = spec_addr16_read(cpu, bus, dest);
    spec_addr16_write(cpu, bus, dest, u16_specs::wrapping_add(v, 1))
}

pub fn inc_16(cpu: &mut Cpu, bus: &mut Bus, dest: Addr16)
    requires
        old(bus)@.wf(),
    ensures
        ({
            let r = spec_inc_16(*old(cpu), old(bus)@, dest);
            *final(cpu) == r.0 && final(bus)@ == r.1
        }),
        final(bus)@.wf(),
{
    let v = addr16_read(cpu, bus, dest);
    addr16_write(cpu, bus, dest, v.wrapping_add(1));
}

/// DEC dest (16-bit): the wrapped decrement; no flags.
pub open spec fn spec_dec_16(cpu: Cpu, bus: BusView, dest: Addr16) -> (Cpu, BusView) {
    let v = spec_addr16_read(cpu, bus, dest);
    spec_addr16_write(cpu, bus, dest, u16_specs::wrapping_sub(v, 1))
}

pub fn dec_16(cpu: &mut Cpu, bus: &mut Bus, dest: Addr16)
    requires
        old(bus)@.wf(),
    ensures
        ({
            let r = spec_dec_16(*old(cpu), old(bus)@, dest);
            *final(cpu) == r.0 && final(bus)@ == r.1
        }),
        final(bus)@.wf(),
{
    let v = addr16_read(cpu, bus, dest);
    addr16_write(cpu, bus, dest, v.wrapping_sub(1));
}

/// DAA: adjusts A back to binary-coded decimal after an add or subtract,
/// using N, H and C; Z from the adjusted A, H cleared, C possibly set.
pub open spec fn spec_daa(cpu: Cpu) -> Cpu {
    let f = cpu.regs.f;
    let n = f & 0x40 == 0x40;
    let h = f & 0x20 == 0x20;
    let c = f & 0x10 == 0x10;
    let a0 = cpu.regs.a as int;
    let a: int = if !n {
        let a1: int = if h || a0 % 16 > 9 { a0 + 6 } else { a0 };
        if c || a1 > 0x9F { a1 + 0x60 } else { a1 }
    } else {
        let a1: int = if h { if a0 >= 6 { a0 - 6 } else { a0 + 250 } } else { a0 };
        if c { u16_specs::wrapping_sub(a1 as u16, 0x60) as int } else { a1 }
    };
    Cpu {
        regs: Registers {
            a: (a % 256) as u8,
            f: spec_flags(a % 256 == 0, n, false, (a / 256) % 2 == 1),
            ..cpu.regs
        },
        ..cpu
    }
}

pub fn daa(cpu: &mut Cpu)
    ensures
        *final(cpu) == spec_daa(*old(cpu)),
{
    let f = cpu.regs.f();
    let n = (f & 0x40) == 0x40;
    let h = (f & 0x20) == 0x20;
    let c = (f & 0x10) == 0x10;
    let mut a: u16 = cpu.regs.a() as u16;
    if !n {
        if h || a % 16 > 9 {
            a = a + 6;
        }
        if c || a > 0x9F {
            a = a + 0x60;
        }
    } else {
        if h {
            a = if a >= 6 {
                a - 6
            } else {
                a + 250
            };
        }
        if c {
            a = a.wrapping_sub(0x60);
        }
    }
    let newf = flag_byte(a % 256 == 0, n, false, (a / 256) % 2 == 1);
    cpu.regs.set_a((a % 256) as u8);
    cpu.regs.set_f(newf);
}

/// SCF: sets the carry; Z preserved, N and H cleared.
pub open spec fn spec_scf(cpu: Cpu) -> Cpu {
    Cpu {
        regs: Registers {
            f: spec_flags(cpu.regs.f & 0x80 == 0x80, false, false, true),
            ..cpu.regs
        },
        ..cpu
    }
}

pub fn scf(cpu: &mut Cpu)
    ensures
        *final(cpu) == spec_scf(*old(cpu)),
{
    let f = flag_byte((cpu.regs.f & 0x80) == 0x80, false, false, true);
    cpu.regs.set_f(f);
}

/// CCF: toggles the carry; Z preserved, N and H cleared.
pub open spec fn spec_ccf(cpu: Cpu) -> Cpu {
    Cpu {
        regs: Registers {
            f: spec_flags(
                cpu.regs.f & 0x80 == 0x80,
                false,
                false,
                cpu.regs.f & 0x10 != 0x10,
            ),
            ..cpu.regs
        },
        ..cpu
    }
}

pub fn ccf(cpu: &mut Cpu)
    ensures
        *final(cpu) == spec_ccf(*old(cpu)),
{
    let f = flag_byte((cpu.regs.f & 0x80) == 0x80, false, false, (cpu.regs.f & 0x10) != 0x10);
    cpu.regs.set_f(f);
}

/// CPL: complements A; N and H set, Z and C preserved.
pub open spec fn spec_cpl(cpu: Cpu) -> Cpu {
    Cpu {
        regs: Registers { a: !cpu.regs.a, f: mask_flags(cpu.regs.f | 0x60), ..cpu.regs },
        ..cpu
    }
}

pub fn cpl(cpu: &mut Cpu)
    ensures
        *final(cpu) == spec_cpl(*old(cpu)),
{
    let a = !cpu.regs.a;
    let f = cpu.regs.f | 0x60;
    cpu.regs.set_a(a);
    cpu.regs.set_f(f);
}

} // verus!
