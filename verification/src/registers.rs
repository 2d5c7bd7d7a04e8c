//! The CPU register file: six 16-bit words, the first four also viewed as
//! byte halves, and the four status flags held in the upper nibble of F.
//! The lower nibble of F is hardwired to zero: every write path masks it.

use vstd::prelude::*;

verus! {

/// Names for the byte and word registers an operand can select.
#[derive(Copy, Clone, PartialEq, Eq, Structural, Debug)]
pub enum Register {
    A,
    B,
    C,
    D,
    E,
    F,
    H,
    L,
    AF,
    BC,
    DE,
    HL,
    SP,
    PC,
}

pub const FLAG_Z: u8 = 0x80;

pub const FLAG_N: u8 = 0x40;

pub const FLAG_H: u8 = 0x20;

pub const FLAG_C: u8 = 0x10;

/// The register file. Byte halves are stored directly; the word views
/// AF, BC, DE and HL are high * 256 + low.
#[derive(Copy, Clone, PartialEq, Eq, Structural, Debug)]
pub struct Registers {
    pub a: u8,
    pub f: u8,
    pub b: u8,
    pub c: u8,
    pub d: u8,
    pub e: u8,
    pub h: u8,
    pub l: u8,
    pub sp: u16,
    pub pc: u16,
}

/// The word made of a high and a low byte.
pub open spec fn word_of(high: u8, low: u8) -> u16 {
    (high * 256 + low) as u16
}

/// High byte of a word.
pub open spec fn high_byte(w: u16) -> u8 {
    (w / 256) as u8
}

/// Low byte of a word.
pub open spec fn low_byte(w: u16) -> u8 {
    (w % 256) as u8
}

/// A flag byte with the hardwired-zero lower nibble masked off.
pub open spec fn mask_flags(v: u8) -> u8 {
    v & 0xF0
}

/// The F byte carrying exactly the given Z, N, H and C flags.
pub open spec fn spec_flags(z: bool, n: bool, h: bool, c: bool) -> u8 {
    ((if z { 0x80 as int } else { 0 }) + (if n { 0x40 as int } else { 0 })
        + (if h { 0x20 as int } else { 0 }) + (if c { 0x10 as int } else { 0 })) as u8
}

/// The F byte carrying exactly the given Z, N, H and C flags.
pub fn flag_byte(z: bool, n: bool, h: bool, c: bool) -> (r: u8)
    ensures
        r == spec_flags(z, n, h, c),
        r % 16 == 0,
{
    (if z { 0x80 } else { 0 }) + (if n { 0x40 } else { 0 }) + (if h { 0x20 } else { 0 }) + (
    if c { 0x10 } else { 0 })
}

impl Registers {
    /// Power-on state has every register zero; `Cpu::reset` loads the
    /// documented boot values.
    pub fn new() -> (r: Registers)
        ensures
            r == (Registers {
                a: 0u8,
                f: 0u8,
                b: 0u8,
                c: 0u8,
                d: 0u8,
                e: 0u8,
                h: 0u8,
                l: 0u8,
                sp: 0u16,
                pc: 0u16,
            }),
    {
        Registers { a: 0, f: 0, b: 0, c: 0, d: 0, e: 0, h: 0, l: 0, sp: 0, pc: 0 }
    }

    pub fn a(&self) -> (r: u8)
        ensures
            r == self.a,
    {
        self.a
    }

    pub fn set_a(&mut self, val: u8)
        ensures
            *final(self) == (Registers { a: val, ..*old(self) }),
    {
        self.a = val;
    }

    pub fn b(&self) -> (r: u8)
        ensures
            r == self.b,
    {
        self.b
    }

    pub fn set_b(&mut self, val: u8)
        ensures
            *final(self) == (Registers { b: val, ..*old(self) }),
    {
        self.b = val;
    }

    pub fn c(&self) -> (r: u8)
        ensures
            r == self.c,
    {
        self.c
    }

    pub fn set_c(&mut self, val: u8)
        ensures
            *final(self) == (Registers { c: val, ..*old(self) }),
    {
        self.c = val;
    }

    pub fn d(&self) -> (r: u8)
        ensures
            r == self.d,
    {
        self.d
    }

    pub fn set_d(&mut self, val: u8)
        ensures
            *final(self) == (Registers { d: val, ..*old(self) }),
    {
        self.d = val;
    }

    pub fn e(&self) -> (r: u8)
        ensures
            r == self.e,
    {
        self.e
    }

    pub fn set_e(&mut self, val: u8)
        ensures
            *final(self) == (Registers { e: val, ..*old(self) }),
    {
        self.e = val;
    }

    pub fn f(&self) -> (r: u8)
        ensures
            r == self.f,
    {
        self.f
    }

    /// The lower nibble of F cannot be written: it reads back as zero.
    pub fn set_f(&mut self, val: u8)
        ensures
            *final(self) == (Registers { f: mask_flags(val), ..*old(self) }),
    {
        self.f = val & 0xF0;
    }

    pub fn h(&self) -> (r: u8)
        ensures
            r == self.h,
    {
        self.h
    }

    pub fn set_h(&mut self, val: u8)
        ensures
            *final(self) == (Registers { h: val, ..*old(self) }),
    {
        self.h = val;
    }

    pub fn l(&self) -> (r: u8)
        ensures
            r == self.l,
    {
        self.l
    }

    pub fn set_l(&mut self, val: u8)
        ensures
            *final(self) == (Registers { l: val, ..*old(self) }),
    {
        self.l = val;
    }

    pub fn af(&self) -> (r: u16)
        ensures
            r == word_of(self.a, self.f),
    {
        (self.a as u16) * 256 + (self.f as u16)
    }

    /// Writing AF masks the lower nibble of F to zero.
    pub fn set_af(&mut self, val: u16)
        ensures
            *final(self) == (Registers {
                a: high_byte(val),
                f: mask_flags(low_byte(val)),
                ..*old(self)
            }),
    {
        self.a = (val / 256) as u8;
        self.f = ((val % 256) as u8) & 0xF0;
    }

    pub fn bc(&self) -> (r: u16)
        ensures
            r == word_of(self.b, self.c),
    {
        (self.b as u16) * 256 + (self.c as u16)
    }

    pub fn set_bc(&mut self, val: u16)
        ensures
            *final(self) == (Registers {
                b: high_byte(val),
                c: low_byte(val),
                ..*old(self)
            }),
    {
        self.b = (val / 256) as u8;
        self.c = (val % 256) as u8;
    }

    pub fn de(&self) -> (r: u16)
        ensures
            r == word_of(self.d, self.e),
    {
        (self.d as u16) * 256 + (self.e as u16)
    }

    pub fn set_de(&mut self, val: u16)
        ensures
            *final(self) == (Registers {
                d: high_byte(val),
                e: low_byte(val),
                ..*old(self)
            }),
    {
        self.d = (val / 256) as u8;
        self.e = (val % 256) as u8;
    }

    pub fn hl(&self) -> (r: u16)
        ensures
            r == word_of(self.h, self.l),
    {
        (self.h as u16) * 256 + (self.l as u16)
    }

    pub fn set_hl(&mut self, val: u16)
        ensures
            *final(self) == (Registers {
                h: high_byte(val),
                l: low_byte(val),
                ..*old(self)
            }),
    {
        self.h = (val / 256) as u8;
        self.l = (val % 256) as u8;
    }

    pub fn sp(&self) -> (r: u16)
        ensures
            r == self.sp,
    {
        self.sp
    }

    pub fn set_sp(&mut self, val: u16)
        ensures
            *final(self) == (Registers { sp: val, ..*old(self) }),
    {
        self.sp = val;
    }

    pub fn pc(&self) -> (r: u16)
        ensures
            r == self.pc,
    {
        self.pc
    }

    pub fn set_pc(&mut self, val: u16)
        ensures
            *final(self) == (Registers { pc: val, ..*old(self) }),
    {
        self.pc = val;
    }

    /// Whether every bit of `flag` is set in F.
    pub fn has_flag(&self, flag: u8) -> (r: bool)
        ensures
            r == (self.f & flag == flag),
    {
        (self.f & flag) == flag
    }

    /// Sets or clears the given flag bits; the lower nibble stays zero.
    pub fn set_flag(&mut self, flag: u8, set: bool)
        ensures
            *final(self) == (Registers {
                f: mask_flags(if set { old(self).f | flag } else { old(self).f & !flag }),
                ..*old(self)
            }),
    {
        let flags = if set {
            self.f | flag
        } else {
            self.f & !flag
        };
        self.set_f(flags);
    }

    pub fn carry(&self) -> (r: bool)
        ensures
            r == (self.f & FLAG_C == FLAG_C),
    {
        self.has_flag(FLAG_C)
    }

    pub fn set_carry(&mut self, set: bool)
        ensures
            *final(self) == (Registers {
                f: mask_flags(if set { old(self).f | FLAG_C } else { old(self).f & !FLAG_C }),
                ..*old(self)
            }),
    {
        self.set_flag(FLAG_C, set);
    }

    pub fn halfcarry(&self) -> (r: bool)
        ensures
            r == (self.f & FLAG_H == FLAG_H),
    {
        self.has_flag(FLAG_H)
    }

    pub fn set_halfcarry(&mut self, set: bool)
        ensures
            *final(self) == (Registers {
                f: mask_flags(if set { old(self).f | FLAG_H } else { old(self).f & !FLAG_H }),
                ..*old(self)
            }),
    {
        self.set_flag(FLAG_H, set);
    }

    pub fn subtract(&self) -> (r: bool)
        ensures
            r == (self.f & FLAG_N == FLAG_N),
    {
        self.has_flag(FLAG_N)
    }

    pub fn set_subtract(&mut self, set: bool)
        ensures
            *final(self) == (Registers {
                f: mask_flags(if set { old(self).f | FLAG_N } else { old(self).f & !FLAG_N }),
                ..*old(self)
            }),
    {
        self.set_flag(FLAG_N, set);
    }

    pub fn zero(&self) -> (r: bool)
        ensures
            r == (self.f & FLAG_Z == FLAG_Z),
    {
        self.has_flag(FLAG_Z)
    }

    pub fn set_zero(&mut self, set: bool)
        ensures
            *final(self) == (Registers {
                f: mask_flags(if set { old(self).f | FLAG_Z } else { old(self).f & !FLAG_Z }),
                ..*old(self)
            }),
    {
        self.set_flag(FLAG_Z, set);
    }
}

} // verus!
