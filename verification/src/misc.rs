//! The no-operation, halt and interrupt-master instructions. STOP is
//! treated as HALT.

use vstd::prelude::*;
use crate::cpu::Cpu;

verus! {

/// NOP: nothing happens.
pub fn nop()
{
}

/// STOP: treated as HALT.
pub fn stop(cpu: &mut Cpu)
    ensures
        *final(cpu) == (Cpu { halted: true, ..*old(cpu) }),
{
    cpu.halted = true;
}

/// HALT: the CPU idles until an interrupt is pending.
pub fn halt(cpu: &mut Cpu)
    ensures
        *final(cpu) == (Cpu { halted: true, ..*old(cpu) }),
{
    cpu.halted = true;
}

/// DI: clears the interrupt master enable.
pub fn di(cpu: &mut Cpu)
    ensures
        *final(cpu) == (Cpu { ime: false, ..*old(cpu) }),
{
    cpu.ime = false;
}

/// EI: sets the interrupt master enable.
pub fn ei(cpu: &mut Cpu)
    ensures
        *final(cpu) == (Cpu { ime: true, ..*old(cpu) }),
{
    cpu.ime = true;
}

} // verus!
