//! System-wide laws, each proved against the specification functions the
//! components' contracts are stated over.

use vstd::prelude::*;
use vstd::wrapping::u16_specs;
use crate::addressing::{Addr8, Addr16, spec_addr8_read};
use crate::bus::BusView;
use crate::cpu::{Condition, Cpu, spec_step, spec_push, spec_pop, spec_handle_interrupt, spec_interrupt_mask, Interrupt};
use crate::bits::{spec_swap, spec_bit, spec_res, spec_set};
use crate::jumps::{spec_call, spec_ret};
use crate::lcd::{LcdView, Mode, mode_threshold};
use crate::loads::{spec_ld, spec_push_op, spec_pop_op};
use crate::registers::{Register, Registers, word_of, high_byte, low_byte, mask_flags, spec_flags};

verus! {

/// Writing the word `w` to AF and reading AF back yields `w & 0xFFF0`:
/// the lower nibble of F is hardwired to zero on every write path.
pub proof fn lemma_af_write_masks(regs: Registers, w: u16)
    ensures
        ({
            let r2 = Registers { a: high_byte(w), f: mask_flags(low_byte(w)), ..regs };
            word_of(r2.a, r2.f) == w & 0xFFF0
        }),
{
    assert((w / 256) * 256 + ((w % 256) & 0xF0) == w & 0xFFF0) by (bit_vector);
}

/// Echo RAM: writing byte `b` at an address in 0xE000..0xFDFF stores it so
/// that both the echo address and its work-RAM twin 0x2000 below read `b`.
pub proof fn lemma_echo_ram(bus: BusView, a: u16, b: u8)
    requires
        bus.wf(),
        0xE000 <= a <= 0xFDFF,
    ensures
        ({
            let b2 = bus.spec_write(a, b);
            b2.spec_read(a) == b && b2.spec_read((a - 0x2000) as u16) == b
        }),
{
}

/// One CPU step is a function of the machine state alone: two identical
/// machines step to identical post-states and cycle counts, so repeating
/// a non-conditional opcode from a fixed state repeats its effect exactly.
pub proof fn lemma_step_deterministic(cpu1: Cpu, bus1: BusView, cpu2: Cpu, bus2: BusView)
    requires
        cpu1 == cpu2,
        bus1 == bus2,
    ensures
        spec_step(cpu1, bus1) == spec_step(cpu2, bus2),
{
}

/// Where the display stands inside the 70224-cycle frame: LY lines of 456
/// cycles each, plus the cycles spent in the current mode.
pub open spec fn frame_position(lcd: LcdView) -> int {
    match lcd.mode {
        Mode::Oam => lcd.ly * 456 + lcd.mode_cycles,
        Mode::Transfer => lcd.ly * 456 + 80 + lcd.mode_cycles,
        Mode::HBlank => lcd.ly * 456 + 252 + lcd.mode_cycles,
        Mode::VBlank => lcd.ly * 456 + lcd.mode_cycles,
    }
}

/// The LY sequence over a frame: while the display is enabled, each step
/// advances the frame position by exactly the cycles given, wrapping at
/// 70224, and LY always equals the current position's 456-cycle line. So
/// LY runs 0 for 456 cycles, 1 for the next 456, ... up to 153, then wraps.
pub proof fn lemma_ly_tracks_frame_position(lcd: LcdView, cycles: usize, buf: Seq<u32>)
    requires
        lcd.wf(),
        lcd.enabled(),
        cycles <= 80,
    ensures
        ({
            let l2 = lcd.spec_step(cycles, buf).0;
            let p2 = frame_position(l2);
            &&& (p2 == frame_position(lcd) + cycles || p2 == frame_position(lcd) + cycles
                - 70224)
            &&& 456 * l2.ly <= p2 < 456 * (l2.ly + 1)
            &&& 0 <= p2 < 70224
        }),
{
}

/// Distinct interrupt sources use distinct IF bits.
proof fn lemma_masks_disjoint(i: Interrupt, j: Interrupt)
    requires
        i != j,
    ensures
        spec_interrupt_mask(i) & spec_interrupt_mask(j) == 0,
{
    assert(1u8 & 2 == 0 && 1u8 & 4 == 0 && 1u8 & 8 == 0 && 1u8 & 16 == 0 && 2u8 & 4 == 0
        && 2u8 & 8 == 0 && 2u8 & 16 == 0 && 4u8 & 8 == 0 && 4u8 & 16 == 0 && 8u8 & 16 == 0
        && 2u8 & 1 == 0 && 4u8 & 1 == 0 && 8u8 & 1 == 0 && 16u8 & 1 == 0 && 4u8 & 2 == 0
        && 8u8 & 2 == 0 && 16u8 & 2 == 0 && 8u8 & 4 == 0 && 16u8 & 4 == 0 && 16u8 & 8 == 0)
        by (bit_vector);
}

/// Bits behind disjoint masks survive clearing and setting the other mask.
proof fn lemma_bit_isolation(a: u8, m1: u8, m2: u8)
    requires
        m1 & m2 == 0,
    ensures
        (a & !m1) & m2 == a & m2,
        (a | m1) & m2 == a & m2,
        (a & !m1) & m1 == 0,
        (a | m1) & m1 == m1,
{
    assert(m1 & m2 == 0 ==> ((a & !m1) & m2 == a & m2 && (a | m1) & m2 == a & m2 && (a & !m1)
        & m1 == 0 && (a | m1) & m1 == m1)) by (bit_vector);
}

/// A set IF bit survives any bus write that does not store to IF itself;
/// only a write of a 0 bit to 0xFF0F can take it away.
pub proof fn lemma_if_bit_persists_across_write(bus: BusView, addr: u16, val: u8, i: Interrupt)
    requires
        bus.wf(),
        addr != 0xFF0F,
        bus.io_if & spec_interrupt_mask(i) == spec_interrupt_mask(i),
    ensures
        ({
            let b2 = bus.spec_write(addr, val);
            b2.io_if & spec_interrupt_mask(i) == spec_interrupt_mask(i)
        }),
{
    if addr == 0xFF46 {
        lemma_dma_preserves_if(bus, val, 160);
    }
}

/// OAM DMA never touches IF.
proof fn lemma_dma_preserves_if(bus: BusView, val: u8, n: int)
    ensures
        bus.spec_dma(val, n).io_if == bus.io_if,
    decreases n,
{
    if n > 0 {
        lemma_dma_preserves_if(bus, val, n - 1);
    }
}

/// Raising a source sets exactly its IF bit: every other source's bit is
/// untouched.
pub proof fn lemma_raise_sets_one_bit(io_if: u8, i: Interrupt, j: Interrupt)
    requires
        i != j,
    ensures
        (io_if | spec_interrupt_mask(i)) & spec_interrupt_mask(i) == spec_interrupt_mask(i),
        (io_if | spec_interrupt_mask(i)) & spec_interrupt_mask(j) == io_if
            & spec_interrupt_mask(j),
{
    lemma_masks_disjoint(i, j);
    lemma_bit_isolation(io_if, spec_interrupt_mask(i), spec_interrupt_mask(j));
}

/// Dispatching source `i` clears exactly its own IF bit: afterwards bit `i`
/// is clear and every other source's bit reads as before. The stack bytes
/// must not land on the IF register itself.
pub proof fn lemma_dispatch_clears_one_bit(cpu: Cpu, bus: BusView, i: Interrupt, j: Interrupt)
    requires
        bus.wf(),
        i != j,
        u16_specs::wrapping_sub(cpu.regs.sp, 1) != 0xFF0F,
        u16_specs::wrapping_sub(cpu.regs.sp, 2) != 0xFF0F,
    ensures
        ({
            let h = spec_handle_interrupt(cpu, bus, i);
            h.1.io_if & spec_interrupt_mask(i) == 0 && h.1.io_if & spec_interrupt_mask(j)
                == bus.io_if & spec_interrupt_mask(j)
        }),
{
    lemma_masks_disjoint(i, j);
    let b1 = bus.spec_write(u16_specs::wrapping_sub(cpu.regs.sp, 2), low_byte(cpu.regs.pc));
    if u16_specs::wrapping_sub(cpu.regs.sp, 2) == 0xFF46 {
        lemma_dma_preserves_if(bus, low_byte(cpu.regs.pc), 160);
    }
    if u16_specs::wrapping_sub(cpu.regs.sp, 1) == 0xFF46 {
        lemma_dma_preserves_if(b1, high_byte(cpu.regs.pc), 160);
    }
    lemma_bit_isolation(bus.io_if, spec_interrupt_mask(i), spec_interrupt_mask(j));
}

/// An address backed by plain RAM: work RAM, its echo, or high RAM.
pub open spec fn plain_ram(addr: u16) -> bool {
    (0xC000 <= addr && addr <= 0xDFFF) || (0xFF80 <= addr && addr <= 0xFFFE)
}

/// PUSH rr then POP rr restores the whole CPU exactly, the popped word
/// included, whenever the two stack bytes sit in plain RAM. Popping into
/// AF masks the lower nibble of F, which every write path already keeps
/// zero, so AF round-trips too.
pub proof fn lemma_push_pop_restores(cpu: Cpu, bus: BusView, r: Register)
    requires
        bus.wf(),
        !crate::addressing::reg_is_8(r),
        plain_ram(u16_specs::wrapping_sub(cpu.regs.sp, 1)),
        plain_ram(u16_specs::wrapping_sub(cpu.regs.sp, 2)),
        r is AF ==> mask_flags(cpu.regs.f) == cpu.regs.f,
    ensures
        ({
            let p = spec_push_op(cpu, bus, Addr16::Register(r));
            let q = spec_pop_op(p.0, p.1, Addr16::Register(r));
            q.0 == cpu
        }),
{
    let val = crate::addressing::spec_reg16_read(cpu.regs, r);
    let a2 = u16_specs::wrapping_sub(cpu.regs.sp, 2);
    let a1 = u16_specs::wrapping_sub(cpu.regs.sp, 1);
    let p = spec_push(cpu, bus, val);
    assert(p.1.spec_read(a2) == low_byte(val));
    assert(p.1.spec_read(a1) == high_byte(val));
    assert(word_of(high_byte(val), low_byte(val)) == val);
    let q = spec_pop(p.0, p.1);
    assert(q.1 == val);
    if r is AF {
        assert(high_byte(word_of(cpu.regs.a, cpu.regs.f)) == cpu.regs.a);
        assert(low_byte(word_of(cpu.regs.a, cpu.regs.f)) == cpu.regs.f);
    }
}

/// LD r, v then LD A, r leaves A holding exactly v, for every byte register
/// the instruction set can name and every value.
pub proof fn lemma_ld_round_trip(cpu: Cpu, bus: BusView, r: Register, v: u8)
    requires
        r is B || r is C || r is D || r is E || r is H || r is L,
    ensures
        ({
            let s1 = spec_ld(cpu, bus, Addr8::Register(r), Addr8::Immediate(v));
            let s2 = spec_ld(s1.0, s1.1, Addr8::Register(Register::A), Addr8::Register(r));
            s2.0.regs.a == v
        }),
{
}

/// CALL addr then RET brings PC back to the instruction after the CALL
/// (the PC the CALL saw, its operand already consumed), with SP restored,
/// whenever the two stack bytes sit in plain RAM.
pub proof fn lemma_call_ret_round_trip(cpu: Cpu, bus: BusView, addr: u16)
    requires
        bus.wf(),
        plain_ram(u16_specs::wrapping_sub(cpu.regs.sp, 1)),
        plain_ram(u16_specs::wrapping_sub(cpu.regs.sp, 2)),
    ensures
        ({
            let c = spec_call(cpu, bus, Condition::Always, Addr16::Immediate(addr));
            let r = spec_ret(c.0, c.1, Condition::Always);
            r.0.regs.pc == cpu.regs.pc && r.0.regs.sp == cpu.regs.sp
        }),
{
    let pc = cpu.regs.pc;
    let a2 = u16_specs::wrapping_sub(cpu.regs.sp, 2);
    let a1 = u16_specs::wrapping_sub(cpu.regs.sp, 1);
    let c = spec_call(cpu, bus, Condition::Always, Addr16::Immediate(addr));
    assert(c.1.spec_read(a2) == low_byte(pc));
    assert(c.1.spec_read(a1) == high_byte(pc));
    assert(word_of(high_byte(pc), low_byte(pc)) == pc);
}

/// SWAP r twice restores r, for every byte register the prefixed table can
/// name and every value it holds.
pub proof fn lemma_swap_twice_restores(cpu: Cpu, bus: BusView, r: Register)
    requires
        r is A || r is B || r is C || r is D || r is E || r is H || r is L,
    ensures
        ({
            let s1 = spec_swap(cpu, bus, Addr8::Register(r));
            let s2 = spec_swap(s1.0, s1.1, Addr8::Register(r));
            spec_addr8_read(s2.0, s2.1, Addr8::Register(r)) == spec_addr8_read(
                cpu,
                bus,
                Addr8::Register(r),
            )
        }),
{
    let v = spec_addr8_read(cpu, bus, Addr8::Register(r));
    assert({
        let w = ((v & 0x0F) << 4) | ((v & 0xF0) >> 4);
        (((w & 0x0F) << 4) | ((w & 0xF0) >> 4)) == v
    }) by (bit_vector);
}

/// SET b, r then BIT b, r reports the bit present: the flags read Z clear,
/// N clear, H set, C preserved. RES b, r then BIT b, r reports it absent:
/// Z set instead.
pub proof fn lemma_set_res_bit(cpu: Cpu, bus: BusView, b: u8, r: Register)
    requires
        b < 8,
        r is A || r is B || r is C || r is D || r is E || r is H || r is L,
    ensures
        ({
            let s = spec_set(cpu, bus, b, Addr8::Register(r));
            let after = spec_bit(s.0, s.1, b, Addr8::Register(r));
            after.regs.f == spec_flags(false, false, true, s.0.regs.f & 0x10 == 0x10)
        }),
        ({
            let s = spec_res(cpu, bus, b, Addr8::Register(r));
            let after = spec_bit(s.0, s.1, b, Addr8::Register(r));
            after.regs.f == spec_flags(true, false, true, s.0.regs.f & 0x10 == 0x10)
        }),
{
    let v = spec_addr8_read(cpu, bus, Addr8::Register(r));
    assert(b < 8 ==> ((v | (1u8 << b)) & (1u8 << b) != 0 && (v & !(1u8 << b)) & (1u8 << b)
        == 0)) by (bit_vector);
}

/// The timer mode and line counter stay within their documented frames: a
/// step of a well-formed display leaves it well-formed, with LY at most
/// 153 and below 144 outside VBlank.
pub proof fn lemma_lcd_wf_preserved(lcd: LcdView, cycles: usize, buf: Seq<u32>)
    requires
        lcd.wf(),
        cycles <= 80,
    ensures
        lcd.spec_step(cycles, buf).0.wf(),
{
}

} // verus!
