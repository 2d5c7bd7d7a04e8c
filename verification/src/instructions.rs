//! The instruction set: the decoded form of every opcode, the decoder from
//! opcode bytes (with their immediates) to that form, and the executor that
//! applies one decoded instruction to the machine.

use vstd::prelude::*;
use vstd::wrapping::u16_specs;
use crate::addressing::{Addr8, Addr16};
use crate::bus::{Bus, BusView};
use crate::cpu::{Condition, Cpu};
use crate::registers::{Register, word_of};
use crate::bits;
use crate::jumps;
use crate::loads;
use crate::math;
use crate::misc;

verus! {

/// One decoded operation with its operands. `Illegal` stands for the eleven
/// undefined opcodes, which execute as a no-operation.
#[derive(Copy, Clone, PartialEq, Eq, Structural, Debug)]
pub enum Instruction {
    Nop,
    Ld8(Addr8, Addr8),
    Ld16(Addr16, Addr16),
    Stop,
    Jr(Condition, Addr8),
    Add16(Addr16, Addr16),
    Inc8(Addr8),
    Inc16(Addr16),
    Dec8(Addr8),
    Dec16(Addr16),
    Rlca,
    Rrca,
    Rla,
    Rra,
    Daa,
    Cpl,
    Scf,
    Ccf,
    Ldd(Addr8, Addr8),
    Ldi(Addr8, Addr8),
    Add8(Addr8),
    Adc(Addr8),
    Sub(Addr8),
    Sbc(Addr8),
    And(Addr8),
    Xor(Addr8),
    Or(Addr8),
    Cp(Addr8),
    Halt,
    Ret(Condition),
    AddSp(Addr8),
    Ldh(Addr8, Addr8),
    Ldhl(Addr8),
    Pop(Addr16),
    Reti,
    Jp(Condition, Addr16),
    Di,
    Ei,
    Call(Condition, Addr16),
    Push(Addr16),
    Rst(u8),
    Rlc(Addr8),
    Rrc(Addr8),
    Rl(Addr8),
    Rr(Addr8),
    Sla(Addr8),
    Sra(Addr8),
    Swap(Addr8),
    Srl(Addr8),
    Bit(u8, Addr8),
    Res(u8, Addr8),
    SetBit(u8, Addr8),
    Illegal,
}

/// The condition selected by two opcode bits.
pub open spec fn spec_cond_table(idx: u8) -> Condition {
    if idx == 0 {
        Condition::Nz
    } else if idx == 1 {
        Condition::Z
    } else if idx == 2 {
        Condition::Nc
    } else {
        Condition::C
    }
}

/// The 8-bit operand selected by three opcode bits: B C D E H L (HL) A.
pub open spec fn spec_reg_addr_table(idx: u8) -> Addr8 {
    if idx == 0 {
        Addr8::Register(Register::B)
    } else if idx == 1 {
        Addr8::Register(Register::C)
    } else if idx == 2 {
        Addr8::Register(Register::D)
    } else if idx == 3 {
        Addr8::Register(Register::E)
    } else if idx == 4 {
        Addr8::Register(Register::H)
    } else if idx == 5 {
        Addr8::Register(Register::L)
    } else if idx == 6 {
        Addr8::RegisterIndirect(Register::HL)
    } else {
        Addr8::Register(Register::A)
    }
}

/// The register pair selected by two opcode bits, SP in the first bank and
/// AF in the second.
pub open spec fn spec_reg_pair_table(idx: u8) -> Register {
    if idx == 0 || idx == 4 {
        Register::BC
    } else if idx == 1 || idx == 5 {
        Register::DE
    } else if idx == 2 || idx == 6 {
        Register::HL
    } else if idx == 3 {
        Register::SP
    } else {
        Register::AF
    }
}

/// The accumulator operation selected by three opcode bits.
pub open spec fn spec_alu_table(y: u8, src: Addr8) -> Instruction {
    if y == 0 {
        Instruction::Add8(src)
    } else if y == 1 {
        Instruction::Adc(src)
    } else if y == 2 {
        Instruction::Sub(src)
    } else if y == 3 {
        Instruction::Sbc(src)
    } else if y == 4 {
        Instruction::And(src)
    } else if y == 5 {
        Instruction::Xor(src)
    } else if y == 6 {
        Instruction::Or(src)
    } else {
        Instruction::Cp(src)
    }
}

/// What `decode` produces for an opcode at `pc` (`pc` already past the
/// opcode bytes), and where PC stands after the immediates are consumed.
pub open spec fn spec_decode(bus: BusView, pc: u16, opcode: u8, prefixed: bool) -> (
    Instruction,
    u16,
) {
    let x = opcode / 64;
    let y = (opcode / 8) % 8;
    let z = opcode % 8;
    let p = y / 2;
    let q = y % 2;
    let imm8 = bus.spec_read(pc);
    let imm16 = word_of(bus.spec_read(u16_specs::wrapping_add(pc, 1)), bus.spec_read(pc));
    let pc1 = u16_specs::wrapping_add(pc, 1);
    let pc2 = u16_specs::wrapping_add(pc, 2);
    if !prefixed {
        if x == 0 {
            if z == 0 {
                if y == 0 {
                    (Instruction::Nop, pc)
                } else if y == 1 {
                    (Instruction::Ld16(Addr16::Indirect(imm16), Addr16::Register(Register::SP)), pc2)
                } else if y == 2 {
                    (Instruction::Stop, pc2)
                } else if y == 3 {
                    (Instruction::Jr(Condition::Always, Addr8::Immediate(imm8)), pc1)
                } else {
                    (Instruction::Jr(spec_cond_table((y - 4) as u8), Addr8::Immediate(imm8)), pc1)
                }
            } else if z == 1 {
                if q == 0 {
                    (
                        Instruction::Ld16(
                            Addr16::Register(spec_reg_pair_table(p)),
                            Addr16::Immediate(imm16),
                        ),
                        pc2,
                    )
                } else {
                    (
                        Instruction::Add16(
                            Addr16::Register(Register::HL),
                            Addr16::Register(spec_reg_pair_table(p)),
                        ),
                        pc,
                    )
                }
            } else if z == 2 {
                if q == 0 {
                    if p == 0 {
                        (
                            Instruction::Ld8(
                                Addr8::RegisterIndirect(Register::BC),
                                Addr8::Register(Register::A),
                            ),
                            pc,
                        )
                    } else if p == 1 {
                        (
                            Instruction::Ld8(
                                Addr8::RegisterIndirect(Register::DE),
                                Addr8::Register(Register::A),
                            ),
                            pc,
                        )
                    } else if p == 2 {
                        (
                            Instruction::Ldi(
                                Addr8::RegisterIndirect(Register::HL),
                                Addr8::Register(Register::A),
                            ),
                            pc,
                        )
                    } else {
                        (
                            Instruction::Ldd(
                                Addr8::RegisterIndirect(Register::HL),
                                Addr8::Register(Register::A),
                            ),
                            pc,
                        )
                    }
                } else {
                    if p == 0 {
                        (
                            Instruction::Ld8(
                                Addr8::Register(Register::A),
                                Addr8::RegisterIndirect(Register::BC),
                            ),
                            pc,
                        )
                    } else if p == 1 {
                        (
                            Instruction::Ld8(
                                Addr8::Register(Register::A),
                                Addr8::RegisterIndirect(Register::DE),
                            ),
                            pc,
                        )
                    } else if p == 2 {
                        (
                            Instruction::Ldi(
                                Addr8::Register(Register::A),
                                Addr8::RegisterIndirect(Register::HL),
                            ),
                            pc,
                        )
                    } else {
                        (
                            Instruction::Ldd(
                                Addr8::Register(Register::A),
                                Addr8::RegisterIndirect(Register::HL),
                            ),
                            pc,
                        )
                    }
                }
            } else if z == 3 {
                if q == 0 {
                    (Instruction::Inc16(Addr16::Register(spec_reg_pair_table(p))), pc)
                } else {
                    (Instruction::Dec16(Addr16::Register(spec_reg_pair_table(p))), pc)
                }
            } else if z == 4 {
                (Instruction::Inc8(spec_reg_addr_table(y)), pc)
            } else if z == 5 {
                (Instruction::Dec8(spec_reg_addr_table(y)), pc)
            } else if z == 6 {
                (Instruction::Ld8(spec_reg_addr_table(y), Addr8::Immediate(imm8)), pc1)
            } else {
                if y == 0 {
                    (Instruction::Rlca, pc)
                } else if y == 1 {
                    (Instruction::Rrca, pc)
                } else if y == 2 {
                    (Instruction::Rla, pc)
                } else if y == 3 {
                    (Instruction::Rra, pc)
                } else if y == 4 {
                    (Instruction::Daa, pc)
                } else if y == 5 {
                    (Instruction::Cpl, pc)
                } else if y == 6 {
                    (Instruction::Scf, pc)
                } else {
                    (Instruction::Ccf, pc)
                }
            }
        } else if x == 1 {
            if z == 6 && y == 6 {
                (Instruction::Halt, pc)
            } else {
                (Instruction::Ld8(spec_reg_addr_table(y), spec_reg_addr_table(z)), pc)
            }
        } else if x == 2 {
            (spec_alu_table(y, spec_reg_addr_table(z)), pc)
        } else {
            if z == 0 {
                if y <= 3 {
                    (Instruction::Ret(spec_cond_table(y)), pc)
                } else if y == 4 {
                    (
                        Instruction::Ldh(Addr8::HighIndirect(imm8), Addr8::Register(Register::A)),
                        pc1,
                    )
                } else if y == 5 {
                    (Instruction::AddSp(Addr8::Immediate(imm8)), pc1)
                } else if y == 6 {
                    (
                        Instruction::Ldh(Addr8::Register(Register::A), Addr8::HighIndirect(imm8)),
                        pc1,
                    )
                } else {
                    (Instruction::Ldhl(Addr8::Immediate(imm8)), pc1)
                }
            } else if z == 1 {
                if q == 0 {
                    (Instruction::Pop(Addr16::Register(spec_reg_pair_table((p + 4) as u8))), pc)
                } else if p == 0 {
                    (Instruction::Ret(Condition::Always), pc)
                } else if p == 1 {
                    (Instruction::Reti, pc)
                } else if p == 2 {
                    (Instruction::Jp(Condition::Always, Addr16::Register(Register::HL)), pc)
                } else {
                    (
                        Instruction::Ld16(
                            Addr16::Register(Register::SP),
                            Addr16::Register(Register::HL),
                        ),
                        pc,
                    )
                }
            } else if z == 2 {
                if y <= 3 {
                    (Instruction::Jp(spec_cond_table(y), Addr16::Immediate(imm16)), pc2)
                } else if y == 4 {
                    (
                        Instruction::Ld8(
                            Addr8::RegisterIndirect(Register::C),
                            Addr8::Register(Register::A),
                        ),
                        pc,
                    )
                } else if y == 5 {
                    (Instruction::Ld8(Addr8::Indirect(imm16), Addr8::Register(Register::A)), pc2)
                } else if y == 6 {
                    (
                        Instruction::Ld8(
                            Addr8::Register(Register::A),
                            Addr8::RegisterIndirect(Register::C),
                        ),
                        pc,
                    )
                } else {
                    (Instruction::Ld8(Addr8::Register(Register::A), Addr8::Indirect(imm16)), pc2)
                }
            } else if z == 3 {
                if y == 0 {
                    (Instruction::Jp(Condition::Always, Addr16::Immediate(imm16)), pc2)
                } else if y == 6 {
                    (Instruction::Di, pc)
                } else if y == 7 {
                    (Instruction::Ei, pc)
                } else {
                    (Instruction::Illegal, pc)
                }
            } else if z == 4 {
                if y <= 3 {
                    (Instruction::Call(spec_cond_table(y), Addr16::Immediate(imm16)), pc2)
                } else {
                    (Instruction::Illegal, pc)
                }
            } else if z == 5 {
                if q == 0 {
                    (Instruction::Push(Addr16::Register(spec_reg_pair_table((p + 4) as u8))), pc)
                } else if p == 0 {
                    (Instruction::Call(Condition::Always, Addr16::Immediate(imm16)), pc2)
                } else {
                    (Instruction::Illegal, pc)
                }
            } else if z == 6 {
                (spec_alu_table(y, Addr8::Immediate(imm8)), pc1)
            } else {
                (Instruction::Rst(y), pc)
            }
        }
    } else {
        let operand = spec_reg_addr_table(z);
        if x == 0 {
            if y == 0 {
                (Instruction::Rlc(operand), pc)
            } else if y == 1 {
                (Instruction::Rrc(operand), pc)
            } else if y == 2 {
                (Instruction::Rl(operand), pc)
            } else if y == 3 {
                (Instruction::Rr(operand), pc)
            } else if y == 4 {
                (Instruction::Sla(operand), pc)
            } else if y == 5 {
                (Instruction::Sra(operand), pc)
            } else if y == 6 {
                (Instruction::Swap(operand), pc)
            } else {
                (Instruction::Srl(operand), pc)
            }
        } else if x == 1 {
            (Instruction::Bit(y, operand), pc)
        } else if x == 2 {
            (Instruction::Res(y, operand), pc)
        } else {
            (Instruction::SetBit(y, operand), pc)
        }
    }
}

/// The condition selected by two opcode bits.
pub fn cond_table(idx: u8) -> (r: Condition)
    ensures
        r == spec_cond_table(idx),
{
    if idx == 0 {
        Condition::Nz
    } else if idx == 1 {
        Condition::Z
    } else if idx == 2 {
        Condition::Nc
    } else {
        Condition::C
    }
}

/// The 8-bit operand selected by three opcode bits.
pub fn reg_addr_table(idx: u8) -> (r: Addr8)
    ensures
        r == spec_reg_addr_table(idx),
{
    if idx == 0 {
        Addr8::Register(Register::B)
    } else if idx == 1 {
        Addr8::Register(Register::C)
    } else if idx == 2 {
        Addr8::Register(Register::D)
    } else if idx == 3 {
        Addr8::Register(Register::E)
    } else if idx == 4 {
        Addr8::Register(Register::H)
    } else if idx == 5 {
        Addr8::Register(Register::L)
    } else if idx == 6 {
        Addr8::RegisterIndirect(Register::HL)
    } else {
        Addr8::Register(Register::A)
    }
}

/// The register pair selected by two opcode bits.
pub fn reg_pair_table(idx: u8) -> (r: Register)
    ensures
        r == spec_reg_pair_table(idx),
{
    if idx == 0 || idx == 4 {
        Register::BC
    } else if idx == 1 || idx == 5 {
        Register::DE
    } else if idx == 2 || idx == 6 {
        Register::HL
    } else if idx == 3 {
        Register::SP
    } else {
        Register::AF
    }
}

fn decode_alu(y: u8, src: Addr8) -> (r: Instruction)
    ensures
        r == spec_alu_table(y, src),
{
    if y == 0 {
        Instruction::Add8(src)
    } else if y == 1 {
        Instruction::Adc(src)
    } else if y == 2 {
        Instruction::Sub(src)
    } else if y == 3 {
        Instruction::Sbc(src)
    } else if y == 4 {
        Instruction::And(src)
    } else if y == 5 {
        Instruction::Xor(src)
    } else if y == 6 {
        Instruction::Or(src)
    } else {
        Instruction::Cp(src)
    }
}

/// Decodes one opcode, consuming its immediates at PC.
pub fn decode(cpu: &mut Cpu, bus: &Bus, opcode: u8, prefixed: bool) -> (r: Instruction)
    requires
        bus@.wf(),
    ensures
        ({
            let d = spec_decode(bus@, old(cpu).regs.pc, opcode, prefixed);
            r == d.0 && final(cpu).regs.pc == d.1
        }),
        *final(cpu) == (Cpu {
            regs: crate::registers::Registers { pc: final(cpu).regs.pc, ..old(cpu).regs },
            ..*old(cpu)
        }),
        instruction_wf(r),
{
    let x = opcode / 64;
    let y = (opcode / 8) % 8;
    let z = opcode % 8;
    let p = y / 2;
    let q = y % 2;
    if !prefixed {
        if x == 0 {
            if z == 0 {
                if y == 0 {
                    Instruction::Nop
                } else if y == 1 {
                    let w = cpu.step_next_word(bus);
                    Instruction::Ld16(Addr16::Indirect(w), Addr16::Register(Register::SP))
                } else if y == 2 {
                    let _skipped: u16 = cpu.step_next_word(bus);
                    Instruction::Stop
                } else if y == 3 {
                    let b = cpu.step_next_byte(bus);
                    Instruction::Jr(Condition::Always, Addr8::Immediate(b))
                } else {
                    let b = cpu.step_next_byte(bus);
                    Instruction::Jr(cond_table(y - 4), Addr8::Immediate(b))
                }
            } else if z == 1 {
                if q == 0 {
                    let w = cpu.step_next_word(bus);
                    Instruction::Ld16(Addr16::Register(reg_pair_table(p)), Addr16::Immediate(w))
                } else {
                    Instruction::Add16(
                        Addr16::Register(Register::HL),
                        Addr16::Register(reg_pair_table(p)),
                    )
                }
            } else if z == 2 {
                if q == 0 {
                    if p == 0 {
                        Instruction::Ld8(
                            Addr8::RegisterIndirect(Register::BC),
                            Addr8::Register(Register::A),
                        )
                    } else if p == 1 {
                        Instruction::Ld8(
                            Addr8::RegisterIndirect(Register::DE),
                            Addr8::Register(Register::A),
                        )
                    } else if p == 2 {
                        Instruction::Ldi(
                            Addr8::RegisterIndirect(Register::HL),
                            Addr8::Register(Register::A),
                        )
                    } else {
                        Instruction::Ldd(
                            Addr8::RegisterIndirect(Register::HL),
                            Addr8::Register(Register::A),
                        )
                    }
                } else {
                    if p == 0 {
                        Instruction::Ld8(
                            Addr8::Register(Register::A),
                            Addr8::RegisterIndirect(Register::BC),
                        )
                    } else if p == 1 {
                        Instruction::Ld8(
                            Addr8::Register(Register::A),
                            Addr8::RegisterIndirect(Register::DE),
                        )
                    } else if p == 2 {
                        Instruction::Ldi(
                            Addr8::Register(Register::A),
                            Addr8::RegisterIndirect(Register::HL),
                        )
                    } else {
                        Instruction::Ldd(
                            Addr8::Register(Register::A),
                            Addr8::RegisterIndirect(Register::HL),
                        )
                    }
                }
            } else if z == 3 {
                if q == 0 {
                    Instruction::Inc16(Addr16::Register(reg_pair_table(p)))
                } else {
                    Instruction::Dec16(Addr16::Register(reg_pair_table(p)))
                }
            } else if z == 4 {
                Instruction::Inc8(reg_addr_table(y))
            } else if z == 5 {
                Instruction::Dec8(reg_addr_table(y))
            } else if z == 6 {
                let b = cpu.step_next_byte(bus);
                Instruction::Ld8(reg_addr_table(y), Addr8::Immediate(b))
            } else {
                if y == 0 {
                    Instruction::Rlca
                } else if y == 1 {
                    Instruction::Rrca
                } else if y == 2 {
                    Instruction::Rla
                } else if y == 3 {
                    Instruction::Rra
                } else if y == 4 {
                    Instruction::Daa
                } else if y == 5 {
                    Instruction::Cpl
                } else if y == 6 {
                    Instruction::Scf
                } else {
                    Instruction::Ccf
                }
            }
        } else if x == 1 {
            if z == 6 && y == 6 {
                Instruction::Halt
            } else {
                Instruction::Ld8(reg_addr_table(y), reg_addr_table(z))
            }
        } else if x == 2 {
            decode_alu(y, reg_addr_table(z))
        } else {
            if z == 0 {
                if y <= 3 {
                    Instruction::Ret(cond_table(y))
                } else if y == 4 {
                    let b = cpu.step_next_byte(bus);
                    Instruction::Ldh(Addr8::HighIndirect(b), Addr8::Register(Register::A))
                } else if y == 5 {
                    let b = cpu.step_next_byte(bus);
                    Instruction::AddSp(Addr8::Immediate(b))
                } else if y == 6 {
                    let b = cpu.step_next_byte(bus);
                    Instruction::Ldh(Addr8::Register(Register::A), Addr8::HighIndirect(b))
                } else {
                    let b = cpu.step_next_byte(bus);
                    Instruction::Ldhl(Addr8::Immediate(b))
                }
            } else if z == 1 {
                if q == 0 {
                    Instruction::Pop(Addr16::Register(reg_pair_table(p + 4)))
                } else if p == 0 {
                    Instruction::Ret(Condition::Always)
                } else if p == 1 {
                    Instruction::Reti
                } else if p == 2 {
                    Instruction::Jp(Condition::Always, Addr16::Register(Register::HL))
                } else {
                    Instruction::Ld16(
                        Addr16::Register(Register::SP),
                        Addr16::Register(Register::HL),
                    )
                }
            } else if z == 2 {
                if y <= 3 {
                    let w = cpu.step_next_word(bus);
                    Instruction::Jp(cond_table(y), Addr16::Immediate(w))
                } else if y == 4 {
                    Instruction::Ld8(
                        Addr8::RegisterIndirect(Register::C),
                        Addr8::Register(Register::A),
                    )
                } else if y == 5 {
                    let w = cpu.step_next_word(bus);
                    Instruction::Ld8(Addr8::Indirect(w), Addr8::Register(Register::A))
                } else if y == 6 {
                    Instruction::Ld8(
                        Addr8::Register(Register::A),
                        Addr8::RegisterIndirect(Register::C),
                    )
                } else {
                    let w = cpu.step_next_word(bus);
                    Instruction::Ld8(Addr8::Register(Register::A), Addr8::Indirect(w))
                }
            } else if z == 3 {
                if y == 0 {
                    let w = cpu.step_next_word(bus);
                    Instruction::Jp(Condition::Always, Addr16::Immediate(w))
                } else if y == 6 {
                    Instruction::Di
                } else if y == 7 {
                    Instruction::Ei
                } else {
                    Instruction::Illegal
                }
            } else if z == 4 {
                if y <= 3 {
                    let w = cpu.step_next_word(bus);
                    Instruction::Call(cond_table(y), Addr16::Immediate(w))
                } else {
                    Instruction::Illegal
                }
            } else if z == 5 {
                if q == 0 {
                    Instruction::Push(Addr16::Register(reg_pair_table(p + 4)))
                } else if p == 0 {
                    let w = cpu.step_next_word(bus);
                    Instruction::Call(Condition::Always, Addr16::Immediate(w))
                } else {
                    Instruction::Illegal
                }
            } else if z == 6 {
                let b = cpu.step_next_byte(bus);
                decode_alu(y, Addr8::Immediate(b))
            } else {
                Instruction::Rst(y)
            }
        }
    } else {
        let operand = reg_addr_table(z);
        if x == 0 {
            if y == 0 {
                Instruction::Rlc(operand)
            } else if y == 1 {
                Instruction::Rrc(operand)
            } else if y == 2 {
                Instruction::Rl(operand)
            } else if y == 3 {
                Instruction::Rr(operand)
            } else if y == 4 {
                Instruction::Sla(operand)
            } else if y == 5 {
                Instruction::Sra(operand)
            } else if y == 6 {
                Instruction::Swap(operand)
            } else {
                Instruction::Srl(operand)
            }
        } else if x == 1 {
            Instruction::Bit(y, operand)
        } else if x == 2 {
            Instruction::Res(y, operand)
        } else {
            Instruction::SetBit(y, operand)
        }
    }
}

/// What `execute` does with one decoded instruction: the machine after it,
/// and whether a conditional branch was taken (true for everything else).
pub open spec fn spec_execute(cpu: Cpu, bus: BusView, i: Instruction) -> (Cpu, BusView, bool) {
    match i {
        Instruction::Nop => (cpu, bus, true),
        Instruction::Ld8(d, s) => {
            let r = loads::spec_ld(cpu, bus, d, s);
            (r.0, r.1, true)
        },
        Instruction::Ld16(d, s) => {
            let r = loads::spec_ld_16(cpu, bus, d, s);
            (r.0, r.1, true)
        },
        Instruction::Stop => (Cpu { halted: true, ..cpu }, bus, true),
        Instruction::Jr(c, a) => {
            let r = jumps::spec_jr(cpu, bus, c, a);
            (r.0, bus, r.1)
        },
        Instruction::Add16(d, s) => {
            let r = math::spec_add_16(cpu, bus, d, s);
            (r.0, r.1, true)
        },
        Instruction::Inc8(d) => {
            let r = math::spec_inc_8(cpu, bus, d);
            (r.0, r.1, true)
        },
        Instruction::Inc16(d) => {
            let r = math::spec_inc_16(cpu, bus, d);
            (r.0, r.1, true)
        },
        Instruction::Dec8(d) => {
            let r = math::spec_dec_8(cpu, bus, d);
            (r.0, r.1, true)
        },
        Instruction::Dec16(d) => {
            let r = math::spec_dec_16(cpu, bus, d);
            (r.0, r.1, true)
        },
        Instruction::Rlca => (bits::spec_rlca(cpu), bus, true),
        Instruction::Rrca => (bits::spec_rrca(cpu), bus, true),
        Instruction::Rla => (bits::spec_rla(cpu), bus, true),
        Instruction::Rra => (bits::spec_rra(cpu), bus, true),
        Instruction::Daa => (math::spec_daa(cpu), bus, true),
        Instruction::Cpl => (math::spec_cpl(cpu), bus, true),
        Instruction::Scf => (math::spec_scf(cpu), bus, true),
        Instruction::Ccf => (math::spec_ccf(cpu), bus, true),
        Instruction::Ldd(d, s) => {
            let r = loads::spec_ldd(cpu, bus, d, s);
            (r.0, r.1, true)
        },
        Instruction::Ldi(d, s) => {
            let r = loads::spec_ldi(cpu, bus, d, s);
            (r.0, r.1, true)
        },
        Instruction::Add8(s) => (math::spec_add_8(cpu, bus, s), bus, true),
        Instruction::Adc(s) => (math::spec_adc(cpu, bus, s), bus, true),
        Instruction::Sub(s) => (math::spec_sub(cpu, bus, s), bus, true),
        Instruction::Sbc(s) => (math::spec_sbc(cpu, bus, s), bus, true),
        Instruction::And(s) => (math::spec_and(cpu, bus, s), bus, true),
        Instruction::Xor(s) => (math::spec_xor(cpu, bus, s), bus, true),
        Instruction::Or(s) => (math::spec_or(cpu, bus, s), bus, true),
        Instruction::Cp(s) => (math::spec_cp(cpu, bus, s), bus, true),
        Instruction::Halt => (Cpu { halted: true, ..cpu }, bus, true),
        Instruction::Ret(c) => {
            let r = jumps::spec_ret(cpu, bus, c);
            (r.0, bus, r.1)
        },
        Instruction::AddSp(s) => (math::spec_add_sp(cpu, bus, s), bus, true),
        Instruction::Ldh(d, s) => {
            let r = loads::spec_ld(cpu, bus, d, s);
            (r.0, r.1, true)
        },
        Instruction::Ldhl(s) => (loads::spec_ldhl(cpu, bus, s), bus, true),
        Instruction::Pop(d) => {
            let r = loads::spec_pop_op(cpu, bus, d);
            (r.0, r.1, true)
        },
        Instruction::Reti => (jumps::spec_reti(cpu, bus), bus, true),
        Instruction::Jp(c, a) => {
            let r = jumps::spec_jp(cpu, bus, c, a);
            (r.0, bus, r.1)
        },
        Instruction::Di => (Cpu { ime: false, ..cpu }, bus, true),
        Instruction::Ei => (Cpu { ime: true, ..cpu }, bus, true),
        Instruction::Call(c, a) => jumps::spec_call(cpu, bus, c, a),
        Instruction::Push(s) => {
            let r = loads::spec_push_op(cpu, bus, s);
            (r.0, r.1, true)
        },
        Instruction::Rst(n) => {
            let r = jumps::spec_rst(cpu, bus, n);
            (r.0, r.1, true)
        },
        Instruction::Rlc(a) => {
            let r = bits::spec_rlc(cpu, bus, a);
            (r.0, r.1, true)
        },
        Instruction::Rrc(a) => {
            let r = bits::spec_rrc(cpu, bus, a);
            (r.0, r.1, true)
        },
        Instruction::Rl(a) => {
            let r = bits::spec_rl(cpu, bus, a);
            (r.0, r.1, true)
        },
        Instruction::Rr(a) => {
            let r = bits::spec_rr(cpu, bus, a);
            (r.0, r.1, true)
        },
        Instruction::Sla(a) => {
            let r = bits::spec_sla(cpu, bus, a);
            (r.0, r.1, true)
        },
        Instruction::Sra(a) => {
            let r = bits::spec_sra(cpu, bus, a);
            (r.0, r.1, true)
        },
        Instruction::Swap(a) => {
            let r = bits::spec_swap(cpu, bus, a);
            (r.0, r.1, true)
        },
        Instruction::Srl(a) => {
            let r = bits::spec_srl(cpu, bus, a);
            (r.0, r.1, true)
        },
        Instruction::Bit(b, a) => (bits::spec_bit(cpu, bus, b, a), bus, true),
        Instruction::Res(b, a) => {
            let r = bits::spec_res(cpu, bus, b, a);
            (r.0, r.1, true)
        },
        Instruction::SetBit(b, a) => {
            let r = bits::spec_set(cpu, bus, b, a);
            (r.0, r.1, true)
        },
        Instruction::Illegal => (cpu, bus, true),
    }
}

/// Whether the instruction's bit-position operand is in range; `decode`
/// only produces positions 0..7.
pub open spec fn instruction_wf(i: Instruction) -> bool {
    match i {
        Instruction::Bit(b, _) => b < 8,
        Instruction::Res(b, _) => b < 8,
        Instruction::SetBit(b, _) => b < 8,
        _ => true,
    }
}

/// Applies one decoded instruction; reports whether a conditional branch
/// was taken (true for every unconditional instruction).
pub fn execute(cpu: &mut Cpu, bus: &mut Bus, instruction: &Instruction) -> (taken: bool)
    requires
        old(bus)@.wf(),
        instruction_wf(*instruction),
    ensures
        ({
            let r = spec_execute(*old(cpu), old(bus)@, *instruction);
            *final(cpu) == r.0 && final(bus)@ == r.1 && taken == r.2
        }),
        final(bus)@.wf(),
{
    match instruction {
        Instruction::Nop => {
            misc::nop();
            true
        },
        Instruction::Ld8(d, s) => {
            loads::ld(cpu, bus, *d, *s);
            true
        },
        Instruction::Ld16(d, s) => {
            loads::ld_16(cpu, bus, *d, *s);
            true
        },
        Instruction::Stop => {
            misc::stop(cpu);
            true
        },
        Instruction::Jr(c, a) => jumps::jr(cpu, bus, *c, *a),
        Instruction::Add16(d, s) => {
            math::add_16(cpu, bus, *d, *s);
            true
        },
        Instruction::Inc8(d) => {
            math::inc_8(cpu, bus, *d);
            true
        },
        Instruction::Inc16(d) => {
            math::inc_16(cpu, bus, *d);
            true
        },
        Instruction::Dec8(d) => {
            math::dec_8(cpu, bus, *d);
            true
        },
        Instruction::Dec16(d) => {
            math::dec_16(cpu, bus, *d);
            true
        },
        Instruction::Rlca => {
            bits::rlca(cpu);
            true
        },
        Instruction::Rrca => {
            bits::rrca(cpu);
            true
        },
        Instruction::Rla => {
            bits::rla(cpu);
            true
        },
        Instruction::Rra => {
            bits::rra(cpu);
            true
        },
        Instruction::Daa => {
            math::daa(cpu);
            true
        },
        Instruction::Cpl => {
            math::cpl(cpu);
            true
        },
        Instruction::Scf => {
            math::scf(cpu);
            true
        },
        Instruction::Ccf => {
            math::ccf(cpu);
            true
        },
        Instruction::Ldd(d, s) => {
            loads::ldd(cpu, bus, *d, *s);
            true
        },
        Instruction::Ldi(d, s) => {
            loads::ldi(cpu, bus, *d, *s);
            true
        },
        Instruction::Add8(s) => {
            math::add_8(cpu, bus, *s);
            true
        },
        Instruction::Adc(s) => {
            math::adc(cpu, bus, *s);
            true
        },
        Instruction::Sub(s) => {
            math::sub(cpu, bus, *s);
            true
        },
        Instruction::Sbc(s) => {
            math::sbc(cpu, bus, *s);
            true
        },
        Instruction::And(s) => {
            math::and(cpu, bus, *s);
            true
        },
        Instruction::Xor(s) => {
            math::xor(cpu, bus, *s);
            true
        },
        Instruction::Or(s) => {
            math::or(cpu, bus, *s);
            true
        },
        Instruction::Cp(s) => {
            math::cp(cpu, bus, *s);
            true
        },
        Instruction::Halt => {
            misc::halt(cpu);
            true
        },
        Instruction::Ret(c) => jumps::ret(cpu, bus, *c),
        Instruction::AddSp(s) => {
            math::add_sp(cpu, bus, *s);
            true
        },
        Instruction::Ldh(d, s) => {
            loads::ld(cpu, bus, *d, *s);
            true
        },
        Instruction::Ldhl(s) => {
            loads::ldhl(cpu, bus, *s);
            true
        },
        Instruction::Pop(d) => {
            loads::pop(cpu, bus, *d);
            true
        },
        Instruction::Reti => {
            jumps::reti(cpu, bus);
            true
        },
        Instruction::Jp(c, a) => jumps::jp(cpu, bus, *c, *a),
        Instruction::Di => {
            misc::di(cpu);
            true
        },
        Instruction::Ei => {
            misc::ei(cpu);
            true
        },
        Instruction::Call(c, a) => jumps::call(cpu, bus, *c, *a),
        Instruction::Push(s) => {
            loads::push(cpu, bus, *s);
            true
        },
        Instruction::Rst(n) => {
            jumps::rst(cpu, bus, *n);
            true
        },
        Instruction::Rlc(a) => {
            bits::rlc(cpu, bus, *a);
            true
        },
        Instruction::Rrc(a) => {
            bits::rrc(cpu, bus, *a);
            true
        },
        Instruction::Rl(a) => {
            bits::rl(cpu, bus, *a);
            true
        },
        Instruction::Rr(a) => {
            bits::rr(cpu, bus, *a);
            true
        },
        Instruction::Sla(a) => {
            bits::sla(cpu, bus, *a);
            true
        },
        Instruction::Sra(a) => {
            bits::sra(cpu, bus, *a);
            true
        },
        Instruction::Swap(a) => {
            bits::swap(cpu, bus, *a);
            true
        },
        Instruction::Srl(a) => {
            bits::srl(cpu, bus, *a);
            true
        },
        Instruction::Bit(b, a) => {
            bits::bit(cpu, bus, *b, *a);
            true
        },
        Instruction::Res(b, a) => {
            bits::res(cpu, bus, *b, *a);
            true
        },
        Instruction::SetBit(b, a) => {
            bits::set(cpu, bus, *b, *a);
            true
        },
        Instruction::Illegal => true,
    }
}

} // verus!
