#![allow(unused_mut)]

use rustboy::addressing::{Addr8, Addr16};
use rustboy::bus::Bus;
use rustboy::cartridge::Cartridge;
use rustboy::cpu::Cpu;
use rustboy::cpu::Condition;
use rustboy::jumps::{jr, jp, call, ret, reti, rst};

// JR tests

#[test]
fn jr_addr() {
    let mut cpu = Cpu::new();
    let mut bus = Bus::new(Cartridge::from_vec(vec![0; 65536]));
    let addr = Addr8::Immediate(0xF);

    cpu.regs.set_pc(0xFF0);

    jr(&mut cpu, &bus, Condition::Always, addr);

    assert_eq!(cpu.regs.pc(), 0xFFF);
}

#[test]
fn jr_wrapping() {
    let mut cpu = Cpu::new();
    let mut bus = Bus::new(Cartridge::from_vec(vec![0; 65536]));
    let addr = Addr8::Immediate(10);

    cpu.regs.set_pc(0xFFFF);

    jr(&mut cpu, &bus, Condition::Always, addr);

    assert_eq!(cpu.regs.pc(), 9);
}

// JP tests

#[test]
fn jp_addr() {
    let mut cpu = Cpu::new();
    let mut bus = Bus::new(Cartridge::from_vec(vec![0; 65536]));
    let addr = Addr16::Immediate(0xFFFF);

    cpu.regs.set_pc(0);

    jp(&mut cpu, &bus, Condition::Always, addr);

    assert_eq!(cpu.regs.pc(), 0xFFFF);
}

// CALL tests

#[test]
fn call_addr() {
    let mut cpu = Cpu::new();
    let mut bus = Bus::new(Cartridge::from_vec(vec![0; 65536]));
    let addr = Addr16::Immediate(0xFFFF);

    cpu.regs.set_pc(0xFF);

    call(&mut cpu, &mut bus, Condition::Always, addr);

    assert_eq!(cpu.regs.pc(), 0xFFFF);
    assert_eq!(cpu.pop_stack(&bus), 0xFF);
}

// RET tests

#[test]
fn ret_after_call() {
    let mut cpu = Cpu::new();
    let mut bus = Bus::new(Cartridge::from_vec(vec![0; 65536]));
    let addr = Addr16::Immediate(0xFFFF);

    cpu.regs.set_pc(0xFF);

    call(&mut cpu, &mut bus, Condition::Always, addr);
    ret(&mut cpu, &bus, Condition::Always);

    assert_eq!(cpu.regs.pc(), 0xFF);
}

// RETI tests

#[test]
fn reti_after_call() {
    let mut cpu = Cpu::new();
    let mut bus = Bus::new(Cartridge::from_vec(vec![0; 65536]));
    let addr = Addr16::Immediate(0xFFFF);

    cpu.regs.set_pc(0xFF);

    call(&mut cpu, &mut bus, Condition::Always, addr);
    reti(&mut cpu, &bus);

    assert_eq!(cpu.regs.pc(), 0xFF);
    assert_eq!(cpu.ime, true);
}

// RST tests

#[test]
fn rst_10h() {
    let mut cpu = Cpu::new();
    let mut bus = Bus::new(Cartridge::from_vec(vec![0; 65536]));

    cpu.regs.set_pc(0xFF);

    rst(&mut cpu, &mut bus, 2);

    assert_eq!(cpu.regs.pc(), 0x10);
}