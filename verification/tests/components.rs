use rustboy::joypad::{Button, Joypad, BTN_A, BTN_DOWN, BTN_START, BTN_UP};
use rustboy::serial::Serial;
use rustboy::timer::Timer;

// DIV counts once per 256 cycles whatever TAC says, and any write clears it.
#[test]
fn div_counts_and_clears() {
    let mut t = Timer::new();
    let start = t.read(0xFF04);
    for _ in 0..64 {
        t.step(4);
    }
    assert_eq!(t.read(0xFF04), start.wrapping_add(1));
    t.write(0xFF04, 0x77);
    assert_eq!(t.read(0xFF04), 0);
}

// TIMA increments at the selected rate and reloads from TMA on overflow,
// raising the interrupt.
#[test]
fn tima_overflow_reloads_tma() {
    let mut t = Timer::new();
    t.write(0xFF06, 0xAB); // TMA
    t.write(0xFF05, 0xFF); // TIMA
    t.write(0xFF07, 0x05); // enable, 16-cycle rate
    let r1 = t.step(12);
    assert!(!r1.interrupt);
    let r2 = t.step(4);
    assert!(r2.interrupt);
    assert_eq!(t.read(0xFF05), 0xAB);
}

// A disabled timer leaves TIMA alone.
#[test]
fn disabled_timer_holds_tima() {
    let mut t = Timer::new();
    t.write(0xFF07, 0x01); // rate set, not enabled
    for _ in 0..100 {
        assert!(!t.step(16).interrupt);
    }
    assert_eq!(t.read(0xFF05), 0);
}

// TAC reads back its enable and select bits over a fixed high mask.
#[test]
fn tac_readback() {
    let mut t = Timer::new();
    t.write(0xFF07, 0x06);
    assert_eq!(t.read(0xFF07), 0xF8 | 0x06);
}

// With the internal clock, a full byte shifts out after 8 x 512 cycles
// and the enable bit clears.
#[test]
fn serial_completes_after_eight_bits() {
    let mut s = Serial::new();
    s.write(0xFF01, 0xA5);
    s.write(0xFF02, 0x81);
    let mut fired = false;
    for _ in 0..8 {
        assert!(!fired);
        fired = s.step(512).interrupt;
    }
    assert!(fired);
    assert_eq!(s.read(0xFF02), 0x01);
    assert_eq!(s.read(0xFF01), 0x00);
}

// With the external clock selected nothing advances.
#[test]
fn serial_external_clock_idles() {
    let mut s = Serial::new();
    s.write(0xFF01, 0xA5);
    s.write(0xFF02, 0x80);
    for _ in 0..100 {
        assert!(!s.step(512).interrupt);
    }
    assert_eq!(s.read(0xFF01), 0xA5);
}

// Selecting the direction column exposes the held direction buttons
// active-low, and a fresh press grounds a pin and raises the interrupt.
#[test]
fn joypad_matrix_and_interrupt() {
    let mut j = Joypad::new();
    j.write(0xEF); // select P14 (bit 4 low): direction column
    let mut held = Button::empty();
    held.insert(BTN_UP);
    held.insert(BTN_DOWN);
    let r = j.step(held);
    assert!(r.interrupt);
    // bits 2 (up) and 3 (down) read low; bits 7..6 read high
    assert_eq!(j.read(), 0b1110_0011);
    // same buttons again: no new edge
    let r2 = j.step(held);
    assert!(!r2.interrupt);
}

// The action column reads its own four buttons.
#[test]
fn joypad_action_column() {
    let mut j = Joypad::new();
    j.write(0xDF); // select P15: action column
    let mut held = Button::empty();
    held.insert(BTN_A);
    held.insert(BTN_START);
    j.step(held);
    assert_eq!(j.read() & 0x0F, 0b0110);
}

// With no column selected the row bits read high.
#[test]
fn joypad_no_column_selected() {
    let mut j = Joypad::new();
    j.write(0xFF);
    let mut held = Button::empty();
    held.insert(BTN_A);
    let r = j.step(held);
    assert!(!r.interrupt);
    assert_eq!(j.read() & 0x0F, 0x0F);
}
