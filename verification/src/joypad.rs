//! The joypad: a 2 x 4 button matrix behind one register. Bits 5 and 4
//! select a column (active low); the selected column's buttons appear in
//! bits 3..0, reading 0 when pressed. A newly grounded button pin raises
//! the joypad interrupt.

use vstd::prelude::*;

verus! {

pub const BTN_START: u8 = 0x80;

pub const BTN_SELECT: u8 = 0x40;

pub const BTN_UP: u8 = 0x20;

pub const BTN_RIGHT: u8 = 0x10;

pub const BTN_DOWN: u8 = 0x08;

pub const BTN_LEFT: u8 = 0x04;

pub const BTN_A: u8 = 0x02;

pub const BTN_B: u8 = 0x01;

/// A snapshot of which of the eight buttons are held, one bit per button.
#[derive(Copy, Clone, PartialEq, Eq, Structural, Debug)]
pub struct Button {
    pub bits: u8,
}

impl Button {
    pub fn empty() -> (r: Button)
        ensures
            r.bits == 0,
    {
        Button { bits: 0 }
    }

    pub fn contains(&self, mask: u8) -> (r: bool)
        ensures
            r == (self.bits & mask == mask),
    {
        (self.bits & mask) == mask
    }

    pub fn insert(&mut self, mask: u8)
        ensures
            final(self).bits == old(self).bits | mask,
    {
        self.bits = self.bits | mask;
    }
}

/// Outcome of scanning the matrix: whether a pressed button grounded a pin
/// that was high before.
pub struct StepResult {
    pub interrupt: bool,
}

/// Internal pin state, bit set meaning the line is pulled low: bits 5 and 4
/// are the column selects, bits 3..0 the button rows.
pub struct Joypad {
    pub pins: u8,
}

/// The row pins grounded by the held buttons under the given column selects.
pub open spec fn spec_row_pins(select: u8, buttons: Button) -> u8 {
    if select & 0x10 == 0x10 {
        ((if buttons.bits & BTN_UP == BTN_UP { 0x04 as int } else { 0 })
            + (if buttons.bits & BTN_RIGHT == BTN_RIGHT { 0x01 as int } else { 0 })
            + (if buttons.bits & BTN_DOWN == BTN_DOWN { 0x08 as int } else { 0 })
            + (if buttons.bits & BTN_LEFT == BTN_LEFT { 0x02 as int } else { 0 })) as u8
    } else if select & 0x20 == 0x20 {
        ((if buttons.bits & BTN_START == BTN_START { 0x08 as int } else { 0 })
            + (if buttons.bits & BTN_SELECT == BTN_SELECT { 0x04 as int } else { 0 })
            + (if buttons.bits & BTN_A == BTN_A { 0x01 as int } else { 0 })
            + (if buttons.bits & BTN_B == BTN_B { 0x02 as int } else { 0 })) as u8
    } else {
        0
    }
}

/// Whether `pin` went from high to low between the two pin states.
pub open spec fn pin_grounded(prev: u8, now: u8, pin: u8) -> bool {
    prev & pin != pin && now & pin == pin
}

impl Joypad {
    /// The pin state after folding in a button snapshot: the column selects
    /// stay, the row pins are rebuilt from the held buttons of the selected
    /// column.
    pub open spec fn spec_step_pins(self, buttons: Button) -> u8 {
        let select = self.pins & 0x30;
        (select + spec_row_pins(select, buttons)) as u8
    }

    /// Whether rebuilding the rows grounds a pin that was high.
    pub open spec fn spec_step_interrupt(self, buttons: Button) -> bool {
        let now = self.spec_step_pins(buttons);
        ||| pin_grounded(self.pins, now, 0x01)
        ||| pin_grounded(self.pins, now, 0x02)
        ||| pin_grounded(self.pins, now, 0x04)
        ||| pin_grounded(self.pins, now, 0x08)
    }

    /// The register view: selected-and-pressed reads 0, bits 7..6 read 1.
    pub open spec fn spec_read(self) -> u8 {
        !self.pins | 0xC0
    }

    /// Only the column-select bits can be written, inverted on the way in.
    pub open spec fn spec_write(self, val: u8) -> Joypad {
        Joypad { pins: (!val & 0x30) | (self.pins & 0x0F) }
    }

    pub fn new() -> (r: Joypad)
        ensures
            r.pins == 0,
    {
        Joypad { pins: 0 }
    }

    pub fn step(&mut self, buttons: Button) -> (r: StepResult)
        ensures
            final(self).pins == old(self).spec_step_pins(buttons),
            r.interrupt == old(self).spec_step_interrupt(buttons),
    {
        let previous = self.pins;
        let select = previous & 0x30;

        let rows: u8 = if (select & 0x10) == 0x10 {
            (if (buttons.bits & BTN_UP) == BTN_UP { 0x04 } else { 0 })
                + (if (buttons.bits & BTN_RIGHT) == BTN_RIGHT { 0x01 } else { 0 })
                + (if (buttons.bits & BTN_DOWN) == BTN_DOWN { 0x08 } else { 0 })
                + (if (buttons.bits & BTN_LEFT) == BTN_LEFT { 0x02 } else { 0 })
        } else if (select & 0x20) == 0x20 {
            (if (buttons.bits & BTN_START) == BTN_START { 0x08 } else { 0 })
                + (if (buttons.bits & BTN_SELECT) == BTN_SELECT { 0x04 } else { 0 })
                + (if (buttons.bits & BTN_A) == BTN_A { 0x01 } else { 0 })
                + (if (buttons.bits & BTN_B) == BTN_B { 0x02 } else { 0 })
        } else {
            0
        };

        proof {
            crate::bitops::lemma_u8_and_le(previous, 0x30);
        }
        self.pins = select + rows;

        let now = self.pins;
        let interrupt = (previous & 0x01 != 0x01 && now & 0x01 == 0x01)
            || (previous & 0x02 != 0x02 && now & 0x02 == 0x02)
            || (previous & 0x04 != 0x04 && now & 0x04 == 0x04)
            || (previous & 0x08 != 0x08 && now & 0x08 == 0x08);

        StepResult { interrupt }
    }

    pub fn read(&self) -> (r: u8)
        ensures
            r == self.spec_read(),
    {
        !self.pins | 0xC0
    }

    pub fn write(&mut self, val: u8)
        ensures
            *final(self) == old(self).spec_write(val),
    {
        self.pins = (!val & 0x30) | (self.pins & 0x0F);
    }
}

} // verus!
