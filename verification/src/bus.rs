//! The memory bus: routes CPU reads and writes to the cartridge, video,
//! work and high RAM, the peripheral registers, and the IF / IE interrupt
//! latches; performs OAM DMA.

use vstd::prelude::*;
use crate::cartridge::{Cartridge, CartridgeView};
use crate::joypad::Joypad;
use crate::lcd::{Lcd, LcdView, ADDR_DMA};
use crate::serial::Serial;
use crate::sound::{Sound, spec_sound_read, spec_sound_write};
use crate::timer::Timer;

verus! {

pub const IO_IF_ADDR: u16 = 0xFF0F;

pub const IO_IE_ADDR: u16 = 0xFFFF;

pub struct Bus {
    pub cartridge: Cartridge,
    pub io_ie: u8,
    pub io_if: u8,
    pub high_ram: Vec<u8>,
    pub joypad: Joypad,
    pub lcd: Lcd,
    pub serial: Serial,
    pub sound: Sound,
    pub timer: Timer,
    pub work_ram: Vec<u8>,
}

/// Ghost image of the whole bus.
pub struct BusView {
    pub cartridge: CartridgeView,
    pub io_ie: u8,
    pub io_if: u8,
    pub high_ram: Seq<u8>,
    pub joypad: Joypad,
    pub lcd: LcdView,
    pub serial: Serial,
    pub sound: Seq<u8>,
    pub timer: Timer,
    pub work_ram: Seq<u8>,
}

impl View for Bus {
    type V = BusView;

    open spec fn view(&self) -> BusView {
        BusView {
            cartridge: self.cartridge@,
            io_ie: self.io_ie,
            io_if: self.io_if,
            high_ram: self.high_ram@,
            joypad: self.joypad,
            lcd: self.lcd@,
            serial: self.serial,
            sound: self.sound@,
            timer: self.timer,
            work_ram: self.work_ram@,
        }
    }
}

impl BusView {
    pub open spec fn wf(self) -> bool {
        &&& self.cartridge.wf()
        &&& self.lcd.wf()
        &&& self.serial.wf()
        &&& self.timer.wf()
        &&& self.sound.len() == 0x30
        &&& self.work_ram.len() == 0x2000
        &&& self.high_ram.len() == 0x7F
    }

    /// What a read returns for every address: the address map of the core.
    /// Every read completes; unmapped bytes read 0xFF, the unused window
    /// after OAM reads 0, and IF reads with its top three bits set.
    pub open spec fn spec_read(self, addr: u16) -> u8 {
        if addr <= 0x7FFF {
            self.cartridge.spec_read(addr)
        } else if addr <= 0x9FFF {
            self.lcd.spec_read(addr)
        } else if addr <= 0xBFFF {
            self.cartridge.spec_read(addr)
        } else if addr <= 0xDFFF {
            self.work_ram[addr - 0xC000]
        } else if addr <= 0xFDFF {
            self.work_ram[addr - 0xE000]
        } else if addr <= 0xFE9F {
            self.lcd.spec_read(addr)
        } else if addr <= 0xFEFF {
            0
        } else if addr == 0xFF00 {
            self.joypad.spec_read()
        } else if 0xFF01 <= addr && addr <= 0xFF02 {
            self.serial.spec_read(addr)
        } else if 0xFF04 <= addr && addr <= 0xFF07 {
            self.timer.spec_read(addr)
        } else if addr == IO_IF_ADDR {
            self.io_if | 0xE0
        } else if 0xFF10 <= addr && addr <= 0xFF3F {
            spec_sound_read(self.sound, addr)
        } else if 0xFF40 <= addr && addr <= 0xFF4B {
            self.lcd.spec_read(addr)
        } else if 0xFF80 <= addr && addr <= 0xFFFE {
            self.high_ram[addr - 0xFF80]
        } else if addr == IO_IE_ADDR {
            self.io_ie
        } else {
            0xFF
        }
    }

    /// The bus after copying the first `n` bytes of an OAM DMA whose source
    /// page is `val`: byte `i` of page `val << 8` lands at attribute-table
    /// byte `i`, bypassing the OAM access gate.
    pub open spec fn spec_dma(self, val: u8, n: int) -> BusView
        decreases n,
    {
        if n <= 0 {
            self
        } else {
            let b = self.spec_dma(val, n - 1);
            let byte = b.spec_read((val * 256 + (n - 1)) as u16);
            BusView { lcd: b.lcd.spec_oam_write_raw(n - 1, byte), ..b }
        }
    }

    /// What a write does for every address: routed per the address map.
    /// Echo RAM folds onto work RAM, IF keeps its five low bits, a write to
    /// the DMA register performs the whole 160-byte copy, and unmapped
    /// bytes ignore writes.
    pub open spec fn spec_write(self, addr: u16, val: u8) -> BusView {
        if addr <= 0x7FFF {
            BusView { cartridge: self.cartridge.spec_write(addr, val), ..self }
        } else if addr <= 0x9FFF {
            BusView { lcd: self.lcd.spec_write(addr, val), ..self }
        } else if addr <= 0xBFFF {
            BusView { cartridge: self.cartridge.spec_write(addr, val), ..self }
        } else if addr <= 0xDFFF {
            BusView { work_ram: self.work_ram.update(addr - 0xC000, val), ..self }
        } else if addr <= 0xFDFF {
            BusView { work_ram: self.work_ram.update(addr - 0xE000, val), ..self }
        } else if addr <= 0xFE9F {
            BusView { lcd: self.lcd.spec_write(addr, val), ..self }
        } else if addr <= 0xFEFF {
            self
        } else if addr == 0xFF00 {
            BusView { joypad: self.joypad.spec_write(val), ..self }
        } else if 0xFF01 <= addr && addr <= 0xFF02 {
            BusView { serial: self.serial.spec_write(addr, val), ..self }
        } else if 0xFF04 <= addr && addr <= 0xFF07 {
            BusView { timer: self.timer.spec_write(addr, val), ..self }
        } else if addr == IO_IF_ADDR {
            BusView { io_if: val & 0x1F, ..self }
        } else if 0xFF10 <= addr && addr <= 0xFF3F {
            BusView { sound: spec_sound_write(self.sound, addr, val), ..self }
        } else if addr == ADDR_DMA {
            self.spec_dma(val, 160)
        } else if 0xFF40 <= addr && addr <= 0xFF4B {
            BusView { lcd: self.lcd.spec_write(addr, val), ..self }
        } else if 0xFF80 <= addr && addr <= 0xFFFE {
            BusView { high_ram: self.high_ram.update(addr - 0xFF80, val), ..self }
        } else if addr == IO_IE_ADDR {
            BusView { io_ie: val, ..self }
        } else {
            self
        }
    }
}

impl Bus {
    pub fn new(cart: Cartridge) -> (r: Bus)
        requires
            cart@.wf(),
        ensures
            r@.wf(),
            r@.cartridge == cart@,
            r@.io_ie == 0,
            r@.io_if == 0,
            r@.joypad.pins == 0,
            r@.lcd == crate::lcd::boot_view(),
            r@.serial == (Serial { sb: 0u8, sc: 0u8, transfer_bit: 0usize, transfer_bit_cycles: 0usize }),
            r@.timer == (Timer {
                div: 0xABu8,
                tima: 0u8,
                tma: 0u8,
                tac_enabled: false,
                tac_freq: 0u8,
                div_cycles: 0usize,
                tima_cycles: 0usize,
            }),
            r@.work_ram == Seq::new(0x2000, |i: int| 0u8),
            r@.high_ram == Seq::new(0x7F, |i: int| 0u8),
            r@.sound == Seq::new(0x30, |i: int| 0u8),
    {
        let mut work_ram: Vec<u8> = Vec::new();
        while work_ram.len() < 0x2000
            invariant
                work_ram@.len() <= 0x2000,
                forall|i: int| 0 <= i < work_ram@.len() ==> work_ram@[i] == 0u8,
            decreases 0x2000 - work_ram@.len(),
        {
            work_ram.push(0);
        }
        let mut high_ram: Vec<u8> = Vec::new();
        while high_ram.len() < 0x7F
            invariant
                high_ram@.len() <= 0x7F,
                forall|i: int| 0 <= i < high_ram@.len() ==> high_ram@[i] == 0u8,
            decreases 0x7F - high_ram@.len(),
        {
            high_ram.push(0);
        }
        proof {
            assert(work_ram@ =~= Seq::new(0x2000, |i: int| 0u8));
            assert(high_ram@ =~= Seq::new(0x7F, |i: int| 0u8));
        }
        Bus {
            cartridge: cart,
            io_ie: 0,
            io_if: 0,
            high_ram,
            joypad: Joypad::new(),
            lcd: Lcd::new(),
            serial: Serial::new(),
            sound: Sound::new(),
            timer: Timer::new(),
            work_ram,
        }
    }

    pub fn read(&self, addr: u16) -> (r: u8)
        requires
            self@.wf(),
        ensures
            r == self@.spec_read(addr),
    {
        if addr <= 0x7FFF {
            self.cartridge.read(addr)
        } else if addr <= 0x9FFF {
            self.lcd.read(addr)
        } else if addr <= 0xBFFF {
            self.cartridge.read(addr)
        } else if addr <= 0xDFFF {
            self.work_ram[(addr - 0xC000) as usize]
        } else if addr <= 0xFDFF {
            self.work_ram[(addr - 0xE000) as usize]
        } else if addr <= 0xFE9F {
            self.lcd.read(addr)
        } else if addr <= 0xFEFF {
            0
        } else if addr == 0xFF00 {
            self.joypad.read()
        } else if 0xFF01 <= addr && addr <= 0xFF02 {
            self.serial.read(addr)
        } else if 0xFF04 <= addr && addr <= 0xFF07 {
            self.timer.read(addr)
        } else if addr == IO_IF_ADDR {
            self.io_if | 0xE0
        } else if 0xFF10 <= addr && addr <= 0xFF3F {
            self.sound.read(addr)
        } else if 0xFF40 <= addr && addr <= 0xFF4B {
            self.lcd.read(addr)
        } else if 0xFF80 <= addr && addr <= 0xFFFE {
            self.high_ram[(addr - 0xFF80) as usize]
        } else if addr == IO_IE_ADDR {
            self.io_ie
        } else {
            0xFF
        }
    }

    pub fn write(&mut self, addr: u16, val: u8)
        requires
            old(self)@.wf(),
        ensures
            final(self)@ == old(self)@.spec_write(addr, val),
            final(self)@.wf(),
    {
        if addr <= 0x7FFF {
            self.cartridge.write(addr, val);
        } else if addr <= 0x9FFF {
            self.lcd.write(addr, val);
        } else if addr <= 0xBFFF {
            self.cartridge.write(addr, val);
        } else if addr <= 0xDFFF {
            self.work_ram.set((addr - 0xC000) as usize, val);
        } else if addr <= 0xFDFF {
            self.work_ram.set((addr - 0xE000) as usize, val);
        } else if addr <= 0xFE9F {
            self.lcd.write(addr, val);
        } else if addr <= 0xFEFF {
        } else if addr == 0xFF00 {
            self.joypad.write(val);
        } else if 0xFF01 <= addr && addr <= 0xFF02 {
            self.serial.write(addr, val);
        } else if 0xFF04 <= addr && addr <= 0xFF07 {
            self.timer.write(addr, val);
        } else if addr == IO_IF_ADDR {
            self.io_if = val & 0x1F;
            proof {
                crate::bitops::lemma_u8_and_le(val, 0x1F);
            }
        } else if 0xFF10 <= addr && addr <= 0xFF3F {
            self.sound.write(addr, val);
        } else if addr == ADDR_DMA {
            let mut i: usize = 0;
            while i < 160
                invariant
                    self@ == old(self)@.spec_dma(val, i as int),
                    self@.wf(),
                    i <= 160,
                decreases 160 - i,
            {
                let byte = self.read((val as u16) * 256 + (i as u16));
                self.lcd.oam_write_raw(i, byte);
                i = i + 1;
            }
        } else if 0xFF40 <= addr && addr <= 0xFF4B {
            self.lcd.write(addr, val);
        } else if 0xFF80 <= addr && addr <= 0xFFFE {
            self.high_ram.set((addr - 0xFF80) as usize, val);
        } else if addr == IO_IE_ADDR {
            self.io_ie = val;
        }
    }
}

} // verus!
