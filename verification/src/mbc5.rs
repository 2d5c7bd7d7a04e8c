//! The MBC5 cartridge mapper: a 9-bit ROM-bank register written through two
//! regions, a 4-bit RAM-bank register, and a RAM-enable latch. No bank value
//! is forbidden.

use vstd::prelude::*;
use crate::bitops::lemma_usize_and_le;

verus! {

pub struct Mbc5 {
    pub rom_banks: usize,
    pub ram_banks: usize,
    pub ram_enabled: bool,
    pub ram_data: Vec<u8>,
    pub rom_lower: u8,
    pub rom_upper: u8,
    pub ram_bank_sel: u8,
}

/// Ghost image of the mapper state, with the RAM held as a sequence.
pub struct Mbc5View {
    pub rom_banks: usize,
    pub ram_banks: usize,
    pub ram_enabled: bool,
    pub ram_data: Seq<u8>,
    pub rom_lower: u8,
    pub rom_upper: u8,
    pub ram_bank_sel: u8,
}

impl View for Mbc5 {
    type V = Mbc5View;

    open spec fn view(&self) -> Mbc5View {
        Mbc5View {
            rom_banks: self.rom_banks,
            ram_banks: self.ram_banks,
            ram_enabled: self.ram_enabled,
            ram_data: self.ram_data@,
            rom_lower: self.rom_lower,
            rom_upper: self.rom_upper,
            ram_bank_sel: self.ram_bank_sel,
        }
    }
}

impl Mbc5View {
    pub open spec fn wf(self) -> bool {
        &&& self.ram_data.len() == self.ram_banks * 0x2000
        &&& self.rom_banks >= 1
        &&& self.rom_banks <= 512
        &&& self.ram_banks <= 16
        &&& self.rom_upper < 2
        &&& self.ram_bank_sel < 16
    }

    /// The effective switchable ROM bank: nine bits, masked to the bank count.
    pub open spec fn rom_bank(self) -> usize {
        ((self.rom_upper * 256 + self.rom_lower) as usize) & ((self.rom_banks - 1) as usize)
    }

    /// The RAM bank, masked to the RAM bank count.
    pub open spec fn ram_bank(self) -> usize {
        (self.ram_bank_sel as usize) & ((self.ram_banks - 1) as usize)
    }

    pub open spec fn rom_index(self, addr: u16) -> int {
        addr - 0x4000 + self.rom_bank() * 0x4000
    }

    pub open spec fn ram_index(self, addr: u16) -> int {
        addr - 0xA000 + self.ram_bank() * 0x2000
    }

    /// Whether external-RAM accesses reach the RAM image.
    pub open spec fn ram_accessible(self) -> bool {
        self.ram_enabled && self.ram_banks >= 1
    }

    /// What a read returns: bank 0 below 0x4000, the switched bank below
    /// 0x8000, external RAM (or 0xFF when disabled) in 0xA000..0xC000, and
    /// 0xFF anywhere else.
    pub open spec fn spec_read(self, rom: Seq<u8>, addr: u16) -> u8 {
        if addr < 0x4000 {
            rom[addr as int]
        } else if addr < 0x8000 {
            rom[self.rom_index(addr)]
        } else if 0xA000 <= addr && addr < 0xC000 {
            if self.ram_accessible() {
                self.ram_data[self.ram_index(addr)]
            } else {
                0xFF
            }
        } else {
            0xFF
        }
    }

    /// What a write does to the mapper state.
    pub open spec fn spec_write(self, addr: u16, val: u8) -> Mbc5View {
        if addr < 0x2000 {
            Mbc5View { ram_enabled: val & 0x0F == 0x0A, ..self }
        } else if addr < 0x3000 {
            Mbc5View { rom_lower: val, ..self }
        } else if addr < 0x4000 {
            Mbc5View { rom_upper: val & 0x01, ..self }
        } else if addr < 0x6000 {
            Mbc5View { ram_bank_sel: val & 0x0F, ..self }
        } else if 0xA000 <= addr && addr < 0xC000 && self.ram_accessible() {
            Mbc5View { ram_data: self.ram_data.update(self.ram_index(addr), val), ..self }
        } else {
            self
        }
    }
}

impl Mbc5 {
    pub fn new(rom_banks: usize, ram_banks: usize) -> (r: Mbc5)
        requires
            ram_banks <= 16,
            rom_banks <= 512,
        ensures
            r@ == (Mbc5View {
                rom_banks,
                ram_banks,
                ram_enabled: false,
                ram_data: Seq::new((ram_banks * 0x2000) as nat, |i: int| 0u8),
                rom_lower: 1,
                rom_upper: 0,
                ram_bank_sel: 0,
            }),
    {
        let mut ram_data: Vec<u8> = Vec::new();
        let size = ram_banks * 0x2000;
        while ram_data.len() < size
            invariant
                ram_data@.len() <= size,
                forall|i: int| 0 <= i < ram_data@.len() ==> ram_data@[i] == 0u8,
            decreases size - ram_data@.len(),
        {
            ram_data.push(0);
        }
        proof {
            assert(ram_data@ =~= Seq::new((ram_banks * 0x2000) as nat, |i: int| 0u8));
        }
        Mbc5 {
            rom_banks,
            ram_banks,
            ram_enabled: false,
            ram_data,
            rom_lower: 1,
            rom_upper: 0,
            ram_bank_sel: 0,
        }
    }

    fn rom_bank(&self) -> (r: usize)
        requires
            self@.wf(),
        ensures
            r == self@.rom_bank(),
            r < self.rom_banks,
    {
        let raw: usize = (self.rom_upper as usize) * 256 + (self.rom_lower as usize);
        proof {
            lemma_usize_and_le(raw, (self.rom_banks - 1) as usize);
        }
        raw & (self.rom_banks - 1)
    }

    fn ram_bank(&self) -> (r: usize)
        requires
            self@.wf(),
            self.ram_banks >= 1,
        ensures
            r == self@.ram_bank(),
            r < self.ram_banks,
    {
        proof {
            lemma_usize_and_le(self.ram_bank_sel as usize, (self.ram_banks - 1) as usize);
        }
        (self.ram_bank_sel as usize) & (self.ram_banks - 1)
    }

    pub fn read(&self, rom: &Vec<u8>, addr: u16) -> (r: u8)
        requires
            self@.wf(),
            rom@.len() == self.rom_banks * 0x4000,
        ensures
            r == self@.spec_read(rom@, addr),
    {
        if addr < 0x4000 {
            rom[addr as usize]
        } else if addr < 0x8000 {
            let bank = self.rom_bank();
            rom[(addr as usize) - 0x4000 + bank * 0x4000]
        } else if 0xA000 <= addr && addr < 0xC000 {
            if self.ram_enabled && self.ram_banks >= 1 {
                let bank = self.ram_bank();
                self.ram_data[(addr as usize) - 0xA000 + bank * 0x2000]
            } else {
                0xFF
            }
        } else {
            0xFF
        }
    }

    pub fn write(&mut self, addr: u16, val: u8)
        requires
            old(self)@.wf(),
        ensures
            final(self)@ == old(self)@.spec_write(addr, val),
            final(self)@.wf(),
    {
        if addr < 0x2000 {
            self.ram_enabled = (val & 0x0F) == 0x0A;
        } else if addr < 0x3000 {
            self.rom_lower = val;
        } else if addr < 0x4000 {
            self.rom_upper = val & 0x01;
            proof {
                assert(val & 0x01 < 2) by (bit_vector);
            }
        } else if addr < 0x6000 {
            self.ram_bank_sel = val & 0x0F;
            proof {
                assert(val & 0x0F < 16) by (bit_vector);
            }
        } else if 0xA000 <= addr && addr < 0xC000 {
            if self.ram_enabled && self.ram_banks >= 1 {
                let bank = self.ram_bank();
                let idx = (addr as usize) - 0xA000 + bank * 0x2000;
                self.ram_data.set(idx, val);
            }
        }
    }
}

} // verus!
