//! The MBC1 cartridge mapper: a RAM-enable latch, a 5-bit lower and 2-bit
//! upper ROM-bank select, and a mode flag that lets the upper field select
//! the RAM bank instead.

use vstd::prelude::*;
use crate::bitops::lemma_usize_and_le;

verus! {

pub struct Mbc1 {
    pub rom_banks: usize,
    pub ram_banks: usize,
    pub ram_enabled: bool,
    pub ram_data: Vec<u8>,
    pub bank_lower: u8,
    pub bank_upper: u8,
    pub ram_mode: bool,
}

/// Ghost image of the mapper state, with the RAM held as a sequence.
pub struct Mbc1View {
    pub rom_banks: usize,
    pub ram_banks: usize,
    pub ram_enabled: bool,
    pub ram_data: Seq<u8>,
    pub bank_lower: u8,
    pub bank_upper: u8,
    pub ram_mode: bool,
}

impl View for Mbc1 {
    type V = Mbc1View;

    open spec fn view(&self) -> Mbc1View {
        Mbc1View {
            rom_banks: self.rom_banks,
            ram_banks: self.ram_banks,
            ram_enabled: self.ram_enabled,
            ram_data: self.ram_data@,
            bank_lower: self.bank_lower,
            bank_upper: self.bank_upper,
            ram_mode: self.ram_mode,
        }
    }
}

impl Mbc1View {
    pub open spec fn wf(self) -> bool {
        &&& self.ram_data.len() == self.ram_banks * 0x2000
        &&& self.rom_banks >= 1
        &&& self.rom_banks <= 512
        &&& self.ram_banks <= 16
        &&& self.bank_lower < 32
        &&& self.bank_upper < 4
    }

    /// The effective switchable ROM bank: upper and lower fields combined in
    /// ROM mode, the lower field alone in RAM mode; the values 0, 0x20, 0x40
    /// and 0x60 step to the following bank; the result is masked to the bank
    /// count.
    pub open spec fn rom_bank(self) -> usize {
        let raw: int = if !self.ram_mode {
            self.bank_upper * 32 + self.bank_lower
        } else {
            self.bank_lower as int
        };
        let adjusted: int = if raw == 0 || raw == 0x20 || raw == 0x40 || raw == 0x60 {
            raw + 1
        } else {
            raw
        };
        (adjusted as usize) & ((self.rom_banks - 1) as usize)
    }

    /// The RAM bank: the upper field in RAM mode, 0 otherwise, masked to the
    /// RAM bank count.
    pub open spec fn ram_bank(self) -> usize {
        let raw: usize = if self.ram_mode {
            self.bank_upper as usize
        } else {
            0
        };
        raw & ((self.ram_banks - 1) as usize)
    }

    pub open spec fn rom_index(self, addr: u16) -> int {
        addr - 0x4000 + self.rom_bank() * 0x4000
    }

    pub open spec fn ram_index(self, addr: u16) -> int {
        addr - 0xA000 + self.ram_bank() * 0x2000
    }

    /// Whether external-RAM accesses reach the RAM image.
    pub open spec fn ram_accessible(self) -> bool {
        self.ram_enabled && self.ram_banks >= 1
    }

    /// What a read returns: bank 0 below 0x4000, the switched bank below
    /// 0x8000, external RAM (or 0xFF when disabled) in 0xA000..0xC000, and
    /// 0xFF anywhere else.
    pub open spec fn spec_read(self, rom: Seq<u8>, addr: u16) -> u8 {
        if addr < 0x4000 {
            rom[addr as int]
        } else if addr < 0x8000 {
            rom[self.rom_index(addr)]
        } else if 0xA000 <= addr && addr < 0xC000 {
            if self.ram_accessible() {
                self.ram_data[self.ram_index(addr)]
            } else {
                0xFF
            }
        } else {
            0xFF
        }
    }

    /// What a write does to the mapper state.
    pub open spec fn spec_write(self, addr: u16, val: u8) -> Mbc1View {
        if addr < 0x2000 {
            Mbc1View { ram_enabled: val & 0x0F == 0x0A, ..self }
        } else if addr < 0x4000 {
            Mbc1View { bank_lower: val & 0x1F, ..self }
        } else if addr < 0x6000 {
            Mbc1View { bank_upper: val & 0x03, ..self }
        } else if addr < 0x8000 {
            Mbc1View { ram_mode: val & 0x01 == 0x01, ..self }
        } else if 0xA000 <= addr && addr < 0xC000 && self.ram_accessible() {
            Mbc1View { ram_data: self.ram_data.update(self.ram_index(addr), val), ..self }
        } else {
            self
        }
    }
}

impl Mbc1 {
    pub fn new(rom_banks: usize, ram_banks: usize) -> (r: Mbc1)
        requires
            ram_banks <= 16,
            rom_banks <= 512,
        ensures
            r@ == (Mbc1View {
                rom_banks,
                ram_banks,
                ram_enabled: false,
                ram_data: Seq::new((ram_banks * 0x2000) as nat, |i: int| 0u8),
                bank_lower: 0,
                bank_upper: 0,
                ram_mode: false,
            }),
    {
        let mut ram_data: Vec<u8> = Vec::new();
        let size = ram_banks * 0x2000;
        while ram_data.len() < size
            invariant
                ram_data@.len() <= size,
                forall|i: int| 0 <= i < ram_data@.len() ==> ram_data@[i] == 0u8,
            decreases size - ram_data@.len(),
        {
            ram_data.push(0);
        }
        proof {
            assert(ram_data@ =~= Seq::new((ram_banks * 0x2000) as nat, |i: int| 0u8));
        }
        Mbc1 {
            rom_banks,
            ram_banks,
            ram_enabled: false,
            ram_data,
            bank_lower: 0,
            bank_upper: 0,
            ram_mode: false,
        }
    }

    fn rom_bank(&self) -> (r: usize)
        requires
            self@.wf(),
        ensures
            r == self@.rom_bank(),
            r < self.rom_banks,
    {
        let raw: usize = if !self.ram_mode {
            (self.bank_upper as usize) * 32 + (self.bank_lower as usize)
        } else {
            self.bank_lower as usize
        };
        let adjusted: usize = if raw == 0 || raw == 0x20 || raw == 0x40 || raw == 0x60 {
            raw + 1
        } else {
            raw
        };
        proof {
            lemma_usize_and_le(adjusted, (self.rom_banks - 1) as usize);
        }
        adjusted & (self.rom_banks - 1)
    }

    fn ram_bank(&self) -> (r: usize)
        requires
            self@.wf(),
            self.ram_banks >= 1,
        ensures
            r == self@.ram_bank(),
            r < self.ram_banks,
    {
        let raw: usize = if self.ram_mode {
            self.bank_upper as usize
        } else {
            0
        };
        proof {
            lemma_usize_and_le(raw, (self.ram_banks - 1) as usize);
        }
        raw & (self.ram_banks - 1)
    }

    pub fn read(&self, rom: &Vec<u8>, addr: u16) -> (r: u8)
        requires
            self@.wf(),
            rom@.len() == self.rom_banks * 0x4000,
        ensures
            r == self@.spec_read(rom@, addr),
    {
        if addr < 0x4000 {
            rom[addr as usize]
        } else if addr < 0x8000 {
            let bank = self.rom_bank();
            rom[(addr as usize) - 0x4000 + bank * 0x4000]
        } else if 0xA000 <= addr && addr < 0xC000 {
            if self.ram_enabled && self.ram_banks >= 1 {
                let bank = self.ram_bank();
                self.ram_data[(addr as usize) - 0xA000 + bank * 0x2000]
            } else {
                0xFF
            }
        } else {
            0xFF
        }
    }

    pub fn write(&mut self, addr: u16, val: u8)
        requires
            old(self)@.wf(),
        ensures
            final(self)@ == old(self)@.spec_write(addr, val),
            final(self)@.wf(),
    {
        if addr < 0x2000 {
            self.ram_enabled = (val & 0x0F) == 0x0A;
        } else if addr < 0x4000 {
            proof {
                lemma_usize_and_le((val & 0x1F) as usize, 0x1F);
            }
            self.bank_lower = val & 0x1F;
            proof {
                assert(val & 0x1F < 32) by (bit_vector);
            }
        } else if addr < 0x6000 {
            self.bank_upper = val & 0x03;
            proof {
                assert(val & 0x03 < 4) by (bit_vector);
            }
        } else if addr < 0x8000 {
            self.ram_mode = (val & 0x01) == 0x01;
        } else if 0xA000 <= addr && addr < 0xC000 {
            if self.ram_enabled && self.ram_banks >= 1 {
                let bank = self.ram_bank();
                let idx = (addr as usize) - 0xA000 + bank * 0x2000;
                self.ram_data.set(idx, val);
            }
        }
    }
}

} // verus!
