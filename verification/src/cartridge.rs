//! The cartridge: an immutable ROM image, the header-decoded metadata, and
//! the bank-switching mapper that routes reads and writes.

use vstd::prelude::*;
use crate::mbc1::{Mbc1, Mbc1View};
use crate::mbc5::{Mbc5, Mbc5View};

verus! {

/// Mapper families a header can name. Only none, MBC1 and MBC5 are
/// implemented; the others are recognised so the loader can report them.
#[derive(Copy, Clone, PartialEq, Eq, Structural, Debug)]
pub enum MapperType {
    Mbc1,
    Mbc2,
    Mbc3,
    Mbc5,
    Mmm01,
    Huc1,
}

/// The mapper state: a tagged variant over none, MBC1 and MBC5.
pub enum Mapper {
    Passthrough,
    Mbc1(Mbc1),
    Mbc5(Mbc5),
}

/// Ghost image of the mapper.
pub enum MapperView {
    Passthrough,
    Mbc1(Mbc1View),
    Mbc5(Mbc5View),
}

impl View for Mapper {
    type V = MapperView;

    open spec fn view(&self) -> MapperView {
        match self {
            Mapper::Passthrough => MapperView::Passthrough,
            Mapper::Mbc1(m) => MapperView::Mbc1(m@),
            Mapper::Mbc5(m) => MapperView::Mbc5(m@),
        }
    }
}

/// The mapper family a cartridge-type byte selects, if any.
pub open spec fn spec_mapper_type(code: u8) -> Option<MapperType> {
    if code == 0x01 || code == 0x02 || code == 0x03 {
        Some(MapperType::Mbc1)
    } else if code == 0x05 || code == 0x06 {
        Some(MapperType::Mbc2)
    } else if code == 0x0B || code == 0x0C || code == 0x0D {
        Some(MapperType::Mmm01)
    } else if code == 0x0F || code == 0x10 || code == 0x11 || code == 0x12 || code == 0x13 {
        Some(MapperType::Mbc3)
    } else if code == 0x19 || code == 0x1A || code == 0x1B || code == 0x1C || code == 0x1D
        || code == 0x1E {
        Some(MapperType::Mbc5)
    } else if code == 0xFF {
        Some(MapperType::Huc1)
    } else {
        None
    }
}

/// Whether the ROM-size byte is one the header specification defines.
pub open spec fn rom_size_known(code: u8) -> bool {
    code <= 0x08 || code == 0x52 || code == 0x53 || code == 0x54
}

/// ROM bank count for a header ROM-size byte.
pub open spec fn spec_total_rom_banks(code: u8) -> usize {
    if code == 0x00 {
        0
    } else if code == 0x01 {
        4
    } else if code == 0x02 {
        8
    } else if code == 0x03 {
        16
    } else if code == 0x04 {
        32
    } else if code == 0x05 {
        64
    } else if code == 0x06 {
        128
    } else if code == 0x07 {
        256
    } else if code == 0x08 {
        512
    } else if code == 0x52 {
        72
    } else if code == 0x53 {
        80
    } else {
        96
    }
}

/// Whether the RAM-size byte is one the header specification defines.
pub open spec fn ram_size_known(code: u8) -> bool {
    code <= 0x05
}

/// RAM bank count for a header RAM-size byte.
pub open spec fn spec_total_ram_banks(code: u8) -> usize {
    if code == 0 {
        0
    } else if code == 1 {
        1
    } else if code == 2 {
        1
    } else if code == 3 {
        4
    } else if code == 4 {
        16
    } else {
        8
    }
}

/// The mapper family a cartridge-type byte selects, if any.
pub fn mapper_type_of(code: u8) -> (r: Option<MapperType>)
    ensures
        r == spec_mapper_type(code),
{
    match code {
        0x01 | 0x02 | 0x03 => Some(MapperType::Mbc1),
        0x05 | 0x06 => Some(MapperType::Mbc2),
        0x0B | 0x0C | 0x0D => Some(MapperType::Mmm01),
        0x0F | 0x10 | 0x11 | 0x12 | 0x13 => Some(MapperType::Mbc3),
        0x19 | 0x1A | 0x1B | 0x1C | 0x1D | 0x1E => Some(MapperType::Mbc5),
        0xFF => Some(MapperType::Huc1),
        _ => None,
    }
}

/// ROM bank count for a header ROM-size byte.
pub fn total_rom_banks_of(code: u8) -> (r: usize)
    requires
        rom_size_known(code),
    ensures
        r == spec_total_rom_banks(code),
{
    match code {
        0x00 => 0,
        0x01 => 4,
        0x02 => 8,
        0x03 => 16,
        0x04 => 32,
        0x05 => 64,
        0x06 => 128,
        0x07 => 256,
        0x08 => 512,
        0x52 => 72,
        0x53 => 80,
        _ => 96,
    }
}

/// RAM bank count for a header RAM-size byte.
pub fn total_ram_banks_of(code: u8) -> (r: usize)
    requires
        ram_size_known(code),
    ensures
        r == spec_total_ram_banks(code),
{
    match code {
        0 => 0,
        1 => 1,
        2 => 1,
        3 => 4,
        4 => 16,
        _ => 8,
    }
}

/// Why a ROM image was rejected.
#[derive(Copy, Clone, PartialEq, Eq, Structural, Debug)]
pub enum CartridgeError {
    /// The image is shorter than the two banks every cartridge carries.
    TooShort,
    /// The cartridge-type byte names a mapper this core does not implement.
    UnsupportedMapper(u8),
    /// The ROM-size byte is not one the header specification defines.
    UnknownRomSize(u8),
    /// The RAM-size byte is not one the header specification defines.
    UnknownRamSize(u8),
    /// The image length does not equal 16 KiB times the bank count.
    SizeMismatch,
}

pub struct Cartridge {
    pub rom: Vec<u8>,
    pub mapper: Mapper,
}

/// Ghost image of a cartridge.
pub struct CartridgeView {
    pub rom: Seq<u8>,
    pub mapper: MapperView,
}

impl View for Cartridge {
    type V = CartridgeView;

    open spec fn view(&self) -> CartridgeView {
        CartridgeView { rom: self.rom@, mapper: self.mapper@ }
    }
}

/// Whether `data` is an image this core accepts: long enough for the two
/// fixed banks, and, when it names an implemented mapper, sized exactly to
/// the header's bank count.
pub open spec fn rom_image_ok(data: Seq<u8>) -> bool {
    &&& data.len() >= 0x8000
    &&& match spec_mapper_type(data[0x147]) {
        Option::None => true,
        Option::Some(MapperType::Mbc1) | Option::Some(MapperType::Mbc5) => {
            &&& rom_size_known(data[0x148])
            &&& ram_size_known(data[0x149])
            &&& data.len() == spec_total_rom_banks(data[0x148]) * 0x4000
        },
        _ => false,
    }
}

impl CartridgeView {
    pub open spec fn wf(self) -> bool {
        &&& self.rom.len() >= 0x8000
        &&& match self.mapper {
            MapperView::Passthrough => true,
            MapperView::Mbc1(m) => m.wf() && self.rom.len() == m.rom_banks * 0x4000,
            MapperView::Mbc5(m) => m.wf() && self.rom.len() == m.rom_banks * 0x4000,
        }
    }

    /// What a read through the mapper returns. Without a mapper, ROM below
    /// 0x8000 and 0xFF in the external-RAM window.
    pub open spec fn spec_read(self, addr: u16) -> u8 {
        match self.mapper {
            MapperView::Passthrough => {
                if addr < 0x8000 {
                    self.rom[addr as int]
                } else {
                    0xFF
                }
            },
            MapperView::Mbc1(m) => m.spec_read(self.rom, addr),
            MapperView::Mbc5(m) => m.spec_read(self.rom, addr),
        }
    }

    /// What a write does: nothing without a mapper, otherwise the mapper's
    /// register or external-RAM update.
    pub open spec fn spec_write(self, addr: u16, val: u8) -> CartridgeView {
        match self.mapper {
            MapperView::Passthrough => self,
            MapperView::Mbc1(m) => CartridgeView {
                mapper: MapperView::Mbc1(m.spec_write(addr, val)),
                ..self
            },
            MapperView::Mbc5(m) => CartridgeView {
                mapper: MapperView::Mbc5(m.spec_write(addr, val)),
                ..self
            },
        }
    }
}

impl Cartridge {
    /// Builds a cartridge from a ROM image whose header was already checked.
    pub fn from_vec(data: Vec<u8>) -> (r: Cartridge)
        requires
            rom_image_ok(data@),
        ensures
            r@.wf(),
            r@.rom == data@,
            r@.mapper == (match spec_mapper_type(data@[0x147]) {
                Option::Some(MapperType::Mbc1) => MapperView::Mbc1(Mbc1View {
                    rom_banks: spec_total_rom_banks(data@[0x148]),
                    ram_banks: spec_total_ram_banks(data@[0x149]),
                    ram_enabled: false,
                    ram_data: Seq::new((spec_total_ram_banks(data@[0x149]) * 0x2000) as nat, |i: int| 0u8),
                    bank_lower: 0,
                    bank_upper: 0,
                    ram_mode: false,
                }),
                Option::Some(MapperType::Mbc5) => MapperView::Mbc5(Mbc5View {
                    rom_banks: spec_total_rom_banks(data@[0x148]),
                    ram_banks: spec_total_ram_banks(data@[0x149]),
                    ram_enabled: false,
                    ram_data: Seq::new((spec_total_ram_banks(data@[0x149]) * 0x2000) as nat, |i: int| 0u8),
                    rom_lower: 1,
                    rom_upper: 0,
                    ram_bank_sel: 0,
                }),
                _ => MapperView::Passthrough,
            }),
    {
        let mapper = match mapper_type_of(data[0x147]) {
            Some(MapperType::Mbc1) => {
                let rom_banks = total_rom_banks_of(data[0x148]);
                let ram_banks = total_ram_banks_of(data[0x149]);
                Mapper::Mbc1(Mbc1::new(rom_banks, ram_banks))
            },
            Some(MapperType::Mbc5) => {
                let rom_banks = total_rom_banks_of(data[0x148]);
                let ram_banks = total_ram_banks_of(data[0x149]);
                Mapper::Mbc5(Mbc5::new(rom_banks, ram_banks))
            },
            _ => Mapper::Passthrough,
        };
        Cartridge { rom: data, mapper }
    }

    /// Checks a ROM image and builds the cartridge, or says exactly why it
    /// was rejected: too short, an unimplemented mapper, an undefined size
    /// byte, or a length that contradicts the header.
    pub fn try_from_vec(data: Vec<u8>) -> (r: Result<Cartridge, CartridgeError>)
        ensures
            rom_image_ok(data@) <==> r is Ok,
            r is Ok ==> r->Ok_0@.wf() && r->Ok_0@.rom == data@,
            r is Err ==> r->Err_0 == (if data@.len() < 0x8000 {
                CartridgeError::TooShort
            } else if {
                let t = spec_mapper_type(data@[0x147]);
                t is Some && !(t == Some(MapperType::Mbc1) || t == Some(MapperType::Mbc5))
            } {
                CartridgeError::UnsupportedMapper(data@[0x147])
            } else if !rom_size_known(data@[0x148]) {
                CartridgeError::UnknownRomSize(data@[0x148])
            } else if !ram_size_known(data@[0x149]) {
                CartridgeError::UnknownRamSize(data@[0x149])
            } else {
                CartridgeError::SizeMismatch
            }),
    {
        if data.len() < 0x8000 {
            return Err(CartridgeError::TooShort);
        }
        match mapper_type_of(data[0x147]) {
            None => Ok(Cartridge::from_vec(data)),
            Some(MapperType::Mbc1) | Some(MapperType::Mbc5) => {
                let rom_code = data[0x148];
                let ram_code = data[0x149];
                if !(rom_code <= 0x08 || rom_code == 0x52 || rom_code == 0x53 || rom_code == 0x54) {
                    return Err(CartridgeError::UnknownRomSize(rom_code));
                }
                if !(ram_code <= 0x05) {
                    return Err(CartridgeError::UnknownRamSize(ram_code));
                }
                let banks = total_rom_banks_of(rom_code);
                if data.len() != banks * 0x4000 {
                    return Err(CartridgeError::SizeMismatch);
                }
                Ok(Cartridge::from_vec(data))
            },
            Some(_) => Err(CartridgeError::UnsupportedMapper(data[0x147])),
        }
    }

    /// The title bytes at 0x134..0x143 of the header.
    pub fn name(&self) -> (r: Vec<u8>)
        requires
            self@.wf(),
        ensures
            r@ == self@.rom.subrange(0x134, 0x143),
    {
        let mut out: Vec<u8> = Vec::new();
        let mut i: usize = 0x134;
        while i < 0x143
            invariant
                0x134 <= i <= 0x143,
                self@.wf(),
                out@ == self@.rom.subrange(0x134, i as int),
            decreases 0x143 - i,
        {
            out.push(self.rom[i]);
            i = i + 1;
            proof {
                assert(out@ =~= self@.rom.subrange(0x134, i as int));
            }
        }
        out
    }

    /// Whether the header flags the image as colour-capable.
    pub fn gbc(&self) -> (r: bool)
        requires
            self@.wf(),
        ensures
            r == (self@.rom[0x143] == 0x80),
    {
        self.rom[0x143] == 0x80
    }

    /// Whether the header flags super-console features.
    pub fn sgb(&self) -> (r: bool)
        requires
            self@.wf(),
        ensures
            r == (self@.rom[0x146] == 0x03),
    {
        self.rom[0x146] == 0x03
    }

    /// The mapper family the header names.
    pub fn mapper_type(&self) -> (r: Option<MapperType>)
        requires
            self@.wf(),
        ensures
            r == spec_mapper_type(self@.rom[0x147]),
    {
        mapper_type_of(self.rom[0x147])
    }

    /// ROM bank count from the header size byte.
    pub fn total_rom_banks(&self) -> (r: usize)
        requires
            self@.wf(),
            rom_size_known(self@.rom[0x148]),
        ensures
            r == spec_total_rom_banks(self@.rom[0x148]),
    {
        total_rom_banks_of(self.rom[0x148])
    }

    /// RAM bank count from the header size byte.
    pub fn total_ram_banks(&self) -> (r: usize)
        requires
            self@.wf(),
            ram_size_known(self@.rom[0x149]),
        ensures
            r == spec_total_ram_banks(self@.rom[0x149]),
    {
        total_ram_banks_of(self.rom[0x149])
    }

    pub fn read(&self, addr: u16) -> (r: u8)
        requires
            self@.wf(),
        ensures
            r == self@.spec_read(addr),
    {
        match &self.mapper {
            Mapper::Passthrough => {
                if addr < 0x8000 {
                    self.rom[addr as usize]
                } else {
                    0xFF
                }
            },
            Mapper::Mbc1(m) => m.read(&self.rom, addr),
            Mapper::Mbc5(m) => m.read(&self.rom, addr),
        }
    }

    pub fn write(&mut self, addr: u16, val: u8)
        requires
            old(self)@.wf(),
        ensures
            final(self)@ == old(self)@.spec_write(addr, val),
            final(self)@.wf(),
    {
        match &mut self.mapper {
            Mapper::Passthrough => {},
            Mapper::Mbc1(m) => m.write(addr, val),
            Mapper::Mbc5(m) => m.write(addr, val),
        }
    }
}

} // verus!
