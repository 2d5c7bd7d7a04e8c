//! The display controller: the four-mode state machine driven by the CPU
//! clock, the per-line background, window and sprite rasterizer, VRAM and
//! the sprite attribute table, and the VBlank / STAT interrupt sources.

use vstd::prelude::*;
use vstd::wrapping::u8_specs;
use crate::bitops::lemma_u8_and_le;

verus! {

broadcast use lemma_u8_and_le;

pub const SCREEN_WIDTH: usize = 160;

pub const SCREEN_HEIGHT: usize = 144;

pub const ADDR_LCDC: u16 = 0xFF40;

pub const ADDR_STAT: u16 = 0xFF41;

pub const ADDR_SCY: u16 = 0xFF42;

pub const ADDR_SCX: u16 = 0xFF43;

pub const ADDR_LY: u16 = 0xFF44;

pub const ADDR_LYC: u16 = 0xFF45;

pub const ADDR_DMA: u16 = 0xFF46;

pub const ADDR_BGP: u16 = 0xFF47;

pub const ADDR_OBP0: u16 = 0xFF48;

pub const ADDR_OBP1: u16 = 0xFF49;

pub const ADDR_WY: u16 = 0xFF4A;

pub const ADDR_WX: u16 = 0xFF4B;

pub const CYCLES_PER_OAM_READ: usize = 80;

pub const CYCLES_PER_TRANSFER: usize = 172;

pub const CYCLES_PER_HBLANK: usize = 204;

pub const CYCLES_PER_LINE: usize = 456;

/// The mode the controller is in; STAT bits 1..0 expose it.
#[derive(Copy, Clone, PartialEq, Eq, Structural, Debug)]
pub enum Mode {
    HBlank,
    VBlank,
    Oam,
    Transfer,
}

/// The two mode bits a STAT read reports.
pub open spec fn mode_bits(m: Mode) -> u8 {
    match m {
        Mode::HBlank => 0,
        Mode::VBlank => 1,
        Mode::Oam => 2,
        Mode::Transfer => 3,
    }
}

/// Cycles a mode lasts before the machine moves on.
pub open spec fn mode_threshold(m: Mode) -> usize {
    match m {
        Mode::Oam => 80,
        Mode::Transfer => 172,
        Mode::HBlank => 204,
        Mode::VBlank => 456,
    }
}

/// One sprite descriptor of the attribute table.
#[derive(Copy, Clone, PartialEq, Eq, Structural, Debug)]
pub struct OamEntry {
    pub y: u8,
    pub x: u8,
    pub tile: u8,
    pub attrs: u8,
}

/// Outcome of advancing the controller: which interrupts it raised.
pub struct StepResult {
    pub int_vblank: bool,
    pub int_stat: bool,
}

pub struct Lcd {
    pub vram: Vec<u8>,
    pub oam: Vec<OamEntry>,
    pub lcdc: u8,
    pub stat: u8,
    pub scy: u8,
    pub scx: u8,
    pub ly: u8,
    pub lyc: u8,
    pub bgp: u8,
    pub obp0: u8,
    pub obp1: u8,
    pub wy: u8,
    pub wx: u8,
    pub mode: Mode,
    pub mode_cycles: usize,
    pub draw_pending: bool,
}

/// Ghost image of the controller.
pub struct LcdView {
    pub vram: Seq<u8>,
    pub oam: Seq<OamEntry>,
    pub lcdc: u8,
    pub stat: u8,
    pub scy: u8,
    pub scx: u8,
    pub ly: u8,
    pub lyc: u8,
    pub bgp: u8,
    pub obp0: u8,
    pub obp1: u8,
    pub wy: u8,
    pub wx: u8,
    pub mode: Mode,
    pub mode_cycles: usize,
    pub draw_pending: bool,
}

impl View for Lcd {
    type V = LcdView;

    open spec fn view(&self) -> LcdView {
        LcdView {
            vram: self.vram@,
            oam: self.oam@,
            lcdc: self.lcdc,
            stat: self.stat,
            scy: self.scy,
            scx: self.scx,
            ly: self.ly,
            lyc: self.lyc,
            bgp: self.bgp,
            obp0: self.obp0,
            obp1: self.obp1,
            wy: self.wy,
            wx: self.wx,
            mode: self.mode,
            mode_cycles: self.mode_cycles,
            draw_pending: self.draw_pending,
        }
    }
}

/// The color index (0..3) of one pixel of the tile whose pattern starts at
/// VRAM address `addr`: bit `7 - col` of the row's two pattern bytes.
pub open spec fn spec_tile_pixel(vram: Seq<u8>, addr: int, row: int, col: int) -> u8 {
    let lower = vram[addr + row * 2 - 0x8000];
    let upper = vram[addr + row * 2 + 1 - 0x8000];
    let shift = (7 - col) as u8;
    (2 * ((upper >> shift) & 1) + ((lower >> shift) & 1)) as u8
}

/// The conventional DMG shade for a color index seen through a palette byte.
pub open spec fn spec_palette_rgb(pal: u8, idx: u8) -> u32 {
    let shade = (pal >> ((2 * idx) as u8)) & 3;
    if shade == 0 {
        0x9CBD0F
    } else if shade == 1 {
        0x8CAD0F
    } else if shade == 2 {
        0x306230
    } else {
        0x0F380F
    }
}

impl LcdView {
    pub open spec fn wf(self) -> bool {
        &&& self.vram.len() == 0x2000
        &&& self.oam.len() == 40
        &&& self.mode_cycles < mode_threshold(self.mode)
        &&& (self.mode is VBlank ==> 144 <= self.ly <= 153)
        &&& (!(self.mode is VBlank) ==> self.ly < 144)
    }

    pub open spec fn enabled(self) -> bool {
        self.lcdc & 0x80 == 0x80
    }

    /// Base address of the background tile map (LCDC bit 3).
    pub open spec fn bg_map_base(self) -> int {
        if self.lcdc & 0x08 == 0x08 {
            0x9C00
        } else {
            0x9800
        }
    }

    /// Base address of the window tile map (LCDC bit 6).
    pub open spec fn win_map_base(self) -> int {
        if self.lcdc & 0x40 == 0x40 {
            0x9C00
        } else {
            0x9800
        }
    }

    /// The tile index the 32 x 32 map holds for a map coordinate.
    pub open spec fn spec_map_tile(self, base: int, mx: int, my: int) -> u8 {
        self.vram[base + (my / 8) * 32 + mx / 8 - 0x8000]
    }

    /// Pattern address for a tile index: unsigned from 0x8000 when LCDC bit 4
    /// is set, else signed from 0x9000.
    pub open spec fn spec_tile_address(self, idx: u8) -> int {
        if self.lcdc & 0x10 == 0x10 {
            0x8000 + idx * 16
        } else if idx < 128 {
            0x9000 + idx * 16
        } else {
            0x8800 + (idx - 128) * 16
        }
    }

    /// Background color index at screen column `x` of the current line.
    pub open spec fn spec_bg_index(self, x: int) -> u8 {
        let mx = u8_specs::wrapping_add(self.scx, x as u8) as int;
        let my = u8_specs::wrapping_add(self.scy, self.ly) as int;
        spec_tile_pixel(self.vram, self.spec_tile_address(self.spec_map_tile(self.bg_map_base(), mx, my)), my % 8, mx % 8)
    }

    /// Whether the window covers screen column `x` of the current line.
    pub open spec fn spec_win_active(self, x: int) -> bool {
        &&& self.lcdc & 0x20 == 0x20
        &&& self.wx < 166
        &&& self.wy < 143
        &&& self.ly >= self.wy
        &&& x + 7 >= self.wx
    }

    /// Window color index at screen column `x` of the current line.
    pub open spec fn spec_win_index(self, x: int) -> u8 {
        let mx = x + 7 - self.wx;
        let my = self.ly - self.wy;
        spec_tile_pixel(self.vram, self.spec_tile_address(self.spec_map_tile(self.win_map_base(), mx, my)), my % 8, mx % 8)
    }

    /// The background or window color index beneath a sprite pixel; 0 where
    /// neither layer drew.
    pub open spec fn spec_under_index(self, x: int) -> u8 {
        if self.spec_win_active(x) {
            self.spec_win_index(x)
        } else if self.lcdc & 0x01 == 0x01 {
            self.spec_bg_index(x)
        } else {
            0
        }
    }

    /// Sprite height: 16 when LCDC bit 2 selects 8 x 16 sprites, else 8.
    pub open spec fn sprite_height(self) -> int {
        if self.lcdc & 0x04 == 0x04 {
            16
        } else {
            8
        }
    }

    /// Whether a sprite is on screen horizontally and covers the current line.
    pub open spec fn spec_sprite_visible(self, e: OamEntry) -> bool {
        let sy = e.y - 16;
        let sx = e.x - 8;
        &&& sx >= 0
        &&& sx < 160
        &&& self.ly >= sy
        &&& self.ly <= sy + self.sprite_height() - 1
    }

    /// Color index of a sprite at screen column `x`, honouring the X and Y
    /// flips; sprite patterns always sit unsigned at 0x8000.
    pub open spec fn spec_sprite_pixel_index(self, e: OamEntry, x: int) -> u8 {
        let sy = e.y - 16;
        let sx = e.x - 8;
        let h = self.sprite_height();
        let row = if e.attrs & 0x40 == 0x40 {
            h - 1 - (self.ly - sy)
        } else {
            self.ly - sy
        };
        let col = if e.attrs & 0x20 == 0x20 {
            7 - (x - sx)
        } else {
            x - sx
        };
        spec_tile_pixel(self.vram, 0x8000 + e.tile * 16, row, col)
    }

    /// The palette a sprite's attribute bit 4 selects.
    pub open spec fn spec_sprite_palette(self, e: OamEntry) -> u8 {
        if e.attrs & 0x10 == 0x10 {
            self.obp1
        } else {
            self.obp0
        }
    }

    /// The pixel at column `x` after laying the first `n` sprites over
    /// `cur`, later table entries covering earlier ones. Color index 0 is
    /// transparent, and a sprite with the BG-priority attribute hides behind
    /// any nonzero background or window pixel.
    pub open spec fn spec_sprite_over(self, x: int, under: u8, cur: u32, n: int) -> u32
        decreases n,
    {
        if n <= 0 {
            cur
        } else {
            let prev = self.spec_sprite_over(x, under, cur, n - 1);
            let e = self.oam[n - 1];
            let sx = e.x - 8;
            if self.spec_sprite_visible(e) && sx <= x && x <= sx + 7
                && self.spec_sprite_pixel_index(e, x) != 0
                && !(e.attrs & 0x80 == 0x80 && under != 0) {
                spec_palette_rgb(self.spec_sprite_palette(e), self.spec_sprite_pixel_index(e, x))
            } else {
                prev
            }
        }
    }

    /// The buffer after the background pass over the current line.
    pub open spec fn spec_bg_line(self, buf: Seq<u32>) -> Seq<u32> {
        if self.lcdc & 0x01 == 0x01 {
            Seq::new(
                buf.len(),
                |i: int| if self.ly * 160 <= i < self.ly * 160 + 160 {
                    spec_palette_rgb(self.bgp, self.spec_bg_index(i - self.ly * 160))
                } else {
                    buf[i]
                },
            )
        } else {
            buf
        }
    }

    /// The buffer after the window pass over the current line.
    pub open spec fn spec_win_line(self, buf: Seq<u32>) -> Seq<u32> {
        if self.lcdc & 0x20 == 0x20 {
            Seq::new(
                buf.len(),
                |i: int| if self.ly * 160 <= i < self.ly * 160 + 160
                    && self.spec_win_active(i - self.ly * 160) {
                    spec_palette_rgb(self.bgp, self.spec_win_index(i - self.ly * 160))
                } else {
                    buf[i]
                },
            )
        } else {
            buf
        }
    }

    /// The buffer after the sprite pass over the current line.
    pub open spec fn spec_sprite_line(self, buf: Seq<u32>) -> Seq<u32> {
        if self.lcdc & 0x02 == 0x02 {
            Seq::new(
                buf.len(),
                |i: int| if self.ly * 160 <= i < self.ly * 160 + 160 {
                    self.spec_sprite_over(
                        i - self.ly * 160,
                        self.spec_under_index(i - self.ly * 160),
                        buf[i],
                        40,
                    )
                } else {
                    buf[i]
                },
            )
        } else {
            buf
        }
    }

    /// The whole rendered line: background, then window, then sprites.
    pub open spec fn spec_draw_line(self, buf: Seq<u32>) -> Seq<u32> {
        self.spec_sprite_line(self.spec_win_line(self.spec_bg_line(buf)))
    }

    /// STAT bit 2 follows the LY == LYC comparison; the comparison raises the
    /// STAT interrupt when bit 6 enables it.
    pub open spec fn spec_coincidence(self) -> (u8, bool) {
        let s = if self.ly == self.lyc {
            self.stat | 0x04
        } else {
            self.stat & 0xFB
        };
        (s, self.stat & 0x40 == 0x40 && self.ly == self.lyc)
    }

    /// Whether entering `m` raises the STAT interrupt through its
    /// mode-enable bit (bit 3 HBlank, bit 4 VBlank, bit 5 OamScan).
    pub open spec fn mode_entry_stat(self, m: Mode) -> bool {
        match m {
            Mode::HBlank => self.stat & 0x08 == 0x08,
            Mode::VBlank => self.stat & 0x10 == 0x10,
            Mode::Oam => self.stat & 0x20 == 0x20,
            Mode::Transfer => false,
        }
    }

    /// The controller, buffer and interrupts after `cycles` CPU cycles.
    /// Disabled, nothing moves. Each visible line runs OamScan (80),
    /// Transfer (172, during which the line is rendered once) and HBlank
    /// (204); line 143's HBlank enters VBlank, whose ten 456-cycle lines
    /// wrap LY back to 0.
    pub open spec fn spec_step(self, cycles: usize, buf: Seq<u32>) -> (LcdView, Seq<u32>, bool, bool) {
        if !self.enabled() {
            (self, buf, false, false)
        } else {
            let m = self.mode_cycles + cycles;
            match self.mode {
                Mode::Oam => {
                    if m >= 80 {
                        (
                            LcdView {
                                mode: Mode::Transfer,
                                mode_cycles: (m - 80) as usize,
                                draw_pending: true,
                                ..self
                            },
                            buf,
                            false,
                            false,
                        )
                    } else {
                        (LcdView { mode_cycles: m as usize, ..self }, buf, false, false)
                    }
                },
                Mode::Transfer => {
                    if m >= 172 {
                        (
                            LcdView { mode: Mode::HBlank, mode_cycles: (m - 172) as usize, ..self },
                            buf,
                            false,
                            self.mode_entry_stat(Mode::HBlank),
                        )
                    } else if self.draw_pending {
                        (
                            LcdView { mode_cycles: m as usize, draw_pending: false, ..self },
                            self.spec_draw_line(buf),
                            false,
                            false,
                        )
                    } else {
                        (LcdView { mode_cycles: m as usize, ..self }, buf, false, false)
                    }
                },
                Mode::HBlank => {
                    if m >= 204 {
                        let ly2 = (self.ly + 1) as u8;
                        if ly2 == 144 {
                            let coin = LcdView { ly: ly2, ..self }.spec_coincidence();
                            (
                                LcdView {
                                    mode: Mode::VBlank,
                                    mode_cycles: (m - 204) as usize,
                                    ly: ly2,
                                    stat: coin.0,
                                    ..self
                                },
                                buf,
                                true,
                                self.mode_entry_stat(Mode::VBlank) || coin.1,
                            )
                        } else {
                            let coin = LcdView { ly: ly2, ..self }.spec_coincidence();
                            (
                                LcdView {
                                    mode: Mode::Oam,
                                    mode_cycles: (m - 204) as usize,
                                    ly: ly2,
                                    stat: coin.0,
                                    ..self
                                },
                                buf,
                                false,
                                self.mode_entry_stat(Mode::Oam) || coin.1,
                            )
                        }
                    } else {
                        (LcdView { mode_cycles: m as usize, ..self }, buf, false, false)
                    }
                },
                Mode::VBlank => {
                    if m >= 456 {
                        let ly2 = (self.ly + 1) as u8;
                        if ly2 > 153 {
                            let coin = LcdView { ly: 0, ..self }.spec_coincidence();
                            (
                                LcdView {
                                    mode: Mode::Oam,
                                    mode_cycles: (m - 456) as usize,
                                    ly: 0,
                                    stat: coin.0,
                                    ..self
                                },
                                buf,
                                false,
                                self.mode_entry_stat(Mode::Oam) || coin.1,
                            )
                        } else {
                            let coin = LcdView { ly: ly2, ..self }.spec_coincidence();
                            (
                                LcdView { mode_cycles: (m - 456) as usize, ly: ly2, stat: coin.0, ..self },
                                buf,
                                false,
                                coin.1,
                            )
                        }
                    } else {
                        (LcdView { mode_cycles: m as usize, ..self }, buf, false, false)
                    }
                },
            }
        }
    }

    /// What a read of VRAM, the attribute table or a display register
    /// returns; unmapped addresses read 0.
    pub open spec fn spec_read(self, addr: u16) -> u8 {
        if 0x8000 <= addr && addr <= 0x9FFF {
            self.vram[addr - 0x8000]
        } else if 0xFE00 <= addr && addr <= 0xFE9F {
            let off = addr - 0xFE00;
            let e = self.oam[off / 4];
            if off % 4 == 0 {
                e.y
            } else if off % 4 == 1 {
                e.x
            } else if off % 4 == 2 {
                e.tile
            } else {
                e.attrs
            }
        } else if addr == ADDR_LCDC {
            self.lcdc
        } else if addr == ADDR_STAT {
            0x80 | (self.stat & 0x7C) | mode_bits(self.mode)
        } else if addr == ADDR_SCY {
            self.scy
        } else if addr == ADDR_SCX {
            self.scx
        } else if addr == ADDR_LY {
            self.ly
        } else if addr == ADDR_LYC {
            self.lyc
        } else if addr == ADDR_BGP {
            self.bgp
        } else if addr == ADDR_OBP0 {
            self.obp0
        } else if addr == ADDR_OBP1 {
            self.obp1
        } else if addr == ADDR_WY {
            self.wy
        } else if addr == ADDR_WX {
            self.wx
        } else {
            0
        }
    }

    /// One attribute-table entry with the byte at `off % 4` replaced.
    pub open spec fn spec_oam_entry_write(e: OamEntry, off: int, val: u8) -> OamEntry {
        if off % 4 == 0 {
            OamEntry { y: val, ..e }
        } else if off % 4 == 1 {
            OamEntry { x: val, ..e }
        } else if off % 4 == 2 {
            OamEntry { tile: val, ..e }
        } else {
            OamEntry { attrs: val, ..e }
        }
    }

    /// The attribute table with byte `off` (0..160) replaced, gate ignored.
    pub open spec fn spec_oam_write_raw(self, off: int, val: u8) -> LcdView {
        LcdView {
            oam: self.oam.update(off / 4, Self::spec_oam_entry_write(self.oam[off / 4], off, val)),
            ..self
        }
    }

    /// What a write does. VRAM writes are dropped during Transfer and
    /// attribute-table writes outside HBlank / VBlank while the display is
    /// enabled; LY is read-only; disabling the display resets it to HBlank
    /// with LY 0, and re-enabling restarts OamScan at LY 0.
    pub open spec fn spec_write(self, addr: u16, val: u8) -> LcdView {
        if 0x8000 <= addr && addr <= 0x9FFF {
            if !self.enabled() || !(self.mode is Transfer) {
                LcdView { vram: self.vram.update(addr - 0x8000, val), ..self }
            } else {
                self
            }
        } else if 0xFE00 <= addr && addr <= 0xFE9F {
            if !self.enabled() || self.mode is HBlank || self.mode is VBlank {
                self.spec_oam_write_raw(addr - 0xFE00, val)
            } else {
                self
            }
        } else if addr == ADDR_LCDC {
            if val & 0x80 != 0x80 {
                LcdView { lcdc: val, mode: Mode::HBlank, mode_cycles: 0, ly: 0, ..self }
            } else if !self.enabled() {
                LcdView { lcdc: val, mode: Mode::Oam, mode_cycles: 0, ly: 0, ..self }
            } else {
                LcdView { lcdc: val, ..self }
            }
        } else if addr == ADDR_STAT {
            LcdView { stat: val & 0xFC, ..self }
        } else if addr == ADDR_SCY {
            LcdView { scy: val, ..self }
        } else if addr == ADDR_SCX {
            LcdView { scx: val, ..self }
        } else if addr == ADDR_LYC {
            LcdView { lyc: val, ..self }
        } else if addr == ADDR_BGP {
            LcdView { bgp: val, ..self }
        } else if addr == ADDR_OBP0 {
            LcdView { obp0: val, ..self }
        } else if addr == ADDR_OBP1 {
            LcdView { obp1: val, ..self }
        } else if addr == ADDR_WY {
            LcdView { wy: val, ..self }
        } else if addr == ADDR_WX {
            LcdView { wx: val, ..self }
        } else {
            self
        }
    }
}

/// The power-on state of the controller: display enabled, OamScan at line 0.
pub open spec fn boot_view() -> LcdView {
    LcdView {
        vram: Seq::new(0x2000, |i: int| 0u8),
        oam: Seq::new(40, |i: int| OamEntry { y: 0u8, x: 0u8, tile: 0u8, attrs: 0u8 }),
        lcdc: 0x91,
        stat: 0,
        scy: 0,
        scx: 0,
        ly: 0,
        lyc: 0,
        bgp: 0xFC,
        obp0: 0xFF,
        obp1: 0xFF,
        wy: 0,
        wx: 0,
        mode: Mode::Oam,
        mode_cycles: 0,
        draw_pending: false,
    }
}

impl Lcd {
    pub fn new() -> (r: Lcd)
        ensures
            r@ == boot_view(),
            r@.wf(),
    {
        let mut vram: Vec<u8> = Vec::new();
        while vram.len() < 0x2000
            invariant
                vram@.len() <= 0x2000,
                forall|i: int| 0 <= i < vram@.len() ==> vram@[i] == 0u8,
            decreases 0x2000 - vram@.len(),
        {
            vram.push(0);
        }
        let mut oam: Vec<OamEntry> = Vec::new();
        while oam.len() < 40
            invariant
                oam@.len() <= 40,
                forall|i: int| 0 <= i < oam@.len() ==> oam@[i] == (OamEntry {
                    y: 0u8,
                    x: 0u8,
                    tile: 0u8,
                    attrs: 0u8,
                }),
            decreases 40 - oam@.len(),
        {
            oam.push(OamEntry { y: 0, x: 0, tile: 0, attrs: 0 });
        }
        proof {
            assert(vram@ =~= Seq::new(0x2000, |i: int| 0u8));
            assert(oam@ =~= Seq::new(40, |i: int| OamEntry { y: 0u8, x: 0u8, tile: 0u8, attrs: 0u8 }));
        }
        Lcd {
            vram,
            oam,
            lcdc: 0x91,
            stat: 0,
            scy: 0,
            scx: 0,
            ly: 0,
            lyc: 0,
            bgp: 0xFC,
            obp0: 0xFF,
            obp1: 0xFF,
            wy: 0,
            wx: 0,
            mode: Mode::Oam,
            mode_cycles: 0,
            draw_pending: false,
        }
    }

    /// Color index of one pixel of the tile at pattern address `addr`.
    fn tile_pixel(&self, addr: u16, row: u16, col: u8) -> (r: u8)
        requires
            self@.wf(),
            0x8000 <= addr,
            addr + row * 2 + 1 < 0xA000,
            row < 16,
            col < 8,
        ensures
            r == spec_tile_pixel(self@.vram, addr as int, row as int, col as int),
            r <= 3,
    {
        let lower = self.vram[(addr - 0x8000 + row * 2) as usize];
        let upper = self.vram[(addr - 0x8000 + row * 2 + 1) as usize];
        let shift = 7 - col;
        2 * ((upper >> shift) & 1) + ((lower >> shift) & 1)
    }

    /// The conventional DMG shade for a color index through a palette byte.
    fn palette_rgb(pal: u8, idx: u8) -> (r: u32)
        requires
            idx <= 3,
        ensures
            r == spec_palette_rgb(pal, idx),
    {
        let shade = (pal >> (2 * idx)) & 3;
        if shade == 0 {
            0x9CBD0F
        } else if shade == 1 {
            0x8CAD0F
        } else if shade == 2 {
            0x306230
        } else {
            0x0F380F
        }
    }

    /// Tile index held by a 32 x 32 map for a map coordinate.
    fn map_tile(&self, base: u16, mx: u8, my: u8) -> (r: u8)
        requires
            self@.wf(),
            base == 0x9800 || base == 0x9C00,
        ensures
            r == self@.spec_map_tile(base as int, mx as int, my as int),
    {
        let idx = (base as usize) + ((my as usize) / 8) * 32 + (mx as usize) / 8 - 0x8000;
        self.vram[idx]
    }

    /// Pattern address for a tile index under the current LCDC mode.
    fn tile_address(&self, idx: u8) -> (r: u16)
        ensures
            r == self@.spec_tile_address(idx),
            0x8000 <= r <= 0x97F0,
    {
        if self.lcdc & 0x10 == 0x10 {
            0x8000 + (idx as u16) * 16
        } else if idx < 128 {
            0x9000 + (idx as u16) * 16
        } else {
            0x8800 + ((idx - 128) as u16) * 16
        }
    }

    /// Background color index at screen column `x` of the current line.
    fn bg_index(&self, x: u8) -> (r: u8)
        requires
            self@.wf(),
            x < 160,
        ensures
            r == self@.spec_bg_index(x as int),
            r <= 3,
    {
        let mx = self.scx.wrapping_add(x);
        let my = self.scy.wrapping_add(self.ly);
        let base: u16 = if self.lcdc & 0x08 == 0x08 {
            0x9C00
        } else {
            0x9800
        };
        let tile = self.map_tile(base, mx, my);
        let addr = self.tile_address(tile);
        self.tile_pixel(addr, (my % 8) as u16, mx % 8)
    }

    /// Window color index at screen column `x` of the current line; the
    /// caller established that the window covers the column.
    fn win_index(&self, x: u8) -> (r: u8)
        requires
            self@.wf(),
            x < 160,
            self@.spec_win_active(x as int),
        ensures
            r == self@.spec_win_index(x as int),
            r <= 3,
    {
        let mx = (x + 7) - self.wx;
        let my = self.ly - self.wy;
        let base: u16 = if self.lcdc & 0x40 == 0x40 {
            0x9C00
        } else {
            0x9800
        };
        let tile = self.map_tile(base, mx, my);
        let addr = self.tile_address(tile);
        self.tile_pixel(addr, (my % 8) as u16, mx % 8)
    }

    /// Whether the window covers screen column `x` of the current line.
    fn win_active(&self, x: u8) -> (r: bool)
        requires
            x < 160,
        ensures
            r == self@.spec_win_active(x as int),
    {
        self.lcdc & 0x20 == 0x20 && self.wx < 166 && self.wy < 143 && self.ly >= self.wy
            && (x as u16) + 7 >= (self.wx as u16)
    }

    /// The background or window color index beneath column `x`.
    fn under_index(&self, x: u8) -> (r: u8)
        requires
            self@.wf(),
            x < 160,
        ensures
            r == self@.spec_under_index(x as int),
    {
        if self.win_active(x) {
            self.win_index(x)
        } else if self.lcdc & 0x01 == 0x01 {
            self.bg_index(x)
        } else {
            0
        }
    }

    /// Renders the background of line LY into the buffer.
    fn draw_background_current_line(&self, screen_buffer: &mut Vec<u32>)
        requires
            self@.wf(),
            self.ly < 144,
            old(screen_buffer)@.len() == 160 * 144,
        ensures
            final(screen_buffer)@ == self@.spec_bg_line(old(screen_buffer)@),
    {
        if self.lcdc & 0x01 == 0x01 {
            let base = (self.ly as usize) * 160;
            let mut x: usize = 0;
            while x < 160
                invariant
                    self@.wf(),
                    self.ly < 144,
                    self.lcdc & 0x01 == 0x01,
                    x <= 160,
                    base == self.ly * 160,
                    screen_buffer@.len() == 160 * 144,
                    forall|i: int| 0 <= i < 160 * 144 ==> screen_buffer@[i] == (
                        if base <= i < base + x {
                            spec_palette_rgb(self.bgp, self@.spec_bg_index(i - base))
                        } else {
                            old(screen_buffer)@[i]
                        }
                    ),
                decreases 160 - x,
            {
                let idx = self.bg_index(x as u8);
                screen_buffer.set(base + x, Self::palette_rgb(self.bgp, idx));
                x = x + 1;
            }
            proof {
                assert(screen_buffer@ =~= self@.spec_bg_line(old(screen_buffer)@));
            }
        }
    }

    /// Renders the window of line LY into the buffer.
    fn draw_window_current_line(&self, screen_buffer: &mut Vec<u32>)
        requires
            self@.wf(),
            self.ly < 144,
            old(screen_buffer)@.len() == 160 * 144,
        ensures
            final(screen_buffer)@ == self@.spec_win_line(old(screen_buffer)@),
    {
        if self.lcdc & 0x20 == 0x20 {
            let base = (self.ly as usize) * 160;
            let mut x: usize = 0;
            while x < 160
                invariant
                    self@.wf(),
                    self.ly < 144,
                    self.lcdc & 0x20 == 0x20,
                    x <= 160,
                    base == self.ly * 160,
                    screen_buffer@.len() == 160 * 144,
                    forall|i: int| 0 <= i < 160 * 144 ==> screen_buffer@[i] == (
                        if base <= i < base + x && self@.spec_win_active(i - base) {
                            spec_palette_rgb(self.bgp, self@.spec_win_index(i - base))
                        } else {
                            old(screen_buffer)@[i]
                        }
                    ),
                decreases 160 - x,
            {
                if self.win_active(x as u8) {
                    let idx = self.win_index(x as u8);
                    screen_buffer.set(base + x, Self::palette_rgb(self.bgp, idx));
                }
                x = x + 1;
            }
            proof {
                assert(screen_buffer@ =~= self@.spec_win_line(old(screen_buffer)@));
            }
        }
    }

    /// Lays the sprites over line LY, later table entries covering earlier
    /// ones; transparent pixels and BG-priority sprites over nonzero
    /// background show what is beneath.
    fn draw_sprites_current_line(&self, screen_buffer: &mut Vec<u32>)
        requires
            self@.wf(),
            self.ly < 144,
            old(screen_buffer)@.len() == 160 * 144,
        ensures
            final(screen_buffer)@ == self@.spec_sprite_line(old(screen_buffer)@),
    {
        if self.lcdc & 0x02 == 0x02 {
            let base = (self.ly as usize) * 160;
            let sprite_height: i32 = if self.lcdc & 0x04 == 0x04 {
                16
            } else {
                8
            };
            let mut x: usize = 0;
            while x < 160
                invariant
                    self@.wf(),
                    self.ly < 144,
                    self.lcdc & 0x02 == 0x02,
                    sprite_height == self@.sprite_height(),
                    x <= 160,
                    base == self.ly * 160,
                    screen_buffer@.len() == 160 * 144,
                    forall|i: int| 0 <= i < 160 * 144 ==> screen_buffer@[i] == (
                        if base <= i < base + x {
                            self@.spec_sprite_over(
                                i - base,
                                self@.spec_under_index(i - base),
                                old(screen_buffer)@[i],
                                40,
                            )
                        } else {
                            old(screen_buffer)@[i]
                        }
                    ),
                decreases 160 - x,
            {
                let under = self.under_index(x as u8);
                let mut px: u32 = screen_buffer[base + x];
                let mut n: usize = 0;
                while n < 40
                    invariant
                        self@.wf(),
                        self.ly < 144,
                        sprite_height == self@.sprite_height(),
                        x < 160,
                        n <= 40,
                        base == self.ly * 160,
                        under == self@.spec_under_index(x as int),
                        screen_buffer@.len() == 160 * 144,
                        px == self@.spec_sprite_over(
                            x as int,
                            under,
                            screen_buffer@[base + x],
                            n as int,
                        ),
                        forall|i: int| 0 <= i < 160 * 144 ==> screen_buffer@[i] == (
                            if base <= i < base + x {
                                self@.spec_sprite_over(
                                    i - base,
                                    self@.spec_under_index(i - base),
                                    old(screen_buffer)@[i],
                                    40,
                                )
                            } else {
                                old(screen_buffer)@[i]
                            }
                        ),
                    decreases 40 - n,
                {
                    let e = self.oam[n];
                    let sy: i32 = (e.y as i32) - 16;
                    let sx: i32 = (e.x as i32) - 8;
                    let ly: i32 = self.ly as i32;
                    let xi: i32 = x as i32;
                    if sx >= 0 && sx < 160 && ly >= sy && ly <= sy + sprite_height - 1
                        && sx <= xi && xi <= sx + 7 {
                        let row: i32 = if e.attrs & 0x40 == 0x40 {
                            sprite_height - 1 - (ly - sy)
                        } else {
                            ly - sy
                        };
                        let col: i32 = if e.attrs & 0x20 == 0x20 {
                            7 - (xi - sx)
                        } else {
                            xi - sx
                        };
                        let addr = 0x8000 + (e.tile as u16) * 16;
                        let idx = self.tile_pixel(addr, row as u16, col as u8);
                        if idx != 0 && !(e.attrs & 0x80 == 0x80 && under != 0) {
                            let pal = if e.attrs & 0x10 == 0x10 {
                                self.obp1
                            } else {
                                self.obp0
                            };
                            px = Self::palette_rgb(pal, idx);
                        }
                    }
                    n = n + 1;
                }
                screen_buffer.set(base + x, px);
                x = x + 1;
            }
            proof {
                assert(screen_buffer@ =~= self@.spec_sprite_line(old(screen_buffer)@));
            }
        }
    }

    /// Advances the mode machine by `cycles` and renders each visible line
    /// once during its Transfer window; reports the VBlank and STAT
    /// interrupts the movement raised.
    pub fn step(&mut self, cycles: usize, screen_buffer: &mut Vec<u32>) -> (r: StepResult)
        requires
            old(self)@.wf(),
            cycles <= 80,
            old(screen_buffer)@.len() == 160 * 144,
        ensures
            (final(self)@, final(screen_buffer)@, r.int_vblank, r.int_stat)
                == old(self)@.spec_step(cycles, old(screen_buffer)@),
            final(self)@.wf(),
            final(screen_buffer)@.len() == 160 * 144,
    {
        let mut result = StepResult { int_vblank: false, int_stat: false };

        if self.lcdc & 0x80 == 0x80 {
            let m = self.mode_cycles + cycles;

            match self.mode {
                Mode::Oam => {
                    if m >= 80 {
                        self.mode = Mode::Transfer;
                        self.mode_cycles = m - 80;
                        self.draw_pending = true;
                    } else {
                        self.mode_cycles = m;
                    }
                },
                Mode::Transfer => {
                    if m >= 172 {
                        self.mode = Mode::HBlank;
                        self.mode_cycles = m - 172;
                        if self.stat & 0x08 == 0x08 {
                            result.int_stat = true;
                        }
                    } else if self.draw_pending {
                        self.draw_background_current_line(screen_buffer);
                        self.draw_window_current_line(screen_buffer);
                        self.draw_sprites_current_line(screen_buffer);
                        self.draw_pending = false;
                        self.mode_cycles = m;
                    } else {
                        self.mode_cycles = m;
                    }
                },
                Mode::HBlank => {
                    if m >= 204 {
                        self.ly = self.ly + 1;
                        self.mode_cycles = m - 204;
                        if self.ly == 144 {
                            self.mode = Mode::VBlank;
                            result.int_vblank = true;
                            if self.stat & 0x10 == 0x10 {
                                result.int_stat = true;
                            }
                        } else {
                            self.mode = Mode::Oam;
                            if self.stat & 0x20 == 0x20 {
                                result.int_stat = true;
                            }
                        }
                        self.check_coincidence(&mut result);
                    } else {
                        self.mode_cycles = m;
                    }
                },
                Mode::VBlank => {
                    if m >= 456 {
                        self.mode_cycles = m - 456;
                        self.ly = self.ly + 1;
                        if self.ly > 153 {
                            self.ly = 0;
                            self.mode = Mode::Oam;
                            if self.stat & 0x20 == 0x20 {
                                result.int_stat = true;
                            }
                        }
                        self.check_coincidence(&mut result);
                    } else {
                        self.mode_cycles = m;
                    }
                },
            }
        }

        result
    }

    /// Updates STAT bit 2 from the LY == LYC comparison and raises the STAT
    /// interrupt when bit 6 enables it.
    fn check_coincidence(&mut self, result: &mut StepResult)
        ensures
            final(self)@ == (LcdView { stat: old(self)@.spec_coincidence().0, ..old(self)@ }),
            final(result).int_stat == (old(result).int_stat || old(self)@.spec_coincidence().1),
            final(result).int_vblank == old(result).int_vblank,
    {
        if self.ly == self.lyc {
            if self.stat & 0x40 == 0x40 {
                result.int_stat = true;
            }
            self.stat = self.stat | 0x04;
        } else {
            self.stat = self.stat & 0xFB;
        }
    }

    pub fn read(&self, addr: u16) -> (r: u8)
        requires
            self@.wf(),
        ensures
            r == self@.spec_read(addr),
    {
        if 0x8000 <= addr && addr <= 0x9FFF {
            self.vram[(addr - 0x8000) as usize]
        } else if 0xFE00 <= addr && addr <= 0xFE9F {
            let off = (addr - 0xFE00) as usize;
            let e = self.oam[off / 4];
            if off % 4 == 0 {
                e.y
            } else if off % 4 == 1 {
                e.x
            } else if off % 4 == 2 {
                e.tile
            } else {
                e.attrs
            }
        } else if addr == ADDR_LCDC {
            self.lcdc
        } else if addr == ADDR_STAT {
            let m: u8 = match self.mode {
                Mode::HBlank => 0,
                Mode::VBlank => 1,
                Mode::Oam => 2,
                Mode::Transfer => 3,
            };
            0x80 | (self.stat & 0x7C) | m
        } else if addr == ADDR_SCY {
            self.scy
        } else if addr == ADDR_SCX {
            self.scx
        } else if addr == ADDR_LY {
            self.ly
        } else if addr == ADDR_LYC {
            self.lyc
        } else if addr == ADDR_BGP {
            self.bgp
        } else if addr == ADDR_OBP0 {
            self.obp0
        } else if addr == ADDR_OBP1 {
            self.obp1
        } else if addr == ADDR_WY {
            self.wy
        } else if addr == ADDR_WX {
            self.wx
        } else {
            0
        }
    }

    /// Writes one byte of the attribute table, ignoring the mode gate; OAM
    /// DMA lands through here.
    pub fn oam_write_raw(&mut self, off: usize, val: u8)
        requires
            old(self)@.wf(),
            off < 160,
        ensures
            final(self)@ == old(self)@.spec_oam_write_raw(off as int, val),
            final(self)@.wf(),
    {
        let idx = off / 4;
        let mut e = self.oam[idx];
        if off % 4 == 0 {
            e.y = val;
        } else if off % 4 == 1 {
            e.x = val;
        } else if off % 4 == 2 {
            e.tile = val;
        } else {
            e.attrs = val;
        }
        self.oam.set(idx, e);
    }

    pub fn write(&mut self, addr: u16, val: u8)
        requires
            old(self)@.wf(),
        ensures
            final(self)@ == old(self)@.spec_write(addr, val),
            final(self)@.wf(),
    {
        if 0x8000 <= addr && addr <= 0x9FFF {
            if self.lcdc & 0x80 != 0x80 || !matches!(self.mode, Mode::Transfer) {
                self.vram.set((addr - 0x8000) as usize, val);
            }
        } else if 0xFE00 <= addr && addr <= 0xFE9F {
            if self.lcdc & 0x80 != 0x80 || matches!(self.mode, Mode::HBlank)
                || matches!(self.mode, Mode::VBlank) {
                self.oam_write_raw((addr - 0xFE00) as usize, val);
            }
        } else if addr == ADDR_LCDC {
            let was_enabled = self.lcdc & 0x80 == 0x80;
            self.lcdc = val;
            if val & 0x80 != 0x80 {
                self.mode = Mode::HBlank;
                self.mode_cycles = 0;
                self.ly = 0;
            } else if !was_enabled {
                self.mode = Mode::Oam;
                self.mode_cycles = 0;
                self.ly = 0;
            }
        } else if addr == ADDR_STAT {
            self.stat = val & 0xFC;
        } else if addr == ADDR_SCY {
            self.scy = val;
        } else if addr == ADDR_SCX {
            self.scx = val;
        } else if addr == ADDR_LYC {
            self.lyc = val;
        } else if addr == ADDR_BGP {
            self.bgp = val;
        } else if addr == ADDR_OBP0 {
            self.obp0 = val;
        } else if addr == ADDR_OBP1 {
            self.obp1 = val;
        } else if addr == ADDR_WY {
            self.wy = val;
        } else if addr == ADDR_WX {
            self.wx = val;
        }
    }
}

} // verus!
