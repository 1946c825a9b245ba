use vstd::prelude::*;
use vstd::arithmetic::power2::pow2;

use crate::cartridge::Cartridge;
use crate::frame::{pixel_offset, Frame};
use crate::mapper::{nametable_index, spec_nametable_index, Mirroring};

verus! {

/// `$2000` PPUCTRL.
#[derive(Debug, Clone, Copy, PartialEq, Eq, Structural)]
pub struct Control(pub u8);

impl Control {
    pub fn nmi_enabled(self) -> (b: bool)
        ensures
            b == (self.0 & 0x80 != 0),
    {
        self.0 & 0x80 != 0
    }

    pub fn vram_increment(self) -> (n: u16)
        ensures
            n == vram_increment(self.0),
    {
        if self.0 & 0x04 != 0 {
            32
        } else {
            1
        }
    }

    pub fn background_pattern_base(self) -> (base: u16)
        ensures
            base == (if self.0 & 0x10 != 0 { 0x1000u16 } else { 0u16 }),
    {
        if self.0 & 0x10 != 0 {
            0x1000
        } else {
            0x0000
        }
    }

    pub fn tall_sprite(self) -> (b: bool)
        ensures
            b == (self.0 & 0x20 != 0),
    {
        self.0 & 0x20 != 0
    }

    pub fn sprite_pattern_base(self) -> (base: u16)
        ensures
            base == (if self.0 & 0x08 != 0 { 0x1000u16 } else { 0u16 }),
    {
        if self.0 & 0x08 != 0 {
            0x1000
        } else {
            0x0000
        }
    }

    /// The nametable select bits, at their place in the scroll register (bits 10 and 11).
    pub fn nametable_scroll_bits(self) -> (bits: u16)
        ensures
            bits == ((self.0 % 4) * 0x0400) as u16,
    {
        (self.0 % 4) as u16 * 0x0400
    }
}

pub open spec fn vram_increment(ctrl: u8) -> u16 {
    if ctrl & 0x04 != 0 {
        32
    } else {
        1
    }
}

/// `$2001` PPUMASK.
#[derive(Debug, Clone, Copy, PartialEq, Eq, Structural)]
pub struct Mask(pub u8);

impl Mask {
    pub fn show_background(self) -> (b: bool)
        ensures
            b == (self.0 & 0x08 != 0),
    {
        self.0 & 0x08 != 0
    }

    pub fn show_sprites(self) -> (b: bool)
        ensures
            b == (self.0 & 0x10 != 0),
    {
        self.0 & 0x10 != 0
    }

    pub fn show_background_left(self) -> (b: bool)
        ensures
            b == (self.0 & 0x02 != 0),
    {
        self.0 & 0x02 != 0
    }

    pub fn show_sprites_left(self) -> (b: bool)
        ensures
            b == (self.0 & 0x04 != 0),
    {
        self.0 & 0x04 != 0
    }

    pub fn rendering_enabled(self) -> (b: bool)
        ensures
            b == rendering_enabled(self.0),
    {
        self.0 & 0x18 != 0
    }
}

/// Background or sprites are shown.
pub open spec fn rendering_enabled(mask: u8) -> bool {
    mask & 0x18 != 0
}

/// `$2002` PPUSTATUS: vblank (bit 7), sprite zero hit (bit 6), sprite overflow (bit 5).
#[derive(Debug, Clone, Copy, PartialEq, Eq, Structural)]
pub struct Status(pub u8);

impl Status {
    pub fn bits(self) -> (b: u8)
        ensures
            b == self.0,
    {
        self.0
    }

    pub fn set_vblank(&mut self)
        ensures
            final(self).0 == old(self).0 | 0x80,
    {
        self.0 = self.0 | 0x80;
    }

    pub fn clear_vblank(&mut self)
        ensures
            final(self).0 == old(self).0 & 0x7F,
    {
        self.0 = self.0 & 0x7F;
    }

    pub fn clear_render_flags(&mut self)
        ensures
            final(self).0 == old(self).0 & 0x1F,
    {
        self.0 = self.0 & 0x1F;
    }

    pub fn set_sprite_zero_hit(&mut self)
        ensures
            final(self).0 == old(self).0 | 0x40,
    {
        self.0 = self.0 | 0x40;
    }
}

/// The background shift registers and the tile fetched for them.
#[derive(Debug, Clone, Copy, PartialEq, Eq, Structural)]
pub struct BackgroundPipeline {
    pub next_tile_id: u8,
    pub next_palette_id: u8,
    pub next_pattern_lo: u8,
    pub next_pattern_hi: u8,
    pub pattern_shift_lo: u16,
    pub pattern_shift_hi: u16,
    pub attr_shift_lo: u16,
    pub attr_shift_hi: u16,
}

#[derive(Debug, Clone, Copy, PartialEq, Eq, Structural)]
pub struct BgPixel {
    pub palette_id: u8,
    pub color_low_bits: u8,
}

impl BgPixel {
    pub fn transparent(self) -> (b: bool)
        ensures
            b == (self.color_low_bits == 0),
    {
        self.color_low_bits == 0
    }

    pub fn palette_addr(self) -> (addr: u16)
        requires
            self.palette_id < 4,
            self.color_low_bits < 4,
        ensures
            addr == bg_palette_addr(self),
    {
        if self.transparent() {
            0x3F00
        } else {
            0x3F00 + (self.palette_id as u16) * 4 + self.color_low_bits as u16
        }
    }
}

/// The palette entry of a background pixel: the backdrop when it is transparent.
pub open spec fn bg_palette_addr(p: BgPixel) -> u16 {
    if p.color_low_bits == 0 {
        0x3F00
    } else {
        (0x3F00 + p.palette_id * 4 + p.color_low_bits) as u16
    }
}

#[derive(Debug, Clone, Copy, PartialEq, Eq, Structural)]
pub struct SpritePixel {
    pub palette_id: u8,
    pub color_low_bits: u8,
    pub behind_background: bool,
    pub sprite_zero: bool,
}

impl SpritePixel {
    pub fn transparent(self) -> (b: bool)
        ensures
            b == (self.color_low_bits == 0),
    {
        self.color_low_bits == 0
    }

    pub fn palette_addr(self) -> (addr: u16)
        requires
            self.palette_id < 4,
            self.color_low_bits < 4,
        ensures
            addr == sprite_palette_addr(self),
    {
        0x3F10 + (self.palette_id as u16) * 4 + self.color_low_bits as u16
    }
}

pub open spec fn sprite_palette_addr(p: SpritePixel) -> u16 {
    (0x3F10 + p.palette_id * 4 + p.color_low_bits) as u16
}

/// A sprite selected for the scanline: position, attributes and pattern row.
#[derive(Debug, Clone, Copy, PartialEq, Eq, Structural)]
pub struct SpriteSlot {
    pub x: u8,
    pub attr: u8,
    pub pattern_lo: u8,
    pub pattern_hi: u8,
    pub oam_index: u8,
}

/// The nametable byte address for the tile under the scroll register `v`.
pub open spec fn spec_nametable_addr(v: u16) -> u16 {
    (0x2000 + ((v / 1024) % 4) * 0x0400 + ((v / 32) % 32) * 32 + v % 32) as u16
}

/// The attribute byte address for the 4x4-tile block under `v`.
pub open spec fn spec_attribute_addr(v: u16) -> u16 {
    (0x2000 + ((v / 1024) % 4) * 0x0400 + 0x03C0 + (((v / 32) % 32) / 4) * 8 + (v % 32) / 4) as u16
}

/// The shift that selects the 2-bit quadrant of an attribute byte for `v`.
pub open spec fn attribute_shift(v: u16) -> u8 {
    ((((((v / 32) % 32) % 4) / 2) * 2 + ((v % 32) % 4) / 2) * 2) as u8
}

pub open spec fn spec_palette_index(addr: u16) -> int {
    let index = (addr - 0x3F00) % 32;
    if index == 0x10 || index == 0x14 || index == 0x18 || index == 0x1C {
        index - 0x10
    } else {
        index
    }
}

pub fn nametable_addr(v: u16) -> (addr: u16)
    ensures
        addr == spec_nametable_addr(v),
{
    let coarse_x = v % 32;
    let coarse_y = (v / 32) % 32;
    let nametable = (v / 1024) % 4;

    0x2000 + nametable * 0x0400 + coarse_y * 32 + coarse_x
}

pub fn attribute_addr(v: u16) -> (addr: u16)
    ensures
        addr == spec_attribute_addr(v),
{
    let coarse_x = v % 32;
    let coarse_y = (v / 32) % 32;
    let nametable = (v / 1024) % 4;

    0x2000 + nametable * 0x0400 + 0x03C0 + (coarse_y / 4) * 8 + (coarse_x / 4)
}

pub fn attribute_palette_bits(v: u16, attr: u8) -> (bits: u8)
    ensures
        bits == (attr >> attribute_shift(v)) & 0x03,
{
    let coarse_x = v % 32;
    let coarse_y = (v / 32) % 32;

    let quadrant_x = (coarse_x % 4) / 2;
    let quadrant_y = (coarse_y % 4) / 2;
    let shift = ((quadrant_y * 2 + quadrant_x) * 2) as u8;

    (attr >> shift) & 0x03
}

/// Palette RAM index of `addr`: 32 entries mirrored through `$3F00..$3FFF`,
/// with the sprite backdrop entries mirroring the background ones.
pub fn palette_index(addr: u16) -> (index: usize)
    requires
        addr >= 0x3F00,
    ensures
        index == spec_palette_index(addr),
        index < 32,
{
    let mut index = (addr - 0x3F00) % 32;

    if index == 0x10 || index == 0x14 || index == 0x18 || index == 0x1C {
        index = index - 0x10;
    }

    index as usize
}

/// Which pixel wins: a transparent sprite or one behind an opaque background
/// shows the background, otherwise the sprite.
pub open spec fn spec_final_palette_addr(bg: BgPixel, sprite: Option<SpritePixel>) -> u16 {
    match sprite {
        None => bg_palette_addr(bg),
        Some(s) => if s.color_low_bits == 0 {
            bg_palette_addr(bg)
        } else if bg.color_low_bits == 0 {
            sprite_palette_addr(s)
        } else if s.behind_background {
            bg_palette_addr(bg)
        } else {
            sprite_palette_addr(s)
        },
    }
}

/// Pixel priority: a transparent pixel (colour bits 0) never shows over
/// another; with both opaque, a sprite whose priority bit puts it behind the
/// background is hidden by the background pixel, any other sprite covers it.
/// Background colours sit at `$3F00 + 4 * palette + colour` (all transparent
/// ones at the backdrop `$3F00`), sprite colours at `$3F10 + 4 * palette +
/// colour`.
pub proof fn lemma_pixel_priority(bg: BgPixel, sprite: Option<SpritePixel>)
    requires
        bg.palette_id < 4,
        bg.color_low_bits < 4,
        sprite matches Some(s) ==> s.palette_id < 4 && s.color_low_bits < 4,
    ensures
        ({
            let bg_addr: int = if bg.color_low_bits == 0 {
                0x3F00
            } else {
                0x3F00 + 4 * bg.palette_id + bg.color_low_bits
            };
            spec_final_palette_addr(bg, sprite) == match sprite {
                Some(s) => if s.color_low_bits != 0 && (bg.color_low_bits == 0 || !s.behind_background) {
                    0x3F10 + 4 * s.palette_id + s.color_low_bits
                } else {
                    bg_addr
                },
                None => bg_addr,
            }
        }),
        sprite matches Some(s) && s.color_low_bits != 0 && s.behind_background && bg.color_low_bits != 0
            ==> spec_final_palette_addr(bg, sprite) == 0x3F00 + 4 * bg.palette_id + bg.color_low_bits,
{
}

pub fn final_palette_addr(bg: BgPixel, sprite: Option<SpritePixel>) -> (addr: u16)
    requires
        bg.palette_id < 4,
        bg.color_low_bits < 4,
        sprite matches Some(s) ==> s.palette_id < 4 && s.color_low_bits < 4,
    ensures
        addr == spec_final_palette_addr(bg, sprite),
{
    match sprite {
        None => bg.palette_addr(),
        Some(sprite) => {
            if sprite.transparent() {
                bg.palette_addr()
            } else if bg.transparent() {
                sprite.palette_addr()
            } else if sprite.behind_background {
                bg.palette_addr()
            } else {
                sprite.palette_addr()
            }
        },
    }
}

/// The RGB colour of each of the 64 system palette entries.
pub const SYSTEM_PALETTE: [[u8; 3]; 64] = [
    [0x66, 0x66, 0x66], [0x00, 0x2A, 0x88], [0x14, 0x12, 0xA7], [0x3B, 0x00, 0xA4],
    [0x5C, 0x00, 0x7E], [0x6E, 0x00, 0x40], [0x6C, 0x06, 0x00], [0x56, 0x1D, 0x00],
    [0x33, 0x35, 0x00], [0x0B, 0x48, 0x00], [0x00, 0x52, 0x00], [0x00, 0x4F, 0x08],
    [0x00, 0x40, 0x4D], [0x00, 0x00, 0x00], [0x00, 0x00, 0x00], [0x00, 0x00, 0x00],
    [0xAD, 0xAD, 0xAD], [0x15, 0x5F, 0xD9], [0x42, 0x40, 0xFF], [0x75, 0x27, 0xFE],
    [0xA0, 0x1A, 0xCC], [0xB7, 0x1E, 0x7B], [0xB5, 0x31, 0x20], [0x99, 0x4E, 0x00],
    [0x6B, 0x6D, 0x00], [0x38, 0x87, 0x00], [0x0C, 0x93, 0x00], [0x00, 0x8F, 0x32],
    [0x00, 0x7C, 0x8D], [0x00, 0x00, 0x00], [0x00, 0x00, 0x00], [0x00, 0x00, 0x00],
    [0xFF, 0xFE, 0xFF], [0x64, 0xB0, 0xFF], [0x92, 0x90, 0xFF], [0xC6, 0x76, 0xFF],
    [0xF3, 0x6A, 0xFF], [0xFE, 0x6E, 0xCC], [0xFE, 0x81, 0x70], [0xEA, 0x9E, 0x22],
    [0xBC, 0xBE, 0x00], [0x88, 0xD8, 0x00], [0x5C, 0xE4, 0x30], [0x45, 0xE0, 0x82],
    [0x48, 0xCD, 0xDE], [0x4F, 0x4F, 0x4F], [0x00, 0x00, 0x00], [0x00, 0x00, 0x00],
    [0xFF, 0xFE, 0xFF], [0xC0, 0xDF, 0xFF], [0xD3, 0xD2, 0xFF], [0xE8, 0xC8, 0xFF],
    [0xFB, 0xC2, 0xFF], [0xFE, 0xC4, 0xEA], [0xFE, 0xCC, 0xC5], [0xF7, 0xD8, 0xA5],
    [0xE4, 0xE5, 0x94], [0xCF, 0xEF, 0x96], [0xBD, 0xF4, 0xAB], [0xB3, 0xF3, 0xCC],
    [0xB5, 0xEB, 0xF2], [0xB8, 0xB8, 0xB8], [0x00, 0x00, 0x00], [0x00, 0x00, 0x00],
];

/// The picture processing unit: registers, object memory, nametable and
/// palette RAM, the rendering pipeline and the frame being drawn.
#[derive(Clone, Copy, PartialEq, Eq)]
pub struct Ppu {
    /// $2000 PPUCTRL
    pub ctrl: Control,
    /// $2001 PPUMASK
    pub mask: Mask,
    /// $2002 PPUSTATUS
    pub status: Status,
    /// $2003 OAMADDR
    pub oam_addr: u8,
    /// Object attribute memory, accessed through `oam_addr`
    pub oam: [u8; 0x100],
    /// $2007 PPUDATA read buffer
    pub read_buffer: u8,
    /// VRAM address
    pub v: u16,
    /// Temporary VRAM address / scroll target
    pub t: u16,
    /// Fine x scroll
    pub x: u8,
    /// Write latch
    pub w: bool,
    /// Internal nametable RAM
    pub vram: [u8; 0x1000],
    /// Internal palette RAM
    pub palette: [u8; 0x20],
    /// Dot within the scanline
    pub cycle: usize,
    /// Scanline within the frame
    pub scanline: usize,
    /// Non-maskable interrupt pending
    pub nmi_pending: bool,
    /// Background rendering state
    pub bg: BackgroundPipeline,
    /// Sprites selected for the scanline
    pub sprites: [Option<SpriteSlot>; 8],
    /// Whether the PPU is rendering an odd frame
    pub odd_frame: bool,
    /// Frame buffer
    pub frame: Frame,
}

/// The PPU's state as values: registers as bytes, memories and the frame as sequences.
pub struct PpuView {
    pub ctrl: u8,
    pub mask: u8,
    pub status: u8,
    pub oam_addr: u8,
    pub oam: Seq<u8>,
    pub read_buffer: u8,
    pub v: u16,
    pub t: u16,
    pub x: u8,
    pub w: bool,
    pub vram: Seq<u8>,
    pub palette: Seq<u8>,
    pub cycle: usize,
    pub scanline: usize,
    pub nmi_pending: bool,
    pub bg: BackgroundPipeline,
    pub sprites: Seq<Option<SpriteSlot>>,
    pub odd_frame: bool,
    pub frame: Seq<u8>,
}

impl View for Ppu {
    type V = PpuView;

    open spec fn view(&self) -> PpuView {
        PpuView {
            ctrl: self.ctrl.0,
            mask: self.mask.0,
            status: self.status.0,
            oam_addr: self.oam_addr,
            oam: self.oam@,
            read_buffer: self.read_buffer,
            v: self.v,
            t: self.t,
            x: self.x,
            w: self.w,
            vram: self.vram@,
            palette: self.palette@,
            cycle: self.cycle,
            scanline: self.scanline,
            nmi_pending: self.nmi_pending,
            bg: self.bg,
            sprites: self.sprites@,
            odd_frame: self.odd_frame,
            frame: self.frame.pixels@,
        }
    }
}

/// The byte a PPU bus read of `addr` returns: CHR from the cartridge (0 where
/// it has none), nametable RAM through the cartridge's mirroring, or palette RAM.
#[verifier::opaque]
pub open spec fn memory_value(vram: Seq<u8>, palette: Seq<u8>, cart: Cartridge, addr: u16) -> u8 {
    let a = addr % 0x4000;
    if a < 0x2000 {
        match cart.board.spec_ppu_read(a) {
            Some(v) => v,
            None => 0,
        }
    } else if a < 0x3F00 {
        vram[spec_nametable_index(a, cart.board.spec_mirroring()) as int]
    } else {
        palette[spec_palette_index(a)]
    }
}

pub open spec fn bus_value(p: PpuView, cart: Cartridge, addr: u16) -> u8 {
    memory_value(p.vram, p.palette, cart, addr)
}

/// A PPU bus write of `value` to `addr` outside CHR memory (palette entries keep 6 bits).
pub open spec fn bus_write_view(p: PpuView, cart: Cartridge, addr: u16, value: u8) -> PpuView {
    let a = addr % 0x4000;
    if a < 0x2000 {
        p
    } else if a < 0x3F00 {
        PpuView {
            vram: p.vram.update(spec_nametable_index(a, cart.board.spec_mirroring()) as int, value),
            ..p
        }
    } else {
        PpuView { palette: p.palette.update(spec_palette_index(a), value & 0x3F), ..p }
    }
}

pub open spec fn write_ctrl_view(p: PpuView, value: u8) -> PpuView {
    PpuView {
        ctrl: value,
        t: (p.t & 0xF3FF) | (((value % 4) * 0x0400) as u16),
        nmi_pending: p.nmi_pending || (p.ctrl & 0x80 == 0 && value & 0x80 != 0 && p.status & 0x80
            != 0),
        ..p
    }
}

pub open spec fn write_oam_data_view(p: PpuView, value: u8) -> PpuView {
    PpuView {
        oam: p.oam.update(p.oam_addr as int, value),
        oam_addr: ((p.oam_addr + 1) % 256) as u8,
        ..p
    }
}

pub open spec fn write_scroll_view(p: PpuView, value: u8) -> PpuView {
    if !p.w {
        PpuView { t: (p.t & 0xFFE0) | ((value as u16) >> 3), x: value & 0x07, w: true, ..p }
    } else {
        PpuView {
            t: (p.t & 0x8C1F) | (((value as u16) & 0x07) << 12) | (((value as u16) & 0xF8) << 2),
            w: false,
            ..p
        }
    }
}

pub open spec fn write_addr_view(p: PpuView, value: u8) -> PpuView {
    if !p.w {
        PpuView { t: (p.t & 0x00FF) | (((value as u16) & 0x3F) << 8), w: true, ..p }
    } else {
        let t = (p.t & 0x7F00) | value as u16;
        PpuView { t: t, v: t, w: false, ..p }
    }
}

proof fn lemma_ppu_register_bits(t0: u16, hi: u8, lo: u8, xs: u8, ys: u8)
    by (bit_vector)
    ensures
        ((t0 & 0x00FF) | (((hi as u16) & 0x3F) << 8)) & 0x7F00 | lo as u16 == (hi % 64) * 256 + lo,
        ((t0 & 0xFFE0) | ((xs as u16) >> 3)) & 0x8C1F | (((ys as u16) & 0x07) << 12) | (((ys as u16)
            & 0xF8) << 2) == (t0 & 0x8C00) + xs / 8 + (ys / 8) * 32 + (ys % 8) * 0x1000,
        xs & 0x07 == xs % 8,
{
}

/// The two-write registers, starting with the write toggle clear: two
/// writes to PPUADDR (`$2006`), high byte then low byte, set the VRAM address
/// to `(high mod 64) * 256 + low`; two writes to PPUSCROLL (`$2005`), X then
/// Y, set fine X to the low three bits of X, and coarse X (X / 8), coarse Y
/// (Y / 8) and fine Y (Y mod 8) in the temporary address, keeping its
/// nametable bits, without touching the VRAM address. Both leave the toggle
/// clear.
pub proof fn lemma_two_write_registers(p: PpuView, cart: Cartridge, hi: u8, lo: u8, xs: u8, ys: u8)
    requires
        !p.w,
    ensures
        ({
            let a = cpu_write_view(cpu_write_view(p, cart, 0x2006, hi), cart, 0x2006, lo);
            &&& a.v == (hi % 64) * 256 + lo && a.t == a.v && !a.w
        }),
        ({
            let s = cpu_write_view(cpu_write_view(p, cart, 0x2005, xs), cart, 0x2005, ys);
            &&& s.x == xs % 8
            &&& s.t == (p.t & 0x8C00) + xs / 8 + (ys / 8) * 32 + (ys % 8) * 0x1000
            &&& s.v == p.v && !s.w
        }),
{
    lemma_ppu_register_bits(p.t, hi, lo, xs, ys);
}

/// `v` advanced by the PPUCTRL increment, kept to 15 bits.
pub open spec fn incremented_v(p: PpuView) -> u16 {
    ((p.v + vram_increment(p.ctrl)) % 0x8000) as u16
}

impl Ppu {
    pub open spec fn wf(self) -> bool {
        &&& self.frame.wf()
        &&& self.x < 8
        &&& self.cycle <= 340
        &&& self.scanline <= 261
    }

    pub fn new() -> (ppu: Self)
        ensures
            ppu.wf(),
            ppu@.ctrl == 0 && ppu@.mask == 0 && ppu@.status == 0 && ppu@.oam_addr == 0,
            forall|i: int| 0 <= i < 0x100 ==> ppu@.oam[i] == 0xFF,
            forall|i: int| 0 <= i < 0x1000 ==> ppu@.vram[i] == 0,
            forall|i: int| 0 <= i < 0x20 ==> ppu@.palette[i] == 0,
            forall|i: int| 0 <= i < 8 ==> ppu@.sprites[i] is None,
            ppu@.read_buffer == 0 && ppu@.v == 0 && ppu@.t == 0 && ppu@.x == 0 && !ppu@.w,
            ppu@.cycle == 0 && ppu@.scanline == 0 && !ppu@.nmi_pending && !ppu@.odd_frame,
            ppu@.bg == (BackgroundPipeline {
                next_tile_id: 0,
                next_palette_id: 0,
                next_pattern_lo: 0,
                next_pattern_hi: 0,
                pattern_shift_lo: 0,
                pattern_shift_hi: 0,
                attr_shift_lo: 0,
                attr_shift_hi: 0,
            }),
            ppu@.frame == crate::bytes::zeros(256 * 240 * 3),
    {
        Ppu {
            ctrl: Control(0),
            mask: Mask(0),
            status: Status(0),
            oam_addr: 0,
            oam: [0xFFu8; 0x100],
            read_buffer: 0,
            v: 0,
            t: 0,
            x: 0,
            w: false,
            vram: [0u8; 0x1000],
            palette: [0u8; 0x20],
            cycle: 0,
            scanline: 0,
            nmi_pending: false,
            bg: BackgroundPipeline {
                next_tile_id: 0,
                next_palette_id: 0,
                next_pattern_lo: 0,
                next_pattern_hi: 0,
                pattern_shift_lo: 0,
                pattern_shift_hi: 0,
                attr_shift_lo: 0,
                attr_shift_hi: 0,
            },
            sprites: [None; 8],
            odd_frame: false,
            frame: Frame::new(),
        }
    }

    pub fn frame(&self) -> (f: &Frame)
        ensures
            f == &self.frame,
    {
        &self.frame
    }

    /// Index into nametable RAM of `addr` under `mirroring`.
    pub fn nametable_index(&self, addr: u16, mirroring: Mirroring) -> (index: usize)
        requires
            addr >= 0x2000,
        ensures
            index == spec_nametable_index(addr, mirroring),
            index < 0x1000,
    {
        nametable_index(addr, mirroring)
    }

    pub fn ppu_bus_read(&mut self, addr: u16, cartridge: &mut Cartridge) -> (value: u8)
        requires
            old(cartridge).wf(),
        ensures
            value == bus_value(old(self)@, *old(cartridge), addr),
            final(self)@ == old(self)@,
            *final(cartridge) == *old(cartridge),
    {
        reveal(memory_value);
        let addr = addr % 0x4000;
        if addr < 0x2000 {
            match cartridge.ppu_read(addr) {
                Some(v) => v,
                None => 0,
            }
        } else if addr < 0x3F00 {
            let index = self.nametable_index(addr, cartridge.mirroring());
            self.vram[index]
        } else {
            let index = palette_index(addr);
            self.palette[index]
        }
    }

    pub fn ppu_bus_write(&mut self, addr: u16, value: u8, cartridge: &mut Cartridge)
        requires
            old(cartridge).wf(),
        ensures
            final(cartridge).wf(),
            final(self)@ == bus_write_view(old(self)@, *old(cartridge), addr, value),
            addr % 0x4000 < 0x2000 ==> final(cartridge).has_battery == old(cartridge).has_battery && final(cartridge).id == old(cartridge).id
                && crate::mapper::Board::ppu_write_post(
                old(cartridge).board,
                final(cartridge).board,
                (addr % 0x4000) as u16,
                value,
            ),
            addr % 0x4000 >= 0x2000 ==> *final(cartridge) == *old(cartridge),
    {
        let addr = addr % 0x4000;
        if addr < 0x2000 {
            cartridge.ppu_write(addr, value);
        } else if addr < 0x3F00 {
            let index = self.nametable_index(addr, cartridge.mirroring());
            self.vram[index] = value;
        } else {
            let index = palette_index(addr);
            self.palette[index] = value & 0x3F;
        }
    }

    pub fn read_status(&mut self) -> (value: u8)
        ensures
            value == old(self)@.status,
            final(self)@ == (PpuView { status: old(self)@.status & 0x7F, w: false, ..old(self)@ }),
    {
        let value = self.status;
        self.status.clear_vblank();
        self.w = false;
        value.0
    }

    pub fn write_ctrl(&mut self, value: u8)
        ensures
            final(self)@ == write_ctrl_view(old(self)@, value),
    {
        let old_ctrl = self.ctrl;
        self.ctrl = Control(value);
        self.t = (self.t & 0xF3FF) | self.ctrl.nametable_scroll_bits();
        if !old_ctrl.nmi_enabled() && self.ctrl.nmi_enabled() && self.status.bits() & 0x80 != 0 {
            self.nmi_pending = true;
        }
    }

    pub fn read_oam_data(&mut self) -> (value: u8)
        ensures
            value == old(self)@.oam[old(self)@.oam_addr as int],
            final(self)@ == old(self)@,
    {
        self.oam[self.oam_addr as usize]
    }

    pub fn write_oam_data(&mut self, value: u8)
        ensures
            final(self)@ == write_oam_data_view(old(self)@, value),
    {
        self.oam[self.oam_addr as usize] = value;
        self.oam_addr = if self.oam_addr == 255 {
            0
        } else {
            self.oam_addr + 1
        };
    }

    pub fn write_scroll(&mut self, value: u8)
        requires
            old(self).wf(),
        ensures
            final(self).wf(),
            final(self)@ == write_scroll_view(old(self)@, value),
    {
        if !self.w {
            self.t = (self.t & 0xFFE0) | ((value as u16) >> 3);
            self.x = value & 0x07;
            proof {
                crate::bytes::lemma_u8_low_mask(value, 0x07);
            }
            self.w = true;
        } else {
            self.t = (self.t & 0x8C1F) | (((value as u16) & 0x07) << 12) | (((value as u16) & 0xF8)
                << 2);
            self.w = false;
        }
    }

    pub fn write_addr(&mut self, value: u8)
        ensures
            final(self)@ == write_addr_view(old(self)@, value),
    {
        if !self.w {
            self.t = (self.t & 0x00FF) | (((value as u16) & 0x3F) << 8);
            self.w = true;
        } else {
            self.t = (self.t & 0x7F00) | value as u16;
            self.v = self.t;
            self.w = false;
        }
    }

    pub fn increment_v(&mut self)
        ensures
            final(self)@ == (PpuView { v: incremented_v(old(self)@), ..old(self)@ }),
    {
        let increment = self.ctrl.vram_increment();
        self.v = ((self.v as u32 + increment as u32) % 0x8000) as u16;
    }

    pub fn read_data(&mut self, cartridge: &mut Cartridge) -> (value: u8)
        requires
            old(cartridge).wf(),
        ensures
            *final(cartridge) == *old(cartridge),
            ({
                let p = old(self)@;
                let addr = p.v % 0x4000;
                let fetched = bus_value(p, *old(cartridge), addr as u16);
                &&& value == if addr >= 0x3F00 { fetched } else { p.read_buffer }
                &&& final(self)@ == (PpuView {
                    read_buffer: if addr >= 0x3F00 { p.read_buffer } else { fetched },
                    v: incremented_v(p),
                    ..p
                })
            }),
    {
        let addr = self.v % 0x4000;
        let value = self.ppu_bus_read(addr, cartridge);

        let result = if addr >= 0x3F00 {
            value
        } else {
            let buffered = self.read_buffer;
            self.read_buffer = value;
            buffered
        };

        self.increment_v();

        result
    }

    #[verifier::rlimit(40)]
    pub fn write_data(&mut self, value: u8, cartridge: &mut Cartridge)
        requires
            old(cartridge).wf(),
        ensures
            final(cartridge).wf(),
            ({
                let p = old(self)@;
                let addr = (p.v % 0x4000) as u16;
                &&& final(self)@ == (PpuView {
                    v: incremented_v(p),
                    ..bus_write_view(p, *old(cartridge), addr, value)
                })
                &&& addr < 0x2000 ==> final(cartridge).has_battery == old(cartridge).has_battery && final(cartridge).id == old(cartridge).id
                    && crate::mapper::Board::ppu_write_post(
                    old(cartridge).board,
                    final(cartridge).board,
                    addr,
                    value,
                )
                &&& addr >= 0x2000 ==> *final(cartridge) == *old(cartridge)
            }),
    {
        let addr = self.v % 0x4000;
        self.ppu_bus_write(addr, value, cartridge);
        self.increment_v();
    }

    /// OAM DMA stores a byte like a `$2004` write.
    pub fn write_oam_dma_byte(&mut self, value: u8)
        ensures
            final(self)@ == write_oam_data_view(old(self)@, value),
    {
        self.write_oam_data(value);
    }

    /// Report and clear a pending NMI.
    pub fn take_nmi(&mut self) -> (pending: bool)
        ensures
            pending == old(self)@.nmi_pending,
            final(self)@ == (PpuView { nmi_pending: false, ..old(self)@ }),
    {
        let pending = self.nmi_pending;
        self.nmi_pending = false;
        pending
    }
}

/// The view determines the PPU.
pub proof fn lemma_view_determines(p: Ppu, q: Ppu)
    requires
        p@ == q@,
    ensures
        p == q,
{
    assert(p.frame.pixels =~= q.frame.pixels);
    assert(p.oam =~= q.oam);
    assert(p.vram =~= q.vram);
    assert(p.palette =~= q.palette);
    assert(p.sprites =~= q.sprites);
    assert(p.ctrl == q.ctrl);
    assert(p.mask == q.mask);
    assert(p.status == q.status);
}

/// The dot a PPU is on, counted from the first dot of the frame.
pub open spec fn dot_position(p: PpuView) -> int {
    p.scanline * 341 + p.cycle
}

/// A dot that ends no frame moves the PPU on by exactly one dot; one that
/// ends a frame leaves it at the first dot of the next.
pub proof fn lemma_tick_moves_one_dot(p: PpuView, cart: Cartridge)
    requires
        p.cycle <= 340,
        p.scanline <= 261,
    ensures
        ({
            let (q, done) = tick_view(p, cart);
            &&& q.cycle <= 340
            &&& q.scanline <= 261
            &&& done ==> q.cycle == 0 && q.scanline == 0
            &&& !done ==> dot_position(q) == dot_position(p) + 1
        }),
{
    reveal(fetch_phase);
    reveal(background_fetch);
    reveal(line_end);
    reveal(render_view);
}

/// A read of CPU address `addr` (the registers repeat every 8 bytes): the PPU after it and the value.
pub open spec fn cpu_read_view(p: PpuView, cart: Cartridge, addr: u16) -> (PpuView, u8) {
    match addr % 8 {
        2 => (PpuView { status: p.status & 0x7F, w: false, ..p }, p.status),
        4 => (p, p.oam[p.oam_addr as int]),
        7 => {
            let a = p.v % 0x4000;
            let fetched = bus_value(p, cart, a as u16);
            (
                PpuView {
                    read_buffer: if a >= 0x3F00 { p.read_buffer } else { fetched },
                    v: incremented_v(p),
                    ..p
                },
                if a >= 0x3F00 { fetched } else { p.read_buffer },
            )
        },
        _ => (p, 0),
    }
}

/// A write of `value` to CPU address `addr`.
pub open spec fn cpu_write_view(p: PpuView, cart: Cartridge, addr: u16, value: u8) -> PpuView {
    match addr % 8 {
        0 => write_ctrl_view(p, value),
        1 => PpuView { mask: value, ..p },
        3 => PpuView { oam_addr: value, ..p },
        4 => write_oam_data_view(p, value),
        5 => write_scroll_view(p, value),
        6 => write_addr_view(p, value),
        7 => PpuView {
            v: incremented_v(p),
            ..bus_write_view(p, cart, (p.v % 0x4000) as u16, value)
        },
        _ => p,
    }
}

pub open spec fn coarse_x_incremented(v: u16) -> u16 {
    if v & 0x001F == 31 {
        (v & 0xFFE0) ^ 0x0400
    } else {
        (v + 1) as u16
    }
}

pub open spec fn y_incremented(v: u16) -> u16 {
    if v & 0x7000 != 0x7000 {
        (v + 0x1000) as u16
    } else {
        let v1 = v & 0x8FFF;
        let y = (v1 & 0x03E0) >> 5;
        let (y2, v2) = if y == 29 {
            (0u16, v1 ^ 0x0800)
        } else if y == 31 {
            (0u16, v1)
        } else {
            ((y + 1) as u16, v1)
        };
        (v2 & 0xFC1F) | (y2 << 5)
    }
}

/// `v` with its horizontal scroll bits (coarse X, horizontal nametable) taken from `t`.
pub open spec fn horizontal_copied(v: u16, t: u16) -> u16 {
    (v & 0xFBE0) | (t & 0x041F)
}

/// `v` with its vertical scroll bits (fine Y, coarse Y, vertical nametable) taken from `t`.
pub open spec fn vertical_copied(v: u16, t: u16) -> u16 {
    (v & 0x841F) | (t & 0x7BE0)
}

pub open spec fn loaded_shifters(bg: BackgroundPipeline) -> BackgroundPipeline {
    BackgroundPipeline {
        pattern_shift_lo: (bg.pattern_shift_lo & 0xFF00) | bg.next_pattern_lo as u16,
        pattern_shift_hi: (bg.pattern_shift_hi & 0xFF00) | bg.next_pattern_hi as u16,
        attr_shift_lo: (bg.attr_shift_lo & 0xFF00) | if bg.next_palette_id & 0x01 != 0 {
            0x00FFu16
        } else {
            0x0000u16
        },
        attr_shift_hi: (bg.attr_shift_hi & 0xFF00) | if (bg.next_palette_id >> 1) & 0x01 != 0 {
            0x00FFu16
        } else {
            0x0000u16
        },
        ..bg
    }
}

pub open spec fn shifted(bg: BackgroundPipeline) -> BackgroundPipeline {
    BackgroundPipeline {
        pattern_shift_lo: bg.pattern_shift_lo << 1,
        pattern_shift_hi: bg.pattern_shift_hi << 1,
        attr_shift_lo: bg.attr_shift_lo << 1,
        attr_shift_hi: bg.attr_shift_hi << 1,
        ..bg
    }
}

pub open spec fn bit_at(shift_register: u16, fine_x: u8) -> u8 {
    if shift_register & (0x8000u16 >> fine_x) != 0 {
        1
    } else {
        0
    }
}

/// The background pixel at the head of the shift registers, offset by fine X.
pub open spec fn background_pixel_of(bg: BackgroundPipeline, fine_x: u8) -> BgPixel {
    BgPixel {
        palette_id: (bit_at(bg.attr_shift_hi, fine_x) * 2 + bit_at(bg.attr_shift_lo, fine_x)) as u8,
        color_low_bits: (bit_at(bg.pattern_shift_hi, fine_x) * 2 + bit_at(
            bg.pattern_shift_lo,
            fine_x,
        )) as u8,
    }
}

proof fn lemma_bit_at_shift(r: u16, fx: u8)
    by (bit_vector)
    requires
        fx < 7,
    ensures
        bit_at(r, (fx + 1) as u8) == bit_at(r << 1, fx),
        bit_at(r, 0) == r / 0x8000,
{
}

/// Fine X scroll selects the column of the background shifters: the pixel
/// at fine scroll `fx + 1` is the one they show at `fx` after one more
/// shift, and at fine scroll 0 each of its bits is the top bit of the
/// matching shifter (pattern bits give the colour, attribute bits the
/// palette, high plane as bit 1).
pub proof fn lemma_fine_x_selects_column(bg: BackgroundPipeline, fx: u8)
    requires
        fx < 7,
    ensures
        background_pixel_of(bg, (fx + 1) as u8) == background_pixel_of(shifted(bg), fx),
        background_pixel_of(bg, 0).color_low_bits == 2 * (bg.pattern_shift_hi / 0x8000) + bg.pattern_shift_lo
            / 0x8000,
        background_pixel_of(bg, 0).palette_id == 2 * (bg.attr_shift_hi / 0x8000) + bg.attr_shift_lo / 0x8000,
{
    lemma_bit_at_shift(bg.pattern_shift_lo, fx);
    lemma_bit_at_shift(bg.pattern_shift_hi, fx);
    lemma_bit_at_shift(bg.attr_shift_lo, fx);
    lemma_bit_at_shift(bg.attr_shift_hi, fx);
}

/// The pixel that a sprite slot draws at screen column `x`, if it is opaque there.
pub open spec fn slot_pixel(slot: SpriteSlot, x: int) -> Option<SpritePixel> {
    if x < slot.x || x >= slot.x + 8 {
        None
    } else {
        let col = x - slot.x;
        let bit = (if slot.attr & 0x40 != 0 { col } else { 7 - col }) as u8;
        let lo = (slot.pattern_lo >> bit) & 1;
        let hi = (slot.pattern_hi >> bit) & 1;
        let color = hi * 2 + lo;
        if color == 0 {
            None
        } else {
            Some(
                SpritePixel {
                    palette_id: slot.attr & 0x03,
                    color_low_bits: color as u8,
                    behind_background: slot.attr & 0x20 != 0,
                    sprite_zero: slot.oam_index == 0,
                },
            )
        }
    }
}

/// The weight of the pattern bit that column `c` (0 at the sprite's left
/// edge) of an unflipped sprite shows: bit 7 at the left, bit 0 at the right.
pub open spec fn column_weight(c: int) -> int {
    if c == 0 {
        128
    } else if c == 1 {
        64
    } else if c == 2 {
        32
    } else if c == 3 {
        16
    } else if c == 4 {
        8
    } else if c == 5 {
        4
    } else if c == 6 {
        2
    } else {
        1
    }
}

proof fn lemma_pattern_bit(p: u8, k: u8)
    requires
        k < 8,
    ensures
        ((p >> k) & 1) as int == (p as int / column_weight(7 - k)) % 2,
{
    vstd::bits::lemma_u8_shr_is_div(p, k);
    let q = p >> k;
    vstd::bits::lemma_u8_low_bits_mask_is_mod(q, 1);
    vstd::arithmetic::power2::lemma2_to64();
    assert(vstd::bits::low_bits_mask(1) == 1);
    assert(pow2(k as nat) == column_weight(7 - k));
}

/// A sprite's eight columns: an unflipped sprite shows at column `c` (0 at
/// its left edge) the colour made of bit `7 - c` of its low pattern plane and
/// the same bit of its high plane (as colour bit 1); a sprite with the
/// horizontal flip bit (`0x40`) shows them mirrored, bit `c` at column `c`.
/// Colour 0 is transparent; an opaque pixel carries the sprite's palette
/// (attribute bits 0-1) and its priority bit (`0x20`, behind the background).
pub proof fn lemma_sprite_columns(slot: SpriteSlot, c: int)
    requires
        0 <= c < 8,
    ensures
        ({
            let w = if slot.attr & 0x40 != 0 {
                column_weight(7 - c)
            } else {
                column_weight(c)
            };
            let color = 2 * ((slot.pattern_hi as int / w) % 2) + (slot.pattern_lo as int / w) % 2;
            &&& (slot_pixel(slot, slot.x + c) is None <==> color == 0)
            &&& slot_pixel(slot, slot.x + c) matches Some(px) ==> px.color_low_bits == color
                && px.palette_id == slot.attr & 0x03 && px.behind_background == (slot.attr & 0x20 != 0)
        }),
{
    let bit = (if slot.attr & 0x40 != 0 { c } else { 7 - c }) as u8;
    lemma_pattern_bit(slot.pattern_lo, bit);
    lemma_pattern_bit(slot.pattern_hi, bit);
}

/// The first opaque sprite pixel at `x` among the slots from `i` on.
pub open spec fn first_sprite_pixel(sprites: Seq<Option<SpriteSlot>>, x: int, i: int) -> Option<
    SpritePixel,
>
    decreases sprites.len() - i,
{
    if i < 0 || i >= sprites.len() {
        None
    } else {
        match sprites[i] {
            Some(slot) => match slot_pixel(slot, x) {
                Some(px) => Some(px),
                None => first_sprite_pixel(sprites, x, i + 1),
            },
            None => first_sprite_pixel(sprites, x, i + 1),
        }
    }
}

pub open spec fn sprite_pixel_view(p: PpuView, x: int) -> Option<SpritePixel> {
    if p.mask & 0x10 == 0 || (x < 8 && p.mask & 0x04 == 0) {
        None
    } else {
        first_sprite_pixel(p.sprites, x, 0)
    }
}

/// Draw the pixel at `(x, y)`: compose background and sprite, record a sprite
/// zero hit, and store the palette colour in the frame.
#[verifier::opaque]
pub open spec fn render_view(p: PpuView, cart: Cartridge, x: int, y: int) -> PpuView {
    let bg = if p.mask & 0x08 == 0 || (x < 8 && p.mask & 0x02 == 0) {
        BgPixel { palette_id: 0, color_low_bits: 0 }
    } else {
        background_pixel_of(p.bg, p.x)
    };
    let sprite = sprite_pixel_view(p, x);
    let hit = x != 255 && (sprite matches Some(s) && s.sprite_zero && s.color_low_bits != 0
        && bg.color_low_bits != 0);
    let p1 = if hit {
        PpuView { status: p.status | 0x40, ..p }
    } else {
        p
    };
    let color = bus_value(p1, cart, spec_final_palette_addr(bg, sprite)) & 0x3F;
    let rgb = SYSTEM_PALETTE[color as int];
    let o = pixel_offset(x, y);
    PpuView { frame: p1.frame.update(o, rgb[0]).update(o + 1, rgb[1]).update(o + 2, rgb[2]), ..p1 }
}

/// The pattern address of row `row` of a sprite with `tile_id` and `attr`
/// (8x16 sprites pick their table from bit 0 of the tile number).
pub open spec fn sprite_row_addr(ctrl: u8, tile_id: u8, attr: u8, row: int) -> u16 {
    let flip_v = attr & 0x80 != 0;
    if ctrl & 0x20 == 0 {
        let source_row = if flip_v { 7 - row } else { row };
        ((if ctrl & 0x08 != 0 { 0x1000int } else { 0int }) + tile_id * 16 + source_row) as u16
    } else {
        let source_row = if flip_v { 15 - row } else { row };
        let base = if tile_id & 0x01 == 0 { 0int } else { 0x1000int };
        let top_tile = tile_id & 0xFE;
        let offset = if source_row < 8 { 0int } else { 1int };
        (base + (top_tile + offset) * 16 + source_row % 8) as u16
    }
}

/// Sprite evaluation from OAM entry `i` on, with `slot` slots filled: the
/// slots and the status (bit 5 set when a ninth sprite is in range).
#[verifier::opaque]
pub open spec fn evaluate_from(
    p: PpuView,
    cart: Cartridge,
    scanline: int,
    i: int,
    slot: int,
    sprites: Seq<Option<SpriteSlot>>,
    status: u8,
) -> (Seq<Option<SpriteSlot>>, u8)
    decreases 64 - i,
{
    if i < 0 || i >= 64 {
        (sprites, status)
    } else {
        let row = scanline - (p.oam[4 * i] + 1);
        let height = if p.ctrl & 0x20 != 0 { 16int } else { 8int };
        if row < 0 || row >= height {
            evaluate_from(p, cart, scanline, i + 1, slot, sprites, status)
        } else if slot >= 8 {
            (sprites, status | 0x20)
        } else {
            let tile_id = p.oam[4 * i + 1];
            let attr = p.oam[4 * i + 2];
            let addr = sprite_row_addr(p.ctrl, tile_id, attr, row);
            let entry = SpriteSlot {
                x: p.oam[4 * i + 3],
                attr: attr,
                pattern_lo: bus_value(p, cart, addr),
                pattern_hi: bus_value(p, cart, (addr + 8) as u16),
                oam_index: i as u8,
            };
            evaluate_from(p, cart, scanline, i + 1, slot + 1, sprites.update(slot, Some(entry)), status)
        }
    }
}

pub open spec fn no_sprites() -> Seq<Option<SpriteSlot>> {
    Seq::new(8, |i: int| None)
}

/// The background fetch address of the pattern byte (plane offset 0 or 8).
pub open spec fn bg_pattern_addr(p: PpuView, plane_offset: int) -> u16 {
    ((if p.ctrl & 0x10 != 0 { 0x1000int } else { 0int }) + p.bg.next_tile_id * 16 + (p.v / 4096)
        % 8 + plane_offset) as u16
}

pub open spec fn shift_dot(cycle: usize) -> bool {
    (2 <= cycle <= 257) || (322 <= cycle <= 337)
}

pub open spec fn fetch_dot(cycle: usize) -> bool {
    (1 <= cycle <= 256) || (321 <= cycle <= 336)
}

/// The background fetch of a dot: one step of the 8-dot tile fetch cycle.
#[verifier::opaque]
pub open spec fn background_fetch(a: PpuView, cart: Cartridge) -> PpuView {
    if fetch_dot(a.cycle) {
        if (a.cycle - 1) % 8 == 0 {
            let l = PpuView { bg: loaded_shifters(a.bg), ..a };
            PpuView {
                bg: BackgroundPipeline {
                    next_tile_id: bus_value(l, cart, spec_nametable_addr(l.v)),
                    ..l.bg
                },
                ..l
            }
        } else if (a.cycle - 1) % 8 == 2 {
            let attr = bus_value(a, cart, spec_attribute_addr(a.v));
            PpuView {
                bg: BackgroundPipeline {
                    next_palette_id: (attr >> attribute_shift(a.v)) & 0x03,
                    ..a.bg
                },
                ..a
            }
        } else if (a.cycle - 1) % 8 == 4 {
            PpuView {
                bg: BackgroundPipeline {
                    next_pattern_lo: bus_value(a, cart, bg_pattern_addr(a, 0)),
                    ..a.bg
                },
                ..a
            }
        } else if (a.cycle - 1) % 8 == 6 {
            PpuView {
                bg: BackgroundPipeline {
                    next_pattern_hi: bus_value(a, cart, bg_pattern_addr(a, 8)),
                    ..a.bg
                },
                ..a
            }
        } else if (a.cycle - 1) % 8 == 7 {
            PpuView { v: coarse_x_incremented(a.v), ..a }
        } else {
            a
        }
    } else {
        a
    }
}

/// The end of the visible part of a line: the Y increment at dot 256, and at
/// dot 257 the horizontal scroll copy and the next line's sprite evaluation.
#[verifier::opaque]
pub open spec fn line_end(c: PpuView, cart: Cartridge) -> PpuView {
    let b = if c.cycle == 256 {
        PpuView { v: y_incremented(c.v), ..c }
    } else {
        c
    };
    if b.cycle == 257 {
        let l = PpuView { bg: loaded_shifters(b.bg), v: horizontal_copied(b.v, b.t), ..b };
        if b.scanline < 239 {
            let (sprites, status) = evaluate_from(
                l,
                cart,
                b.scanline + 1,
                0,
                0,
                no_sprites(),
                l.status,
            );
            PpuView { sprites: sprites, status: status, ..l }
        } else {
            PpuView { sprites: no_sprites(), ..l }
        }
    } else {
        b
    }
}

/// The work of one dot of a rendering scanline: shift, fetch, scroll and sprite evaluation.
#[verifier::opaque]
pub open spec fn fetch_phase(p: PpuView, cart: Cartridge) -> PpuView {
    let a = if shift_dot(p.cycle) {
        PpuView { bg: shifted(p.bg), ..p }
    } else {
        p
    };
    let d = line_end(background_fetch(a, cart), cart);
    if d.scanline == 261 && 280 <= d.cycle <= 304 {
        PpuView { v: vertical_copied(d.v, d.t), ..d }
    } else {
        d
    }
}

/// The flags and the dot counter at the end of a dot: vblank and NMI at
/// 241:1, flags cleared at 261:1, then the next dot (frames end after 262
/// lines, one dot early on odd frames while rendering).
pub open spec fn dot_end(p2: PpuView) -> (PpuView, bool) {
    let p3 = if p2.scanline == 241 && p2.cycle == 1 {
        PpuView { status: p2.status | 0x80, nmi_pending: p2.nmi_pending || p2.ctrl & 0x80 != 0, ..p2 }
    } else {
        p2
    };
    let p4 = if p3.scanline == 261 && p3.cycle == 1 {
        PpuView { status: p3.status & 0x1F, ..p3 }
    } else {
        p3
    };
    if p4.scanline == 261 && p4.cycle == 339 && p4.odd_frame && rendering_enabled(p4.mask) {
        (PpuView { cycle: 0, scanline: 0, odd_frame: false, ..p4 }, true)
    } else if p4.cycle + 1 == 341 {
        if p4.scanline + 1 == 262 {
            (PpuView { cycle: 0, scanline: 0, odd_frame: !p4.odd_frame, ..p4 }, true)
        } else {
            (PpuView { cycle: 0, scanline: (p4.scanline + 1) as usize, ..p4 }, false)
        }
    } else {
        (PpuView { cycle: (p4.cycle + 1) as usize, ..p4 }, false)
    }
}

/// One PPU dot: the PPU after it, and whether a frame ended with it.
pub open spec fn tick_view(p: PpuView, cart: Cartridge) -> (PpuView, bool) {
    let p1 = if rendering_enabled(p.mask) && (p.scanline < 240 || p.scanline == 261) {
        fetch_phase(p, cart)
    } else {
        p
    };
    let p2 = if p1.scanline < 240 && 1 <= p1.cycle <= 256 {
        render_view(p1, cart, p1.cycle - 1, p1.scanline as int)
    } else {
        p1
    };
    dot_end(p2)
}

fn slot_pixel_exec(slot: SpriteSlot, x: usize) -> (r: Option<SpritePixel>)
    ensures
        r == slot_pixel(slot, x as int),
        r matches Some(px) ==> px.palette_id < 4 && px.color_low_bits < 4,
{
    let sprite_x = slot.x as usize;
    if x < sprite_x || x >= sprite_x + 8 {
        return None;
    }
    let col = (x - sprite_x) as u8;
    let bit = if slot.attr & 0x40 != 0 {
        col
    } else {
        7 - col
    };
    let (plo, phi) = (slot.pattern_lo, slot.pattern_hi);
    let lo = (plo >> bit) & 1;
    let hi = (phi >> bit) & 1;
    assert((plo >> bit) & 1 <= 1 && (phi >> bit) & 1 <= 1) by (bit_vector);
    let color = hi * 2 + lo;
    if color == 0 {
        return None;
    }
    let attr = slot.attr;
    assert(attr & 0x03 < 4) by (bit_vector);
    Some(
        SpritePixel {
            palette_id: slot.attr & 0x03,
            color_low_bits: color,
            behind_background: slot.attr & 0x20 != 0,
            sprite_zero: slot.oam_index == 0,
        },
    )
}

proof fn lemma_first_sprite_pixel_small(sprites: Seq<Option<SpriteSlot>>, x: int, i: int)
    ensures
        first_sprite_pixel(sprites, x, i) matches Some(px) ==> px.palette_id < 4 && px.color_low_bits
            < 4,
    decreases sprites.len() - i,
{
    if 0 <= i < sprites.len() {
        lemma_first_sprite_pixel_small(sprites, x, i + 1);
        if let Some(slot) = sprites[i] {
            if let Some(px) = slot_pixel(slot, x) {
                let attr = slot.attr;
                assert(attr & 0x03 < 4) by (bit_vector);
                let col = x - slot.x;
                let bit = (if slot.attr & 0x40 != 0 { col } else { 7 - col }) as u8;
                let (plo, phi) = (slot.pattern_lo, slot.pattern_hi);
                assert((plo >> bit) & 1 <= 1 && (phi >> bit) & 1 <= 1) by (bit_vector);
            }
        }
    }
}

impl Ppu {
    pub fn cpu_read(&mut self, addr: u16, cartridge: &mut Cartridge) -> (value: u8)
        requires
            old(cartridge).wf(),
        ensures
            *final(cartridge) == *old(cartridge),
            (final(self)@, value) == cpu_read_view(old(self)@, *old(cartridge), addr),
    {
        match addr % 8 {
            2 => self.read_status(),
            4 => self.read_oam_data(),
            7 => self.read_data(cartridge),
            _ => 0,
        }
    }

    pub fn cpu_write(&mut self, addr: u16, value: u8, cartridge: &mut Cartridge)
        requires
            old(self).wf(),
            old(cartridge).wf(),
        ensures
            final(self).wf(),
            final(cartridge).wf(),
            final(self)@ == cpu_write_view(old(self)@, *old(cartridge), addr, value),
            ({
                let a = (old(self)@.v % 0x4000) as u16;
                if addr % 8 == 7 && a < 0x2000 {
                    final(cartridge).has_battery == old(cartridge).has_battery && final(cartridge).id == old(cartridge).id
                        && crate::mapper::Board::ppu_write_post(
                        old(cartridge).board,
                        final(cartridge).board,
                        a,
                        value,
                    )
                } else {
                    *final(cartridge) == *old(cartridge)
                }
            }),
    {
        match addr % 8 {
            0 => self.write_ctrl(value),
            1 => self.mask = Mask(value),
            3 => self.oam_addr = value,
            4 => self.write_oam_data(value),
            5 => self.write_scroll(value),
            6 => self.write_addr(value),
            7 => self.write_data(value, cartridge),
            _ => {},
        }
    }

    pub fn is_rendering_scanline(&self) -> (b: bool)
        ensures
            b == (self.scanline < 240 || self.scanline == 261),
    {
        self.scanline < 240 || self.scanline == 261
    }

    pub fn is_background_fetch_cycle(&self) -> (b: bool)
        ensures
            b == fetch_dot(self.cycle),
    {
        (1 <= self.cycle && self.cycle <= 256) || (321 <= self.cycle && self.cycle <= 336)
    }

    pub fn should_shift_background_pipeline(&self) -> (b: bool)
        ensures
            b == shift_dot(self.cycle),
    {
        (2 <= self.cycle && self.cycle <= 257) || (322 <= self.cycle && self.cycle <= 337)
    }

    pub fn increment_coarse_x(&mut self)
        ensures
            final(self)@ == (PpuView { v: coarse_x_incremented(old(self)@.v), ..old(self)@ }),
    {
        let v = self.v;
        if v & 0x001F == 31 {
            self.v = (v & 0xFFE0) ^ 0x0400;
        } else {
            assert(v & 0x001F != 31 ==> v < 0xFFFF) by (bit_vector);
            self.v = v + 1;
        }
    }

    pub fn increment_y(&mut self)
        ensures
            final(self)@ == (PpuView { v: y_incremented(old(self)@.v), ..old(self)@ }),
    {
        let v = self.v;
        if v & 0x7000 != 0x7000 {
            assert(v & 0x7000 != 0x7000 ==> v <= 0xEFFF) by (bit_vector);
            self.v = v + 0x1000;
        } else {
            let v1 = v & 0x8FFF;
            let mut y = (v1 & 0x03E0) >> 5;
            assert((v1 & 0x03E0) >> 5 <= 31) by (bit_vector);
            let mut v2 = v1;
            if y == 29 {
                y = 0;
                v2 = v1 ^ 0x0800;
            } else if y == 31 {
                y = 0;
            } else {
                y = y + 1;
            }
            self.v = (v2 & 0xFC1F) | (y << 5);
        }
    }

    pub fn copy_horizontal_scroll_bits(&mut self)
        ensures
            final(self)@ == (PpuView { v: horizontal_copied(old(self)@.v, old(self)@.t), ..old(self)@ }),
    {
        self.v = (self.v & 0xFBE0) | (self.t & 0x041F);
    }

    pub fn copy_vertical_scroll_bits(&mut self)
        ensures
            final(self)@ == (PpuView { v: vertical_copied(old(self)@.v, old(self)@.t), ..old(self)@ }),
    {
        self.v = (self.v & 0x841F) | (self.t & 0x7BE0);
    }

    pub fn load_background_shifters(&mut self)
        ensures
            final(self)@ == (PpuView { bg: loaded_shifters(old(self)@.bg), ..old(self)@ }),
    {
        self.bg.pattern_shift_lo = (self.bg.pattern_shift_lo & 0xFF00)
            | self.bg.next_pattern_lo as u16;
        self.bg.pattern_shift_hi = (self.bg.pattern_shift_hi & 0xFF00)
            | self.bg.next_pattern_hi as u16;

        let attr_lo = self.bg.next_palette_id & 0x01;
        let attr_hi = (self.bg.next_palette_id >> 1) & 0x01;

        self.bg.attr_shift_lo = (self.bg.attr_shift_lo & 0xFF00) | if attr_lo != 0 {
            0x00FF
        } else {
            0x0000
        };
        self.bg.attr_shift_hi = (self.bg.attr_shift_hi & 0xFF00) | if attr_hi != 0 {
            0x00FF
        } else {
            0x0000
        };
    }

    pub fn shift_background_pipeline(&mut self)
        ensures
            final(self)@ == (PpuView { bg: shifted(old(self)@.bg), ..old(self)@ }),
    {
        self.bg.pattern_shift_lo = self.bg.pattern_shift_lo << 1;
        self.bg.pattern_shift_hi = self.bg.pattern_shift_hi << 1;
        self.bg.attr_shift_lo = self.bg.attr_shift_lo << 1;
        self.bg.attr_shift_hi = self.bg.attr_shift_hi << 1;
    }

    pub fn background_pixel(&self) -> (px: BgPixel)
        requires
            self.x < 8,
        ensures
            px == background_pixel_of(self.bg, self.x),
            px.palette_id < 4,
            px.color_low_bits < 4,
    {
        let bit = 0x8000u16 >> self.x;

        let pattern_lo: u8 = if self.bg.pattern_shift_lo & bit != 0 {
            1
        } else {
            0
        };
        let pattern_hi: u8 = if self.bg.pattern_shift_hi & bit != 0 {
            1
        } else {
            0
        };
        let attr_lo: u8 = if self.bg.attr_shift_lo & bit != 0 {
            1
        } else {
            0
        };
        let attr_hi: u8 = if self.bg.attr_shift_hi & bit != 0 {
            1
        } else {
            0
        };

        BgPixel {
            palette_id: attr_hi * 2 + attr_lo,
            color_low_bits: pattern_hi * 2 + pattern_lo,
        }
    }

    pub fn sprite_pixel_for_x(&self, x: usize) -> (r: Option<SpritePixel>)
        ensures
            r == sprite_pixel_view(self@, x as int),
            r matches Some(px) ==> px.palette_id < 4 && px.color_low_bits < 4,
    {
        if !self.mask.show_sprites() || (x < 8 && !self.mask.show_sprites_left()) {
            return None;
        }
        let mut i: usize = 0;
        while i < 8
            invariant
                0 <= i <= 8,
                self@.sprites.len() == 8,
                sprite_pixel_view(self@, x as int) == first_sprite_pixel(self@.sprites, x as int, 0),
                first_sprite_pixel(self@.sprites, x as int, 0) == first_sprite_pixel(
                    self@.sprites,
                    x as int,
                    i as int,
                ),
            decreases 8 - i,
        {
            if let Some(slot) = self.sprites[i] {
                assert(self@.sprites[i as int] == Some(slot));
                if let Some(px) = slot_pixel_exec(slot, x) {
                    assert(first_sprite_pixel(self@.sprites, x as int, i as int) == Some(px));
                    return Some(px);
                }
            }
            i = i + 1;
        }
        None
    }

    pub fn palette_rgb(&mut self, palette_addr: u16, cartridge: &mut Cartridge) -> (rgb: [u8; 3])
        requires
            old(cartridge).wf(),
        ensures
            rgb == SYSTEM_PALETTE[(bus_value(old(self)@, *old(cartridge), palette_addr) & 0x3F) as int],
            final(self)@ == old(self)@,
            *final(cartridge) == *old(cartridge),
    {
        let value = self.ppu_bus_read(palette_addr, cartridge);
        let nes_color = value & 0x3F;
        proof {
            crate::bytes::lemma_u8_low_mask(value, 0x3F);
        }
        SYSTEM_PALETTE[nes_color as usize]
    }

    pub fn render_pixel_from_pipeline(&mut self, x: usize, y: usize, cartridge: &mut Cartridge)
        requires
            old(self).wf(),
            old(cartridge).wf(),
            x < 256,
            y < 240,
        ensures
            final(self).wf(),
            *final(cartridge) == *old(cartridge),
            final(self)@ == render_view(old(self)@, *old(cartridge), x as int, y as int),
    {
        reveal(render_view);
        let bg = if !self.mask.show_background() || (x < 8 && !self.mask.show_background_left()) {
            BgPixel { palette_id: 0, color_low_bits: 0 }
        } else {
            self.background_pixel()
        };

        let sprite = self.sprite_pixel_for_x(x);

        if x != 255 {
            if let Some(s) = sprite {
                if s.sprite_zero && !s.transparent() && !bg.transparent() {
                    self.status.set_sprite_zero_hit();
                }
            }
        }

        let palette_addr = final_palette_addr(bg, sprite);
        let rgb = self.palette_rgb(palette_addr, cartridge);
        self.frame.set_pixel(x, y, rgb);
    }

    pub fn fetch_bg_pattern_byte(&mut self, plane_offset: u16, cartridge: &mut Cartridge) -> (value: u8)
        requires
            old(cartridge).wf(),
            plane_offset <= 8,
        ensures
            value == bus_value(old(self)@, *old(cartridge), bg_pattern_addr(old(self)@, plane_offset as int)),
            final(self)@ == old(self)@,
            *final(cartridge) == *old(cartridge),
    {
        let tile_id = self.bg.next_tile_id as u16;
        let fine_y = (self.v / 4096) % 8;
        let addr = self.ctrl.background_pattern_base() + tile_id * 16 + fine_y + plane_offset;

        self.ppu_bus_read(addr, cartridge)
    }

    pub fn fetch_sprite_pattern_row(
        &mut self,
        tile_id: u8,
        attr: u8,
        row: usize,
        cartridge: &mut Cartridge,
    ) -> (pattern: (u8, u8))
        requires
            old(cartridge).wf(),
            row < (if old(self).ctrl.0 & 0x20 != 0 { 16usize } else { 8usize }),
        ensures
            ({
                let addr = sprite_row_addr(old(self)@.ctrl, tile_id, attr, row as int);
                pattern == (
                    bus_value(old(self)@, *old(cartridge), addr),
                    bus_value(old(self)@, *old(cartridge), (addr + 8) as u16),
                )
            }),
            final(self)@ == old(self)@,
            *final(cartridge) == *old(cartridge),
    {
        let flip_v = attr & 0x80 != 0;

        if !self.ctrl.tall_sprite() {
            let source_row = if flip_v {
                7 - row
            } else {
                row
            };
            let tile_addr = self.ctrl.sprite_pattern_base() + tile_id as u16 * 16 + source_row as u16;
            let pattern_lo = self.ppu_bus_read(tile_addr, cartridge);
            let pattern_hi = self.ppu_bus_read(tile_addr + 8, cartridge);

            return (pattern_lo, pattern_hi);
        }

        let source_row = if flip_v {
            15 - row
        } else {
            row
        };
        let pattern_base: u16 = if tile_id & 0x01 == 0 {
            0x0000
        } else {
            0x1000
        };

        let top_tile = (tile_id & 0xFE) as u16;
        let tile_offset: u16 = if source_row < 8 {
            0
        } else {
            1
        };
        let row_in_tile = source_row % 8;

        let tile_addr = pattern_base + (top_tile + tile_offset) * 16 + row_in_tile as u16;

        let pattern_lo = self.ppu_bus_read(tile_addr, cartridge);
        let pattern_hi = self.ppu_bus_read(tile_addr + 8, cartridge);

        (pattern_lo, pattern_hi)
    }
}

impl Ppu {
    /// Select up to eight sprites in range of `scanline` (in OAM order) and
    /// fetch their pattern rows; a ninth sets the overflow flag.
    pub fn evaluate_sprites_for_scanline(&mut self, scanline: usize, cartridge: &mut Cartridge)
        requires
            old(self).wf(),
            old(cartridge).wf(),
            scanline < 256,
        ensures
            final(self).wf(),
            *final(cartridge) == *old(cartridge),
            ({
                let (sprites, status) = evaluate_from(
                    old(self)@,
                    *old(cartridge),
                    scanline as int,
                    0,
                    0,
                    no_sprites(),
                    old(self)@.status,
                );
                final(self)@ == (PpuView { sprites: sprites, status: status, ..old(self)@ })
            }),
    {
        let ghost p0 = self@;
        reveal(evaluate_from);
        self.sprites = [None; 8];
        assert(self@.sprites =~= no_sprites());

        let sprite_height: i32 = if self.ctrl.0 & 0x20 != 0 {
            16
        } else {
            8
        };
        let mut slot: usize = 0;
        let mut oam_index: usize = 0;
        let mut full = false;

        while oam_index < 64 && !full
            invariant
                0 <= oam_index <= 64,
                slot <= 8,
                scanline < 256,
                *cartridge == *old(cartridge),
                cartridge.wf(),
                self.wf(),
                sprite_height == (if p0.ctrl & 0x20 != 0 { 16int } else { 8int }),
                self@ == (PpuView { sprites: self@.sprites, status: self@.status, ..p0 }),
                self@.sprites.len() == 8,
                ({
                    let done = evaluate_from(
                        p0,
                        *old(cartridge),
                        scanline as int,
                        0,
                        0,
                        no_sprites(),
                        p0.status,
                    );
                    if full {
                        done == (self@.sprites, self@.status)
                    } else {
                        done == evaluate_from(
                            p0,
                            *old(cartridge),
                            scanline as int,
                            oam_index as int,
                            slot as int,
                            self@.sprites,
                            self@.status,
                        )
                    }
                }),
            decreases 64 - oam_index + if full { 0int } else { 1int },
        {
            reveal(evaluate_from);
            let base = oam_index * 4;
            let sprite_y = self.oam[base] as i32 + 1;
            let row = scanline as i32 - sprite_y;

            if row < 0 || row >= sprite_height {
                oam_index = oam_index + 1;
            } else if slot == 8 {
                self.status.0 = self.status.0 | 0x20;
                full = true;
            } else {
                let tile_id = self.oam[base + 1];
                let attr = self.oam[base + 2];
                let x = self.oam[base + 3];
                let (pattern_lo, pattern_hi) = self.fetch_sprite_pattern_row(
                    tile_id,
                    attr,
                    row as usize,
                    cartridge,
                );

                self.sprites[slot] = Some(
                    SpriteSlot {
                        x,
                        attr,
                        pattern_lo,
                        pattern_hi,
                        oam_index: oam_index as u8,
                    },
                );

                slot = slot + 1;
                oam_index = oam_index + 1;
            }
        }
    }

    fn background_fetch_dot(&mut self, cartridge: &mut Cartridge)
        requires
            old(self).wf(),
            old(cartridge).wf(),
        ensures
            final(self).wf(),
            *final(cartridge) == *old(cartridge),
            final(self)@ == background_fetch(old(self)@, *old(cartridge)),
    {
        reveal(background_fetch);
        if self.is_background_fetch_cycle() {
            let phase = (self.cycle - 1) % 8;
            if phase == 0 {
                self.load_background_shifters();
                let addr = nametable_addr(self.v);
                self.bg.next_tile_id = self.ppu_bus_read(addr, cartridge);
            } else if phase == 2 {
                let attr = self.ppu_bus_read(attribute_addr(self.v), cartridge);
                self.bg.next_palette_id = attribute_palette_bits(self.v, attr);
            } else if phase == 4 {
                self.bg.next_pattern_lo = self.fetch_bg_pattern_byte(0, cartridge);
            } else if phase == 6 {
                self.bg.next_pattern_hi = self.fetch_bg_pattern_byte(8, cartridge);
            } else if phase == 7 {
                self.increment_coarse_x();
            }
        }
    }

    fn line_end_dot(&mut self, cartridge: &mut Cartridge)
        requires
            old(self).wf(),
            old(cartridge).wf(),
        ensures
            final(self).wf(),
            *final(cartridge) == *old(cartridge),
            final(self)@ == line_end(old(self)@, *old(cartridge)),
    {
        reveal(line_end);
        if self.cycle == 256 {
            self.increment_y();
        }

        if self.cycle == 257 {
            self.load_background_shifters();
            self.copy_horizontal_scroll_bits();

            if self.scanline < 239 {
                self.evaluate_sprites_for_scanline(self.scanline + 1, cartridge);
            } else {
                self.sprites = [None; 8];
                assert(self@.sprites =~= no_sprites());
            }
        }
    }

    /// The work of a rendering scanline's dot: shift, fetch, scroll and sprite evaluation.
    fn rendering_dot(&mut self, cartridge: &mut Cartridge)
        requires
            old(self).wf(),
            old(cartridge).wf(),
        ensures
            final(self).wf(),
            *final(cartridge) == *old(cartridge),
            final(self)@ == fetch_phase(old(self)@, *old(cartridge)),
    {
        reveal(fetch_phase);
        if self.should_shift_background_pipeline() {
            self.shift_background_pipeline();
        }
        self.background_fetch_dot(cartridge);
        self.line_end_dot(cartridge);
        if self.scanline == 261 && 280 <= self.cycle && self.cycle <= 304 {
            self.copy_vertical_scroll_bits();
        }
    }

    fn end_dot(&mut self) -> (frame_done: bool)
        requires
            old(self).wf(),
        ensures
            final(self).wf(),
            (final(self)@, frame_done) == dot_end(old(self)@),
    {
        if self.scanline == 241 && self.cycle == 1 {
            self.status.set_vblank();

            if self.ctrl.nmi_enabled() {
                self.nmi_pending = true;
            }
        }

        if self.scanline == 261 && self.cycle == 1 {
            self.status.clear_render_flags();
        }

        if self.scanline == 261 && self.cycle == 339 && self.odd_frame
            && self.mask.rendering_enabled() {
            self.cycle = 0;
            self.scanline = 0;
            self.odd_frame = false;
            return true;
        }

        self.cycle = self.cycle + 1;

        if self.cycle == 341 {
            self.cycle = 0;
            self.scanline = self.scanline + 1;

            if self.scanline == 262 {
                self.scanline = 0;
                self.odd_frame = !self.odd_frame;
                return true;
            }
        }

        false
    }

    /// Advance one dot; returns whether a frame ended with it.
    pub fn tick(&mut self, cartridge: &mut Cartridge) -> (frame_done: bool)
        requires
            old(self).wf(),
            old(cartridge).wf(),
        ensures
            final(self).wf(),
            *final(cartridge) == *old(cartridge),
            (final(self)@, frame_done) == tick_view(old(self)@, *old(cartridge)),
    {
        if self.mask.rendering_enabled() && self.is_rendering_scanline() {
            self.rendering_dot(cartridge);
        }

        if self.scanline < 240 && 1 <= self.cycle && self.cycle <= 256 {
            self.render_pixel_from_pipeline(self.cycle - 1, self.scanline, cartridge);
        }

        self.end_dot()
    }
}

/// Coarse X (bits 0-4) of a scroll register value.
pub open spec fn coarse_x(v: u16) -> u16 {
    v & 0x001F
}

/// Coarse Y (bits 5-9).
pub open spec fn coarse_y(v: u16) -> u16 {
    (v >> 5) & 0x001F
}

/// Horizontal nametable select (bit 10).
pub open spec fn nametable_x(v: u16) -> u16 {
    (v >> 10) & 1
}

/// Vertical nametable select (bit 11).
pub open spec fn nametable_y(v: u16) -> u16 {
    (v >> 11) & 1
}

/// Fine Y (bits 12-14).
pub open spec fn fine_y(v: u16) -> u16 {
    (v >> 12) & 0x0007
}

/// Two writes to `$2006` from a clear latch load `v` (and `t`) with the
/// 14-bit address they spell, and leave the latch clear.
pub proof fn lemma_write_addr_pair(p: PpuView, hi: u8, lo: u8)
    requires
        !p.w,
    ensures
        ({
            let q = write_addr_view(write_addr_view(p, hi), lo);
            &&& q.v == ((hi & 0x3F) as u16) * 256 + lo as u16
            &&& q.t == q.v
            &&& !q.w
        }),
{
    let t = p.t;
    assert(((((t & 0x00FF) | (((hi as u16) & 0x3F) << 8)) & 0x7F00) | lo as u16) == ((hi & 0x3F) as u16)
        * 256 + lo as u16) by (bit_vector);
}

/// The palette RAM index repeats every 32 bytes, is below 32, and the sprite
/// backdrop entries share the background ones.
pub proof fn lemma_palette_index(addr: u16)
    requires
        0x3F00 <= addr < 0x3FE0,
    ensures
        spec_palette_index(addr) == spec_palette_index((addr + 32) as u16),
        0 <= spec_palette_index(addr) < 32,
        (addr - 0x3F00) % 32 >= 0x10 && (addr - 0x3F00) % 4 == 0 ==> spec_palette_index(addr)
            == spec_palette_index((addr - 0x10) as u16),
{
}

/// Incrementing coarse X moves one tile right: it wraps from 31 to 0 into the
/// horizontally adjacent nametable and leaves the vertical position alone.
pub proof fn lemma_increment_coarse_x(v: u16)
    ensures
        ({
            let w = coarse_x_incremented(v);
            &&& coarse_x(w) == (coarse_x(v) + 1) % 32
            &&& nametable_x(w) == if coarse_x(v) == 31 {
                1 - nametable_x(v)
            } else {
                nametable_x(v) as int
            }
            &&& coarse_y(w) == coarse_y(v)
            &&& nametable_y(w) == nametable_y(v)
            &&& fine_y(w) == fine_y(v)
        }),
{
    if v & 0x001F == 31 {
        assert(v & 0x001F == 31 ==> ({
            let w = (v & 0xFFE0) ^ 0x0400;
            &&& w & 0x001F == 0
            &&& (w >> 10) & 1 == 1 - ((v >> 10) & 1)
            &&& (w >> 5) & 0x001F == (v >> 5) & 0x001F
            &&& (w >> 11) & 1 == (v >> 11) & 1
            &&& (w >> 12) & 0x0007 == (v >> 12) & 0x0007
        })) by (bit_vector);
    } else {
        assert(v & 0x001F != 31 ==> v & 0x001F < 31) by (bit_vector);
        assert(v & 0x001F != 31 ==> ({
            let w = (v + 1) as u16;
            &&& w & 0x001F == (v & 0x001F) + 1
            &&& (w >> 10) & 1 == (v >> 10) & 1
            &&& (w >> 5) & 0x001F == (v >> 5) & 0x001F
            &&& (w >> 11) & 1 == (v >> 11) & 1
            &&& (w >> 12) & 0x0007 == (v >> 12) & 0x0007
        })) by (bit_vector);
    }
}

/// Incrementing Y moves one pixel down: fine Y counts to 7, then coarse Y
/// advances; row 29 wraps to 0 into the vertically adjacent nametable, and
/// row 31 (attribute memory) wraps to 0 without switching.
pub proof fn lemma_increment_y(v: u16)
    ensures
        ({
            let w = y_incremented(v);
            &&& coarse_x(w) == coarse_x(v)
            &&& nametable_x(w) == nametable_x(v)
            &&& fine_y(v) < 7 ==> fine_y(w) == fine_y(v) + 1 && coarse_y(w) == coarse_y(v)
                && nametable_y(w) == nametable_y(v)
            &&& fine_y(v) == 7 ==> fine_y(w) == 0
            &&& fine_y(v) == 7 && coarse_y(v) == 29 ==> coarse_y(w) == 0 && nametable_y(w) == 1
                - nametable_y(v)
            &&& fine_y(v) == 7 && coarse_y(v) == 31 ==> coarse_y(w) == 0 && nametable_y(w)
                == nametable_y(v)
            &&& fine_y(v) == 7 && coarse_y(v) != 29 && coarse_y(v) != 31 ==> coarse_y(w) == coarse_y(
                v,
            ) + 1 && nametable_y(w) == nametable_y(v)
        }),
{
    if v & 0x7000 != 0x7000 {
        assert(v & 0x7000 != 0x7000 ==> (v >> 12) & 0x0007 < 7) by (bit_vector);
        assert(v & 0x7000 != 0x7000 ==> ({
            let w = (v + 0x1000) as u16;
            &&& w & 0x001F == v & 0x001F
            &&& (w >> 10) & 1 == (v >> 10) & 1
            &&& (w >> 12) & 0x0007 == ((v >> 12) & 0x0007) + 1
            &&& (w >> 5) & 0x001F == (v >> 5) & 0x001F
            &&& (w >> 11) & 1 == (v >> 11) & 1
        })) by (bit_vector);
    } else {
        let v1 = v & 0x8FFF;
        let y = (v1 & 0x03E0) >> 5;
        assert(((v & 0x8FFF) & 0x03E0) >> 5 <= 31) by (bit_vector);
        assert(v & 0x7000 == 0x7000 ==> ((v >> 12) & 0x0007 == 7 && ((v & 0x8FFF) & 0x03E0) >> 5
            == (v >> 5) & 0x001F)) by (bit_vector);
        if y == 29 {
            assert(({
                let w = (((v & 0x8FFF) ^ 0x0800) & 0xFC1F) | (0u16 << 5);
                &&& w & 0x001F == v & 0x001F
                &&& (w >> 10) & 1 == (v >> 10) & 1
                &&& (w >> 12) & 0x0007 == 0
                &&& (w >> 5) & 0x001F == 0
                &&& (w >> 11) & 1 == 1 - ((v >> 11) & 1)
            })) by (bit_vector);
        } else if y == 31 {
            assert(({
                let w = ((v & 0x8FFF) & 0xFC1F) | (0u16 << 5);
                &&& w & 0x001F == v & 0x001F
                &&& (w >> 10) & 1 == (v >> 10) & 1
                &&& (w >> 12) & 0x0007 == 0
                &&& (w >> 5) & 0x001F == 0
                &&& (w >> 11) & 1 == (v >> 11) & 1
            })) by (bit_vector);
        } else {
            assert(y < 31 ==> ({
                let w = ((v & 0x8FFF) & 0xFC1F) | (((y + 1) as u16) << 5);
                &&& w & 0x001F == v & 0x001F
                &&& (w >> 10) & 1 == (v >> 10) & 1
                &&& (w >> 12) & 0x0007 == 0
                &&& (w >> 5) & 0x001F == y + 1
                &&& (w >> 11) & 1 == (v >> 11) & 1
            })) by (bit_vector);
        }
    }
}

/// The PPU after `k` dots with nothing else running, and whether the last
/// of them ended a frame.
pub open spec fn run_dots(p: PpuView, cart: Cartridge, k: nat) -> (PpuView, bool)
    decreases k,
{
    if k == 0 {
        (p, false)
    } else {
        tick_view(run_dots(p, cart, (k - 1) as nat).0, cart)
    }
}

/// The number of dots in the frame that `p` is in: 262 lines of 341 dots,
/// one fewer on an odd frame while rendering is enabled.
pub open spec fn frame_length(p: PpuView) -> nat {
    if p.odd_frame && rendering_enabled(p.mask) {
        89341
    } else {
        89342
    }
}

proof fn lemma_tick_frame_end(p: PpuView, cart: Cartridge)
    requires
        p.cycle <= 340,
        p.scanline <= 261,
    ensures
        ({
            let (q, done) = tick_view(p, cart);
            &&& q.mask == p.mask
            &&& done == (dot_position(p) == 89341 || (dot_position(p) == 89340 && p.odd_frame
                && rendering_enabled(p.mask)))
            &&& q.odd_frame == if done {
                !p.odd_frame
            } else {
                p.odd_frame
            }
        }),
{
    reveal(fetch_phase);
    reveal(background_fetch);
    reveal(line_end);
    reveal(render_view);
    lemma_tick_moves_one_dot(p, cart);
}

/// A frame that starts at its first dot, with only the PPU's own dots
/// running, lasts `frame_length` dots: 89342, or 89341 on an odd frame while
/// rendering is enabled. Every dot before the last leaves the frame running
/// and the last one starts the next frame, of the other parity.
pub proof fn lemma_frame_length(p: PpuView, cart: Cartridge, k: nat)
    requires
        p.cycle == 0,
        p.scanline == 0,
        1 <= k <= frame_length(p),
    ensures
        ({
            let (q, done) = run_dots(p, cart, k);
            &&& done == (k == frame_length(p))
            &&& q.cycle <= 340
            &&& q.scanline <= 261
            &&& !done ==> dot_position(q) == k && q.mask == p.mask && q.odd_frame == p.odd_frame
            &&& done ==> q.cycle == 0 && q.scanline == 0 && q.odd_frame == !p.odd_frame
        }),
    decreases k,
{
    let prev = run_dots(p, cart, (k - 1) as nat).0;
    if k == 1 {
        assert(prev == p);
    } else {
        lemma_frame_length(p, cart, (k - 1) as nat);
    }
    lemma_tick_moves_one_dot(prev, cart);
    lemma_tick_frame_end(prev, cart);
}

} // verus!
