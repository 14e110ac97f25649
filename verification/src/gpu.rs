//! Pixel-processing unit: the mode state machine, scanline rendering,
//! palettes, VRAM, OAM and the CGB H-blank DMA.

use vstd::prelude::*;

verus! {

/// A pixel of the original monochrome hardware.
#[derive(Clone, Copy, Debug, PartialEq, Eq, Structural)]
pub enum DmgColor {
    White,
    LightGray,
    DarkGray,
    Black,
}

/// A pixel of either machine: a DMG shade or a CGB 5-bit-per-channel color.
#[derive(Clone, Copy, Debug, PartialEq, Eq, Structural)]
pub enum Color {
    Dmg(DmgColor),
    Rgb(u8, u8, u8),
}

/// The two-bit index that a DMG shade encodes to in a palette register.
pub open spec fn dmg_color_index(c: DmgColor) -> u8 {
    match c {
        DmgColor::White => 0,
        DmgColor::LightGray => 1,
        DmgColor::DarkGray => 2,
        DmgColor::Black => 3,
    }
}

/// The DMG shade a two-bit palette field decodes to.
pub open spec fn dmg_color_of(v: u8) -> DmgColor {
    if v & 0x3 == 0 {
        DmgColor::White
    } else if v & 0x3 == 1 {
        DmgColor::LightGray
    } else if v & 0x3 == 2 {
        DmgColor::DarkGray
    } else {
        DmgColor::Black
    }
}

fn dmg_color_of_exec(v: u8) -> (r: DmgColor)
    ensures
        r == dmg_color_of(v),
{
    let b = v & 0x3;
    if b == 0 {
        DmgColor::White
    } else if b == 1 {
        DmgColor::LightGray
    } else if b == 2 {
        DmgColor::DarkGray
    } else {
        DmgColor::Black
    }
}

fn dmg_color_index_exec(c: DmgColor) -> (r: u8)
    ensures
        r == dmg_color_index(c),
{
    match c {
        DmgColor::White => 0,
        DmgColor::LightGray => 1,
        DmgColor::DarkGray => 2,
        DmgColor::Black => 3,
    }
}

/// The four shades a DMG palette register encodes, two bits each.
pub open spec fn to_palette_spec(p: u8) -> [DmgColor; 4] {
    [dmg_color_of(p), dmg_color_of(p >> 2), dmg_color_of(p >> 4), dmg_color_of(p >> 6)]
}

/// The register value a DMG palette encodes back to.
pub open spec fn from_palette_spec(p: [DmgColor; 4]) -> u8 {
    dmg_color_index(p[0]) | (dmg_color_index(p[1]) << 2) | (dmg_color_index(p[2]) << 4) | (
    dmg_color_index(p[3]) << 6)
}

/// Decode a DMG palette register into its four shades.
pub fn to_palette(p: u8) -> (r: [DmgColor; 4])
    ensures
        r == to_palette_spec(p),
{
    let r = [
        dmg_color_of_exec(p),
        dmg_color_of_exec(p >> 2),
        dmg_color_of_exec(p >> 4),
        dmg_color_of_exec(p >> 6),
    ];
    proof {
        assert(r =~= to_palette_spec(p));
    }
    r
}

/// Encode four DMG shades back into a palette register.
pub fn from_palette(p: [DmgColor; 4]) -> (r: u8)
    ensures
        r == from_palette_spec(p),
{
    dmg_color_index_exec(p[0]) | (dmg_color_index_exec(p[1]) << 2) | (dmg_color_index_exec(p[2])
        << 4) | (dmg_color_index_exec(p[3]) << 6)
}

/// Decoding a palette register into four shades and encoding them again
/// returns the original byte.
pub proof fn lemma_palette_round_trip(b: u8)
    ensures
        from_palette_spec(to_palette_spec(b)) == b,
{
    let p = to_palette_spec(b);
    assert(((b & 3) | (((b >> 2) & 3) << 2) | (((b >> 4) & 3) << 4) | (((b >> 6) & 3) << 6)) == b)
        by (bit_vector);
    assert(b & 3 <= 3 && (b >> 2) & 3 <= 3 && (b >> 4) & 3 <= 3 && (b >> 6) & 3 <= 3)
        by (bit_vector);
    assert(dmg_color_index(p[0]) == b & 3);
    assert(dmg_color_index(p[1]) == (b >> 2) & 3);
    assert(dmg_color_index(p[2]) == (b >> 4) & 3);
    assert(dmg_color_index(p[3]) == (b >> 6) & 3);
}

/// A position on the 256x256 tile grid, in tiles.
#[derive(Clone, Copy, Debug, PartialEq, Eq, Structural)]
pub struct Point {
    pub x: u8,
    pub y: u8,
}

/// The PPU mode: OAM scan, pixel drawing, the two blanking periods, or
/// off while the LCD is disabled.
#[derive(Clone, Copy, Debug, PartialEq, Eq, Structural)]
pub enum Mode {
    OamScan,
    Drawing,
    HBlank,
    VBlank,
    Off,
}

/// The STAT mode field (bits 1..0) for each mode.
pub open spec fn mode_bits(m: Mode) -> u8 {
    match m {
        Mode::HBlank => 0,
        Mode::VBlank => 1,
        Mode::OamScan => 2,
        Mode::Drawing => 3,
        Mode::Off => 0,
    }
}

/// T-cycles of the OAM scan at the start of every visible line.
pub const OAM_CYCLES: usize = 80;

/// T-cycles of the drawing phase of every visible line.
pub const DRAW_CYCLES: usize = 172;

/// T-cycles of the horizontal blank that ends every visible line.
pub const HBLANK_CYCLES: usize = 204;

/// T-cycles of one whole scanline, visible or vertical-blank.
pub const LINE_CYCLES: usize = 456;

/// T-cycles of one whole frame: 154 lines of 456 cycles.
pub const FRAME_CYCLES: usize = 70224;

/// With the LCD on, the mode durations of a frame add up to exactly
/// `FRAME_CYCLES`: 144 visible lines spend the OAM-scan, drawing and
/// H-blank budgets, and the 10 V-blank lines a whole line each.
pub proof fn lemma_frame_duration()
    ensures
        144 * (OAM_CYCLES + DRAW_CYCLES + HBLANK_CYCLES) + 10 * LINE_CYCLES == FRAME_CYCLES,
        OAM_CYCLES + DRAW_CYCLES + HBLANK_CYCLES == LINE_CYCLES,
        154 * LINE_CYCLES == FRAME_CYCLES,
{
}

/// The low three bits of a byte select one of eight entries.
proof fn lemma_low3(attr: u8)
    ensures
        attr & 0x7 < 8,
{
    assert(attr & 0x7 < 8) by (bit_vector);
}

/// Replacing the low byte of a composed 16-bit value masks the old low
/// byte out and ors the new one in.
proof fn lemma_set_low_byte(h: u8, ol: u8, l: u8)
    ensures
        ((h as u16) << 8 | l as u16) == ((((h as u16) << 8 | ol as u16)) & 0xff00) | (l as u16),
{
    assert(((h as u16) << 8 | l as u16) == ((((h as u16) << 8 | ol as u16)) & 0xff00) | (
    l as u16)) by (bit_vector);
}

/// The CGB H-blank / general-purpose DMA engine.
pub struct Hdma {
    on: bool,
    src_low: u8,
    src_high: u8,
    dst_low: u8,
    dst_high: u8,
    src_wip: u16,
    dst_wip: u16,
    len: u8,
    hblank: bool,
}

impl Hdma {
    pub closed spec fn on_spec(&self) -> bool {
        self.on
    }

    pub closed spec fn hblank_spec(&self) -> bool {
        self.hblank
    }

    pub closed spec fn len_spec(&self) -> u8 {
        self.len
    }

    pub closed spec fn src_wip_spec(&self) -> u16 {
        self.src_wip
    }

    pub closed spec fn dst_wip_spec(&self) -> u16 {
        self.dst_wip
    }

    pub closed spec fn src_reg_spec(&self) -> u16 {
        ((self.src_high as u16) << 8 | self.src_low as u16) as u16
    }

    pub closed spec fn dst_reg_spec(&self) -> u16 {
        ((self.dst_high as u16) << 8 | self.dst_low as u16) as u16
    }

    pub fn new() -> (r: Hdma)
        ensures
            !r.on_spec(),
    {
        Hdma {
            on: false,
            src_low: 0,
            src_high: 0,
            dst_low: 0,
            dst_high: 0,
            src_wip: 0,
            dst_wip: 0,
            len: 0,
            hblank: false,
        }
    }

    /// Write the HDMA5 register (0xff55).  A write with bit 7 clear while
    /// an H-blank transfer runs cancels it; any other write arms a new
    /// transfer from the latched source to the latched VRAM destination.
    pub fn start(&mut self, value: u8)
        ensures
            old(self).on_spec() && old(self).hblank_spec() && value & 0x80 == 0 ==> {
                &&& !final(self).on_spec()
                &&& !final(self).hblank_spec()
            },
            !(old(self).on_spec() && old(self).hblank_spec() && value & 0x80 == 0) ==> {
                &&& final(self).on_spec()
                &&& final(self).hblank_spec() == (value & 0x80 != 0)
                &&& final(self).len_spec() == value & 0x7f
                &&& final(self).src_wip_spec() == old(self).src_reg_spec() & 0xfff0
                &&& final(self).dst_wip_spec() == (old(self).dst_reg_spec() & 0x1ff0) | 0x8000
            },
    {
        if self.on && self.hblank && value & 0x80 == 0 {
            self.on = false;
            self.hblank = false;
        } else {
            self.hblank = value & 0x80 != 0;
            self.len = value & 0x7f;
            let src = (self.src_high as u16) << 8 | self.src_low as u16;
            let dst = (self.dst_high as u16) << 8 | self.dst_low as u16;
            self.src_wip = src & 0xfff0;
            self.dst_wip = (dst & 0x1ff0) | 0x8000;
            self.on = true;
        }
    }

    /// Read the HDMA5 register: remaining length and the running flag.
    pub fn status(&self) -> (r: u8)
        ensures
            r == (self.len_spec() | if self.on_spec() {
                0x80u8
            } else {
                0u8
            }),
    {
        self.len | if self.on {
            0x80
        } else {
            0x00
        }
    }

    pub fn read_src_high(&self) -> (r: u8)
        ensures
            r == self.src_reg_spec() >> 8,
    {
        proof {
            crate::alu::lemma_hi_lo(self.src_high, self.src_low);
        }
        self.src_high
    }

    pub fn write_src_high(&mut self, v: u8)
        ensures
            final(self).src_reg_spec() == (old(self).src_reg_spec() & 0xff) | ((v as u16) << 8),
            final(self).on_spec() == old(self).on_spec(),
    {
        proof {
            crate::alu::lemma_hi_lo(v, self.src_low);
            crate::alu::lemma_hi_lo(self.src_high, self.src_low);
        }
        self.src_high = v;
    }

    pub fn read_src_low(&self) -> (r: u8)
        ensures
            r == self.src_reg_spec() & 0xff,
    {
        proof {
            crate::alu::lemma_hi_lo(self.src_high, self.src_low);
        }
        self.src_low
    }

    pub fn write_src_low(&mut self, v: u8)
        ensures
            final(self).src_reg_spec() == (old(self).src_reg_spec() & 0xff00) | v as u16,
            final(self).on_spec() == old(self).on_spec(),
    {
        proof {
            lemma_set_low_byte(self.src_high, self.src_low, v);
        }
        self.src_low = v;
    }

    pub fn read_dst_high(&self) -> (r: u8)
        ensures
            r == self.dst_reg_spec() >> 8,
    {
        proof {
            crate::alu::lemma_hi_lo(self.dst_high, self.dst_low);
        }
        self.dst_high
    }

    pub fn write_dst_high(&mut self, v: u8)
        ensures
            final(self).dst_reg_spec() == (old(self).dst_reg_spec() & 0xff) | ((v as u16) << 8),
            final(self).on_spec() == old(self).on_spec(),
    {
        proof {
            crate::alu::lemma_hi_lo(v, self.dst_low);
            crate::alu::lemma_hi_lo(self.dst_high, self.dst_low);
        }
        self.dst_high = v;
    }

    pub fn read_dst_low(&self) -> (r: u8)
        ensures
            r == self.dst_reg_spec() & 0xff,
    {
        proof {
            crate::alu::lemma_hi_lo(self.dst_high, self.dst_low);
        }
        self.dst_low
    }

    pub fn write_dst_low(&mut self, v: u8)
        ensures
            final(self).dst_reg_spec() == (old(self).dst_reg_spec() & 0xff00) | v as u16,
            final(self).on_spec() == old(self).on_spec(),
    {
        proof {
            lemma_set_low_byte(self.dst_high, self.dst_low, v);
        }
        self.dst_low = v;
    }

    /// Emit the transfer due at this point, if any: 16 bytes per H-blank
    /// in H-blank mode, the whole remaining block at once in general mode.
    pub fn run(&mut self, hblank: bool) -> (r: Option<crate::dma::DmaRequest>)
        ensures
            !old(self).on_spec() ==> r is None && *final(self) == *old(self),
            old(self).on_spec() && old(self).hblank_spec() && !hblank ==> r is None && *final(self)
                == *old(self),
            old(self).on_spec() && (hblank || !old(self).hblank_spec()) ==> {
                &&& r matches Some(req) && req.src_spec() == old(self).src_wip_spec()
                    && req.dst_spec() == old(self).dst_wip_spec() && req.len_spec() == if old(self).hblank_spec() {
                    0x10int
                } else {
                    ((old(self).len_spec() as int) + 1) * 0x10
                }
                &&& final(self).on_spec() == (old(self).hblank_spec() && old(self).len_spec() != 0)
                // the cursors advance past the copied block, so consecutive
                // H-blank transfers walk consecutive 16-byte blocks
                &&& final(self).src_wip_spec() == crate::cpu::wadd16(
                    old(self).src_wip_spec(),
                    if old(self).hblank_spec() {
                        0x10u16
                    } else {
                        (((old(self).len_spec() as u16) + 1) * 0x10) as u16
                    },
                )
                &&& final(self).dst_wip_spec() == crate::cpu::wadd16(
                    old(self).dst_wip_spec(),
                    if old(self).hblank_spec() {
                        0x10u16
                    } else {
                        (((old(self).len_spec() as u16) + 1) * 0x10) as u16
                    },
                )
                &&& (old(self).hblank_spec() && old(self).len_spec() != 0 ==> final(self).len_spec()
                    == old(self).len_spec() - 1)
                &&& final(self).hblank_spec() == old(self).hblank_spec()
            },
    {
        if !self.on {
            return None;
        }
        if self.hblank && !hblank {
            return None;
        }
        let size: u16 = if self.hblank {
            0x10
        } else {
            ((self.len as u16) + 1) * 0x10
        };
        let req = crate::dma::DmaRequest::new(self.src_wip, self.dst_wip, size);
        self.src_wip = self.src_wip.wrapping_add(size);
        self.dst_wip = self.dst_wip.wrapping_add(size);
        if self.hblank {
            let of = self.len == 0;
            self.len = self.len.wrapping_sub(1);
            self.on = !of;
        } else {
            self.len = 0xff;
            self.on = false;
        }
        Some(req)
    }
}

/// The attributes that apply to one background or window tile, or to one
/// sprite: its palette, which VRAM bank holds its pixel data, its flips
/// and its priority over sprites (background) or the background (sprite).
#[derive(Clone, Copy)]
pub struct MapAttribute {
    pub palette: [Color; 4],
    pub vram_bank1: bool,
    pub xflip: bool,
    pub yflip: bool,
    pub priority: bool,
}

/// The address of the 16-byte tile-pixel block for tile number `num`:
/// unsigned indexing from 0x8000, or signed indexing around 0x9000.
pub open spec fn tile_base_spec(tiles: u16, num: u8) -> u16 {
    if tiles == 0x8000 {
        (0x8000 + num * 16) as u16
    } else if num < 0x80 {
        (0x9000 + num * 16) as u16
    } else {
        (0x8800 + (num - 0x80) * 16) as u16
    }
}

fn tile_base(tiles: u16, num: u8) -> (r: u16)
    requires
        tiles == 0x8000 || tiles == 0x8800,
    ensures
        r == tile_base_spec(tiles, num),
        0x8000 <= r <= 0x97f0,
{
    if tiles == 0x8000 {
        0x8000 + (num as u16) * 16
    } else if num < 0x80 {
        0x9000 + (num as u16) * 16
    } else {
        0x8800 + ((num - 0x80) as u16) * 16
    }
}

/// The 2-bit color index of pixel `col` in a tile line: bit 7-col of the
/// low byte, and the same bit of the high byte shifted up.
pub open spec fn color_id_spec(lo: u8, hi: u8, col: u8) -> u8 {
    (((lo >> ((7 - col) as u8)) & 1) | (((hi >> ((7 - col) as u8)) & 1) << 1)) as u8
}

fn color_id(lo: u8, hi: u8, col: u8) -> (r: u8)
    requires
        col < 8,
    ensures
        r == color_id_spec(lo, hi, col),
        r < 4,
{
    let r = ((lo >> (7 - col)) & 1) | (((hi >> (7 - col)) & 1) << 1);
    proof {
        let sh = (7 - col) as u8;
        assert(((lo >> sh) & 1) | (((hi >> sh) & 1) << 1) < 4) by (bit_vector);
    }
    r
}

/// One background or window pixel: the color index in the tile map and
/// the color it maps to, for machine extension `ext`.
pub open spec fn scanline_pixel_spec<Ext: CgbExt>(
    ext: Ext,
    vram0: Seq<u8>,
    tiles: u16,
    mapbase: u16,
    y: u8,
    xx: u8,
) -> (u8, Color) {
    let mapoff = (mapbase - 0x8000) + (xx / 8) + (y / 8) * 32;
    let attr = ext.tile_attr_spec(vram0, mapoff);
    let num = ext.bank_byte_spec(false, vram0, mapoff);
    let tbase = tile_base_spec(tiles, num);
    let yoff: u8 = if attr.yflip {
        (7 - y % 8) as u8
    } else {
        (y % 8) as u8
    };
    let col: u8 = if attr.xflip {
        (7 - xx % 8) as u8
    } else {
        (xx % 8) as u8
    };
    let lo = ext.bank_byte_spec(attr.vram_bank1, vram0, tbase - 0x8000 + yoff * 2);
    let hi = ext.bank_byte_spec(attr.vram_bank1, vram0, tbase - 0x8000 + yoff * 2 + 1);
    let coli = color_id_spec(lo, hi, col);
    (coli, attr.palette[coli as int])
}

/// The per-machine part of the PPU: palettes, the second VRAM bank and
/// the CGB-only registers.  The DMG variant is `Dmg`, the CGB variant
/// `GpuCgbExtension`.
pub trait CgbExt: Sized {
    /// Type validity.
    spec fn wf(&self) -> bool;

    /// The tile attributes at map offset `mapoff` (background/window).
    spec fn tile_attr_spec(&self, vram0: Seq<u8>, mapoff: int) -> MapAttribute;

    /// The sprite attributes encoded by OAM attribute byte `attr`.
    spec fn sp_attr_spec(&self, attr: u8) -> MapAttribute;

    /// The byte at `off` in the selected VRAM bank.
    spec fn bank_byte_spec(&self, bank1: bool, vram0: Seq<u8>, off: int) -> u8;

    /// The byte the VRAM window 0x8000-0x9fff reads at bus address `addr`
    /// through the bank the VBK register selects.
    spec fn vram_read_spec(&self, vram0: Seq<u8>, addr: int) -> u8;

    /// What the VBK register (0xff4f) reads back.
    spec fn vbk_reg_spec(&self) -> u8;

    /// What VBK reads back after writing `v` to it.
    spec fn vbk_wrote_spec(&self, v: u8) -> u8;

    /// What the BGP register (0xff47) reads back.
    spec fn bg_palette_reg_spec(&self) -> u8;

    /// What BGP reads back after writing `v` to it.
    spec fn bg_palette_wrote_spec(&self, v: u8) -> u8;

    /// What the OBP0 register (0xff48) reads back.
    spec fn obj_palette0_reg_spec(&self) -> u8;

    /// What OBP0 reads back after writing `v` to it.
    spec fn obj_palette0_wrote_spec(&self, v: u8) -> u8;

    /// What the OBP1 register (0xff49) reads back.
    spec fn obj_palette1_reg_spec(&self) -> u8;

    /// What OBP1 reads back after writing `v` to it.
    spec fn obj_palette1_wrote_spec(&self, v: u8) -> u8;

    fn new_ext() -> (r: Self)
        ensures
            r.wf(),
    ;

    fn tile_attr(&self, vram0: &[u8; 0x2000], mapoff: u16) -> (r: MapAttribute)
        requires
            self.wf(),
            mapoff < 0x2000,
        ensures
            r == self.tile_attr_spec(vram0@, mapoff as int),
    ;

    /// Decode a sprite's OAM attribute byte.
    fn get_sp_attr(&self, attr: u8) -> (r: MapAttribute)
        requires
            self.wf(),
        ensures
            r == self.sp_attr_spec(attr),
    ;

    fn bank_byte(&self, bank1: bool, vram0: &[u8; 0x2000], off: u16) -> (r: u8)
        requires
            self.wf(),
            off < 0x2000,
        ensures
            r == self.bank_byte_spec(bank1, vram0@, off as int),
    ;

    /// Read the VRAM window 0x8000-0x9fff through the selected bank.
    fn read_vram(&self, addr: u16, vram0: &[u8; 0x2000]) -> (r: u8)
        requires
            self.wf(),
            0x8000 <= addr <= 0x9fff,
        ensures
            r == self.vram_read_spec(vram0@, addr as int),
    ;

    /// Write the VRAM window 0x8000-0x9fff through the selected bank:
    /// afterwards the window reads `v` at `addr` and is otherwise
    /// unchanged.
    fn write_vram(&mut self, addr: u16, v: u8, vram0: &mut [u8; 0x2000])
        requires
            old(self).wf(),
            0x8000 <= addr <= 0x9fff,
        ensures
            final(self).wf(),
            forall|a: int|
                0x8000 <= a <= 0x9fff ==> final(self).vram_read_spec(final(vram0)@, a) == if a
                    == addr {
                    v
                } else {
                    old(self).vram_read_spec(old(vram0)@, a)
                },
            final(self).vbk_reg_spec() == old(self).vbk_reg_spec(),
    ;

    /// Read the BGP register (0xff47); 0xff on CGB.
    fn read_bg_palette(&self) -> (r: u8)
        requires
            self.wf(),
        ensures
            r == self.bg_palette_reg_spec(),
    ;

    /// Write the BGP register (0xff47); ignored on CGB.
    fn write_bg_palette(&mut self, v: u8)
        requires
            old(self).wf(),
        ensures
            final(self).wf(),
            final(self).bg_palette_reg_spec() == old(self).bg_palette_wrote_spec(v),
            final(self).obj_palette0_reg_spec() == old(self).obj_palette0_reg_spec(),
            final(self).obj_palette1_reg_spec() == old(self).obj_palette1_reg_spec(),
    ;

    /// Read the OBP0 register (0xff48); 0xff on CGB.
    fn read_obj_palette0(&self) -> (r: u8)
        requires
            self.wf(),
        ensures
            r == self.obj_palette0_reg_spec(),
    ;

    /// Write the OBP0 register (0xff48); ignored on CGB.
    fn write_obj_palette0(&mut self, v: u8)
        requires
            old(self).wf(),
        ensures
            final(self).wf(),
            final(self).obj_palette0_reg_spec() == old(self).obj_palette0_wrote_spec(v),
            final(self).bg_palette_reg_spec() == old(self).bg_palette_reg_spec(),
            final(self).obj_palette1_reg_spec() == old(self).obj_palette1_reg_spec(),
    ;

    /// Read the OBP1 register (0xff49); 0xff on CGB.
    fn read_obj_palette1(&self) -> (r: u8)
        requires
            self.wf(),
        ensures
            r == self.obj_palette1_reg_spec(),
    ;

    /// Write the OBP1 register (0xff49); ignored on CGB.
    fn write_obj_palette1(&mut self, v: u8)
        requires
            old(self).wf(),
        ensures
            final(self).wf(),
            final(self).obj_palette1_reg_spec() == old(self).obj_palette1_wrote_spec(v),
            final(self).bg_palette_reg_spec() == old(self).bg_palette_reg_spec(),
            final(self).obj_palette0_reg_spec() == old(self).obj_palette0_reg_spec(),
    ;

    /// Read the VBK register (0xff4f); 0xff on DMG.
    fn read_vram_bank_select(&self) -> (r: u8)
        requires
            self.wf(),
        ensures
            r == self.vbk_reg_spec(),
    ;

    /// Write the VBK register (0xff4f); ignored on DMG.
    fn select_vram_bank(&mut self, v: u8)
        requires
            old(self).wf(),
        ensures
            final(self).wf(),
            final(self).vbk_reg_spec() == old(self).vbk_wrote_spec(v),
            final(self).bg_palette_reg_spec() == old(self).bg_palette_reg_spec(),
    ;

    /// Write the BCPS register (0xff68); ignored on DMG.
    fn select_bg_color_palette(&mut self, v: u8)
        requires
            old(self).wf(),
        ensures
            final(self).wf(),
    ;

    /// Read the BCPD register (0xff69); 0xff on DMG.
    fn read_bg_color_palette(&self) -> u8
        requires
            self.wf(),
    ;

    /// Write the BCPD register (0xff69); ignored on DMG.
    fn write_bg_color_palette(&mut self, v: u8)
        requires
            old(self).wf(),
        ensures
            final(self).wf(),
    ;

    /// Write the OCPS register (0xff6a); ignored on DMG.
    fn select_obj_color_palette(&mut self, v: u8)
        requires
            old(self).wf(),
        ensures
            final(self).wf(),
    ;

    /// Read the OCPD register (0xff6b); 0xff on DMG.
    fn read_obj_color_palette(&self) -> u8
        requires
            self.wf(),
    ;

    /// Write the OCPD register (0xff6b); ignored on DMG.
    fn write_obj_color_palette(&mut self, v: u8)
        requires
            old(self).wf(),
        ensures
            final(self).wf(),
    ;

}

/// The DMG per-machine PPU state: the three shade palettes.
pub struct Dmg {
    bg_palette: [DmgColor; 4],
    obj_palette0: [DmgColor; 4],
    obj_palette1: [DmgColor; 4],
}

/// Four DMG shades as `Color` values.
pub open spec fn dmg_palette_colors(p: [DmgColor; 4]) -> [Color; 4] {
    [Color::Dmg(p[0]), Color::Dmg(p[1]), Color::Dmg(p[2]), Color::Dmg(p[3])]
}

fn dmg_palette_colors_exec(p: &[DmgColor; 4]) -> (r: [Color; 4])
    ensures
        r == dmg_palette_colors(*p),
{
    let r = [Color::Dmg(p[0]), Color::Dmg(p[1]), Color::Dmg(p[2]), Color::Dmg(p[3])];
    proof {
        assert(r =~= dmg_palette_colors(*p));
    }
    r
}

impl Dmg {
    /// The BGP shades.
    pub closed spec fn bg_palette_spec(&self) -> [DmgColor; 4] {
        self.bg_palette
    }
}

impl CgbExt for Dmg {
    closed spec fn wf(&self) -> bool {
        true
    }

    closed spec fn tile_attr_spec(&self, vram0: Seq<u8>, mapoff: int) -> MapAttribute {
        MapAttribute {
            palette: dmg_palette_colors(self.bg_palette),
            vram_bank1: false,
            xflip: false,
            yflip: false,
            priority: false,
        }
    }

    closed spec fn sp_attr_spec(&self, attr: u8) -> MapAttribute {
        MapAttribute {
            palette: dmg_palette_colors(
                if attr & 0x10 != 0 {
                    self.obj_palette1
                } else {
                    self.obj_palette0
                },
            ),
            vram_bank1: false,
            xflip: attr & 0x20 != 0,
            yflip: attr & 0x40 != 0,
            priority: attr & 0x80 != 0,
        }
    }

    closed spec fn bank_byte_spec(&self, bank1: bool, vram0: Seq<u8>, off: int) -> u8 {
        if 0 <= off < vram0.len() {
            vram0[off]
        } else {
            0
        }
    }

    closed spec fn vram_read_spec(&self, vram0: Seq<u8>, addr: int) -> u8 {
        if 0 <= addr - 0x8000 < vram0.len() {
            vram0[addr - 0x8000]
        } else {
            0
        }
    }

    closed spec fn vbk_reg_spec(&self) -> u8 {
        0xff
    }

    closed spec fn vbk_wrote_spec(&self, v: u8) -> u8 {
        0xff
    }

    closed spec fn bg_palette_reg_spec(&self) -> u8 {
        from_palette_spec(self.bg_palette)
    }

    closed spec fn bg_palette_wrote_spec(&self, v: u8) -> u8 {
        v
    }

    closed spec fn obj_palette0_reg_spec(&self) -> u8 {
        from_palette_spec(self.obj_palette0)
    }

    closed spec fn obj_palette0_wrote_spec(&self, v: u8) -> u8 {
        v
    }

    closed spec fn obj_palette1_reg_spec(&self) -> u8 {
        from_palette_spec(self.obj_palette1)
    }

    closed spec fn obj_palette1_wrote_spec(&self, v: u8) -> u8 {
        v
    }

    fn new_ext() -> (r: Self) {
        Dmg {
            bg_palette: [DmgColor::White, DmgColor::LightGray, DmgColor::DarkGray, DmgColor::Black],
            obj_palette0: [
                DmgColor::White,
                DmgColor::LightGray,
                DmgColor::DarkGray,
                DmgColor::Black,
            ],
            obj_palette1: [
                DmgColor::White,
                DmgColor::LightGray,
                DmgColor::DarkGray,
                DmgColor::Black,
            ],
        }
    }

    fn tile_attr(&self, vram0: &[u8; 0x2000], mapoff: u16) -> (r: MapAttribute) {
        MapAttribute {
            palette: dmg_palette_colors_exec(&self.bg_palette),
            vram_bank1: false,
            xflip: false,
            yflip: false,
            priority: false,
        }
    }

    fn get_sp_attr(&self, attr: u8) -> (r: MapAttribute) {
        let palette = if attr & 0x10 != 0 {
            dmg_palette_colors_exec(&self.obj_palette1)
        } else {
            dmg_palette_colors_exec(&self.obj_palette0)
        };
        MapAttribute {
            palette,
            vram_bank1: false,
            xflip: attr & 0x20 != 0,
            yflip: attr & 0x40 != 0,
            priority: attr & 0x80 != 0,
        }
    }

    fn bank_byte(&self, bank1: bool, vram0: &[u8; 0x2000], off: u16) -> (r: u8) {
        vram0[off as usize]
    }

    fn read_vram(&self, addr: u16, vram0: &[u8; 0x2000]) -> (r: u8) {
        vram0[(addr - 0x8000) as usize]
    }

    fn write_vram(&mut self, addr: u16, v: u8, vram0: &mut [u8; 0x2000]) {
        vram0[(addr - 0x8000) as usize] = v;
    }

    fn read_bg_palette(&self) -> u8 {
        from_palette(self.bg_palette)
    }

    fn write_bg_palette(&mut self, v: u8) {
        self.bg_palette = to_palette(v);
        proof {
            lemma_palette_round_trip(v);
        }
    }

    fn read_obj_palette0(&self) -> u8 {
        from_palette(self.obj_palette0)
    }

    fn write_obj_palette0(&mut self, v: u8) {
        self.obj_palette0 = to_palette(v);
        proof {
            lemma_palette_round_trip(v);
        }
    }

    fn read_obj_palette1(&self) -> u8 {
        from_palette(self.obj_palette1)
    }

    fn write_obj_palette1(&mut self, v: u8) {
        self.obj_palette1 = to_palette(v);
        proof {
            lemma_palette_round_trip(v);
        }
    }

    fn read_vram_bank_select(&self) -> u8 {
        0xff
    }

    fn select_vram_bank(&mut self, v: u8) {
    }

    fn select_bg_color_palette(&mut self, v: u8) {
    }

    fn read_bg_color_palette(&self) -> u8 {
        0xff
    }

    fn write_bg_color_palette(&mut self, v: u8) {
    }

    fn select_obj_color_palette(&mut self, v: u8) {
    }

    fn read_obj_color_palette(&self) -> u8 {
        0xff
    }

    fn write_obj_color_palette(&mut self, v: u8) {
    }
}

/// CGB color palette memory: eight palettes of four 15-bit colors,
/// accessed one byte at a time through an auto-incrementing index.
struct ColorPalette {
    cols: [[Color; 4]; 8],
    index: u8,
    auto_inc: bool,
}

impl ColorPalette {
    spec fn wf(&self) -> bool {
        self.index < 0x40
    }

    fn new() -> (r: ColorPalette)
        ensures
            r.wf(),
    {
        ColorPalette { cols: [[Color::Rgb(0, 0, 0); 4]; 8], index: 0, auto_inc: false }
    }

    /// Write the palette-index register (BCPS/OCPS).
    fn select(&mut self, value: u8)
        ensures
            final(self).wf(),
    {
        self.auto_inc = value & 0x80 != 0;
        self.index = value & 0x3f;
        proof {
            assert(value & 0x3f < 0x40) by (bit_vector);
        }
    }

    /// Read the palette-data register (BCPD/OCPD).
    fn read(&self) -> (r: u8)
        requires
            self.wf(),
    {
        let idx = (self.index / 8) as usize;
        let off = (self.index % 8) as usize;
        let c = &self.cols[idx][off / 2];
        let (lo, hi) = color_rgb555(c);
        if off % 2 == 0 {
            lo
        } else {
            hi
        }
    }

    /// Write the palette-data register (BCPD/OCPD).
    fn write(&mut self, value: u8)
        requires
            old(self).wf(),
        ensures
            final(self).wf(),
    {
        let idx = (self.index / 8) as usize;
        let off = (self.index % 8) as usize;
        let c = self.cols[idx][off / 2];
        let nc = if off % 2 == 0 {
            color_set_low(&c, value)
        } else {
            color_set_high(&c, value)
        };
        let mut pal = self.cols[idx];
        pal[off / 2] = nc;
        self.cols[idx] = pal;
        if self.auto_inc {
            self.index = (self.index + 1) % 0x40;
        }
    }
}

/// The two RGB555 bytes of a CGB color; a DMG shade encodes as zero.
fn color_rgb555(c: &Color) -> (r: (u8, u8))
    ensures
        c matches Color::Rgb(cr, g, b) ==> r.0 == ((cr & 0x1f) | ((g & 0x7) << 5)) && r.1 == (((g
            >> 3) & 0x3) | ((b & 0x1f) << 2)),
{
    match c {
        Color::Rgb(cr, g, b) => (((*cr & 0x1f) | ((*g & 0x7) << 5)), (((*g >> 3) & 0x3) | ((*b
            & 0x1f) << 2))),
        Color::Dmg(_) => (0, 0),
    }
}

/// Update the low RGB555 byte of a color: red and the low green bits.
fn color_set_low(c: &Color, low: u8) -> (r: Color) {
    match c {
        Color::Rgb(_, g, b) => Color::Rgb(low & 0x1f, (*g & 0x18) | (low >> 5), *b),
        Color::Dmg(_) => Color::Rgb(low & 0x1f, low >> 5, 0),
    }
}

/// Update the high RGB555 byte of a color: the high green bits and blue.
fn color_set_high(c: &Color, high: u8) -> (r: Color) {
    match c {
        Color::Rgb(cr, g, _) => Color::Rgb(*cr, (*g & 0x7) | ((high & 0x3) << 3), (high >> 2)
            & 0x1f),
        Color::Dmg(_) => Color::Rgb(0, (high & 0x3) << 3, (high >> 2) & 0x1f),
    }
}

/// The CGB per-machine PPU state: the second VRAM bank, its bank-select
/// latch and the color palette memories.
pub struct GpuCgbExtension {
    vram: [u8; 0x2000],
    vram_select: u8,
    bg_color_palette: ColorPalette,
    obj_color_palette: ColorPalette,
}

impl CgbExt for GpuCgbExtension {
    closed spec fn wf(&self) -> bool {
        &&& self.bg_color_palette.wf()
        &&& self.obj_color_palette.wf()
        &&& self.vram_select < 2
    }

    closed spec fn tile_attr_spec(&self, vram0: Seq<u8>, mapoff: int) -> MapAttribute {
        let attr = if 0 <= mapoff < self.vram@.len() {
            self.vram@[mapoff]
        } else {
            0
        };
        MapAttribute {
            palette: self.bg_color_palette.cols@[(attr & 0x7) as int],
            vram_bank1: attr & 0x08 != 0,
            xflip: attr & 0x20 != 0,
            yflip: attr & 0x40 != 0,
            priority: attr & 0x80 != 0,
        }
    }

    closed spec fn sp_attr_spec(&self, attr: u8) -> MapAttribute {
        MapAttribute {
            palette: self.obj_color_palette.cols@[(attr & 0x7) as int],
            vram_bank1: attr & 0x08 != 0,
            xflip: attr & 0x20 != 0,
            yflip: attr & 0x40 != 0,
            priority: attr & 0x80 != 0,
        }
    }

    closed spec fn bank_byte_spec(&self, bank1: bool, vram0: Seq<u8>, off: int) -> u8 {
        if bank1 {
            if 0 <= off < self.vram@.len() {
                self.vram@[off]
            } else {
                0
            }
        } else {
            if 0 <= off < vram0.len() {
                vram0[off]
            } else {
                0
            }
        }
    }

    closed spec fn vram_read_spec(&self, vram0: Seq<u8>, addr: int) -> u8 {
        self.bank_byte_spec(self.vram_select == 1, vram0, addr - 0x8000)
    }

    closed spec fn vbk_reg_spec(&self) -> u8 {
        self.vram_select | 0xfe
    }

    closed spec fn vbk_wrote_spec(&self, v: u8) -> u8 {
        (v & 1) | 0xfe
    }

    closed spec fn bg_palette_reg_spec(&self) -> u8 {
        0xff
    }

    closed spec fn bg_palette_wrote_spec(&self, v: u8) -> u8 {
        0xff
    }

    closed spec fn obj_palette0_reg_spec(&self) -> u8 {
        0xff
    }

    closed spec fn obj_palette0_wrote_spec(&self, v: u8) -> u8 {
        0xff
    }

    closed spec fn obj_palette1_reg_spec(&self) -> u8 {
        0xff
    }

    closed spec fn obj_palette1_wrote_spec(&self, v: u8) -> u8 {
        0xff
    }

    fn new_ext() -> (r: Self) {
        GpuCgbExtension {
            vram: [0u8; 0x2000],
            vram_select: 0,
            bg_color_palette: ColorPalette::new(),
            obj_color_palette: ColorPalette::new(),
        }
    }

    fn tile_attr(&self, vram0: &[u8; 0x2000], mapoff: u16) -> (r: MapAttribute) {
        let attr = self.vram[mapoff as usize];
        proof {
            lemma_low3(attr);
        }
        MapAttribute {
            palette: self.bg_color_palette.cols[(attr & 0x7) as usize],
            vram_bank1: attr & 0x08 != 0,
            xflip: attr & 0x20 != 0,
            yflip: attr & 0x40 != 0,
            priority: attr & 0x80 != 0,
        }
    }

    fn get_sp_attr(&self, attr: u8) -> (r: MapAttribute) {
        proof {
            lemma_low3(attr);
        }
        MapAttribute {
            palette: self.obj_color_palette.cols[(attr & 0x7) as usize],
            vram_bank1: attr & 0x08 != 0,
            xflip: attr & 0x20 != 0,
            yflip: attr & 0x40 != 0,
            priority: attr & 0x80 != 0,
        }
    }

    fn bank_byte(&self, bank1: bool, vram0: &[u8; 0x2000], off: u16) -> (r: u8) {
        if bank1 {
            self.vram[off as usize]
        } else {
            vram0[off as usize]
        }
    }

    fn read_vram(&self, addr: u16, vram0: &[u8; 0x2000]) -> (r: u8) {
        if self.vram_select == 0 {
            vram0[(addr - 0x8000) as usize]
        } else {
            self.vram[(addr - 0x8000) as usize]
        }
    }

    fn write_vram(&mut self, addr: u16, v: u8, vram0: &mut [u8; 0x2000]) {
        if self.vram_select == 0 {
            vram0[(addr - 0x8000) as usize] = v;
        } else {
            self.vram[(addr - 0x8000) as usize] = v;
        }
    }

    fn read_bg_palette(&self) -> u8 {
        0xff
    }

    fn write_bg_palette(&mut self, v: u8) {
    }

    fn read_obj_palette0(&self) -> u8 {
        0xff
    }

    fn write_obj_palette0(&mut self, v: u8) {
    }

    fn read_obj_palette1(&self) -> u8 {
        0xff
    }

    fn write_obj_palette1(&mut self, v: u8) {
    }

    fn read_vram_bank_select(&self) -> u8 {
        self.vram_select | 0xfe
    }

    fn select_vram_bank(&mut self, v: u8) {
        self.vram_select = v & 1;
        proof {
            assert(v & 1 < 2) by (bit_vector);
        }
    }

    fn select_bg_color_palette(&mut self, v: u8) {
        self.bg_color_palette.select(v);
    }

    fn read_bg_color_palette(&self) -> u8 {
        self.bg_color_palette.read()
    }

    fn write_bg_color_palette(&mut self, v: u8) {
        self.bg_color_palette.write(v);
    }

    fn select_obj_color_palette(&mut self, v: u8) {
        self.obj_color_palette.select(v);
    }

    fn read_obj_color_palette(&self) -> u8 {
        self.obj_color_palette.read()
    }

    fn write_obj_color_palette(&mut self, v: u8) {
        self.obj_color_palette.write(v);
    }
}

/// Render one scanline of the background or window into `buf`,
/// starting `scx` pixels into the 256-pixel tile plane at tile row
/// pixel `y`; when `record_bg` is set, the raw color indices also go
/// to `bgbuf` for later sprite-priority tests.
pub fn get_scanline_after_offset<Ext: CgbExt>(
    ext: &Ext,
    scx: u8,
    y: u8,
    vram0: &[u8; 0x2000],
    tiles: u16,
    mapbase: u16,
    buf: &mut [Color; 160],
    bgbuf: &mut [u8; 160],
    record_bg: bool,
)
    requires
        ext.wf(),
        tiles == 0x8000 || tiles == 0x8800,
        mapbase == 0x9800 || mapbase == 0x9c00,
    ensures
        forall|x: int|
            0 <= x < 160 ==> final(buf)@[x] == scanline_pixel_spec(
                *ext,
                vram0@,
                tiles,
                mapbase,
                y,
                crate::alu::wadd8(scx, x as u8),
            ).1,
        record_bg ==> forall|x: int|
            0 <= x < 160 ==> final(bgbuf)@[x] == scanline_pixel_spec(
                *ext,
                vram0@,
                tiles,
                mapbase,
                y,
                crate::alu::wadd8(scx, x as u8),
            ).0,
        !record_bg ==> final(bgbuf)@ == old(bgbuf)@,
{
    let mut x: usize = 0;
    while x < 160
        invariant
            x <= 160,
            ext.wf(),
            tiles == 0x8000 || tiles == 0x8800,
            mapbase == 0x9800 || mapbase == 0x9c00,
            forall|j: int|
                0 <= j < x ==> buf@[j] == scanline_pixel_spec(
                    *ext,
                    vram0@,
                    tiles,
                    mapbase,
                    y,
                    crate::alu::wadd8(scx, j as u8),
                ).1,
            record_bg ==> forall|j: int|
                0 <= j < x ==> bgbuf@[j] == scanline_pixel_spec(
                    *ext,
                    vram0@,
                    tiles,
                    mapbase,
                    y,
                    crate::alu::wadd8(scx, j as u8),
                ).0,
            !record_bg ==> bgbuf@ == old(bgbuf)@,
        decreases 160 - x,
    {
        let xx = scx.wrapping_add(x as u8);
        let mapoff = (mapbase - 0x8000) + (xx / 8) as u16 + (y / 8) as u16 * 32;
        let attr = ext.tile_attr(vram0, mapoff);
        let num = ext.bank_byte(false, vram0, mapoff);
        let tbase = tile_base(tiles, num);
        let yoff: u8 = if attr.yflip {
            7 - y % 8
        } else {
            y % 8
        };
        let col: u8 = if attr.xflip {
            7 - xx % 8
        } else {
            xx % 8
        };
        let lo = ext.bank_byte(attr.vram_bank1, vram0, tbase - 0x8000 + (yoff as u16) * 2);
        let hi = ext.bank_byte(attr.vram_bank1, vram0, tbase - 0x8000 + (yoff as u16) * 2 + 1);
        let coli = color_id(lo, hi, col);
        buf[x] = attr.palette[coli as usize];
        if record_bg {
            bgbuf[x] = coli;
        }
        x = x + 1;
    }
}

/// The sprite height LCDC bit 2 selects.
pub open spec fn sp_size_of(ctrl: u8) -> u8 {
    if ctrl & 0x04 != 0 {
        16
    } else {
        8
    }
}

/// The color index, color and background-priority flag of sprite `s`'s
/// pixel at screen column `x` on line `ly`; the index is 0 when the
/// sprite does not cover that pixel (color index 0 is transparent).
pub open spec fn sprite_pixel_spec<Ext: CgbExt>(
    ext: Ext,
    oam: Seq<u8>,
    vram0: Seq<u8>,
    ly: u8,
    spsize: u8,
    s: int,
    x: int,
) -> (u8, Color, bool) {
    let ypos = oam[4 * s];
    let xpos = oam[4 * s + 1];
    let attr = ext.sp_attr_spec(oam[4 * s + 3]);
    let lyy = crate::alu::wadd8(ly, 16);
    if lyy >= ypos && lyy - ypos < spsize && 1 <= xpos < 168 && xpos - 8 <= x < xpos {
        let tyoff0 = (lyy - ypos) as u8;
        let tyoff1: u8 = if attr.yflip {
            (spsize - 1 - tyoff0) as u8
        } else {
            tyoff0
        };
        let ti0 = oam[4 * s + 2];
        let ti: u8 = if spsize == 16 {
            if tyoff1 >= 8 {
                ti0 | 1
            } else {
                ti0 & 0xfe
            }
        } else {
            ti0
        };
        let tyoff = (tyoff1 % 8) as u8;
        let sx = (x - (xpos - 8)) as u8;
        let px: u8 = if attr.xflip {
            (7 - sx) as u8
        } else {
            sx
        };
        let lo = ext.bank_byte_spec(attr.vram_bank1, vram0, ti * 16 + tyoff * 2);
        let hi = ext.bank_byte_spec(attr.vram_bank1, vram0, ti * 16 + tyoff * 2 + 1);
        let coli = color_id_spec(lo, hi, px);
        (coli, attr.palette[coli as int], attr.priority)
    } else {
        (0, Color::Dmg(DmgColor::White), false)
    }
}

/// Whether sprite `s` legitimately paints color `c` at column `x`: its
/// pixel there is opaque, and it either has priority over the background
/// or the background color index `bg` is 0.
pub open spec fn sprite_overlays<Ext: CgbExt>(
    ext: Ext,
    oam: Seq<u8>,
    vram0: Seq<u8>,
    ly: u8,
    spsize: u8,
    s: int,
    x: int,
    bg: u8,
    c: Color,
) -> bool {
    let p = sprite_pixel_spec(ext, oam, vram0, ly, spsize, s, x);
    p.0 != 0 && !(p.2 && bg != 0) && c == p.1
}

/// The tile-data area that LCDC bit 4 selects.
pub open spec fn tiles_of(ctrl: u8) -> u16 {
    if ctrl & 0x10 != 0 {
        0x8000
    } else {
        0x8800
    }
}

/// The background tile map that LCDC bit 3 selects.
pub open spec fn bgmap_of(ctrl: u8) -> u16 {
    if ctrl & 0x08 != 0 {
        0x9c00
    } else {
        0x9800
    }
}

/// The PPU: mode state machine, scanline rendering, VRAM, OAM and HDMA.
pub struct Gpu<Ext: CgbExt> {
    clocks: usize,
    /// STAT interrupt-select bits (3..6).
    lcd_status: u8,
    mode: Mode,
    ly: u8,
    lyc: u8,
    scy: u8,
    scx: u8,
    wx: u8,
    wy: u8,
    /// LCDC.
    lcd_control: u8,
    vram: [u8; 0x2000],
    oam: [u8; 0xa0],
    hdma: Hdma,
    pub cgb_ext: Ext,
}

impl<Ext: CgbExt> Gpu<Ext> {
    pub closed spec fn wf(&self) -> bool {
        self.cgb_ext.wf()
    }

    pub closed spec fn clocks_spec(&self) -> usize {
        self.clocks
    }

    pub closed spec fn mode_spec(&self) -> Mode {
        self.mode
    }

    pub closed spec fn ly_spec(&self) -> u8 {
        self.ly
    }

    pub closed spec fn lyc_spec(&self) -> u8 {
        self.lyc
    }

    pub closed spec fn ctrl_spec(&self) -> u8 {
        self.lcd_control
    }

    pub closed spec fn scx_spec(&self) -> u8 {
        self.scx
    }

    pub closed spec fn scy_spec(&self) -> u8 {
        self.scy
    }

    pub closed spec fn wx_spec(&self) -> u8 {
        self.wx
    }

    pub closed spec fn wy_spec(&self) -> u8 {
        self.wy
    }

    /// The machine-extension state (palettes, second VRAM bank).
    pub closed spec fn ext_spec(&self) -> Ext {
        self.cgb_ext
    }

    /// A background-only frame: background enabled, window and sprites
    /// disabled.
    pub open spec fn bg_only(ctrl: u8) -> bool {
        ctrl & 0x01 != 0 && ctrl & 0x20 == 0 && ctrl & 0x02 == 0
    }

    /// One pixel of the background scanline this state draws at line
    /// `ly` and column `x`.
    pub open spec fn bg_line_pixel(&self, x: int) -> Color {
        scanline_pixel_spec(
            self.ext_spec(),
            self.vram_spec(),
            tiles_of(self.ctrl_spec()),
            bgmap_of(self.ctrl_spec()),
            crate::alu::wadd8(self.ly_spec(), self.scy_spec()),
            crate::alu::wadd8(self.scx_spec(), x as u8),
        ).1
    }

    pub closed spec fn status_spec(&self) -> u8 {
        self.lcd_status
    }

    /// The OAM contents, indexed from 0xfe00.
    pub closed spec fn oam_spec(&self) -> Seq<u8> {
        self.oam@
    }

    /// Whether an HDMA transfer is armed.
    pub closed spec fn hdma_on_spec(&self) -> bool {
        self.hdma.on_spec()
    }

    /// The OAM holds its 160 bytes.
    pub proof fn lemma_oam_len(&self)
        ensures
            self.oam_spec().len() == 0xa0,
    {
    }

    /// The first VRAM bank's contents, indexed from 0x8000.
    pub closed spec fn vram_spec(&self) -> Seq<u8> {
        self.vram@
    }

    pub fn new() -> (r: Self)
        ensures
            r.wf(),
            r.mode_spec() == Mode::Off,
            r.ly_spec() == 0,
            r.lyc_spec() == 0,
            r.ctrl_spec() == 0,
            r.status_spec() == 0,
            r.clocks_spec() == 0,
            r.scx_spec() == 0 && r.scy_spec() == 0 && r.wx_spec() == 0 && r.wy_spec() == 0,
            !r.hdma_on_spec(),
            r.oam_spec() == Seq::new(0xa0, |i: int| 0u8),
            r.vram_spec() == Seq::new(0x2000, |i: int| 0u8),
    {
        let g = Gpu {
            clocks: 0,
            lcd_status: 0,
            mode: Mode::Off,
            ly: 0,
            lyc: 0,
            scy: 0,
            scx: 0,
            wx: 0,
            wy: 0,
            lcd_control: 0,
            vram: [0u8; 0x2000],
            oam: [0u8; 0xa0],
            hdma: Hdma::new(),
            cgb_ext: Ext::new_ext(),
        };
        proof {
            assert(g.oam_spec() =~= Seq::new(0xa0, |i: int| 0u8));
            assert(g.vram_spec() =~= Seq::new(0x2000, |i: int| 0u8));
        }
        g
    }

    /// Advance the PPU by `time` T-cycles: at most one mode transition per
    /// call, with the budgets OAM scan 80, drawing 172, H-blank 204 and a
    /// 456-cycle V-blank line.  Returns any H-blank DMA request and any
    /// finished scanline.
    pub fn step(&mut self, time: usize, irq: &mut crate::ic::Irq) -> (r: (
        Option<crate::dma::DmaRequest>,
        Option<crate::mmu::LineToDraw>,
    ))
        requires
            old(self).wf(),
            1 <= time <= 256,
        ensures
            final(self).wf(),
            final(irq).enable == old(irq).enable,
            final(self).oam_spec() == old(self).oam_spec(),
            final(self).vram_spec() == old(self).vram_spec(),
            final(self).ctrl_spec() == old(self).ctrl_spec(),
            !old(self).hdma_on_spec() ==> r.0 is None && !final(self).hdma_on_spec(),
            // the five transitions of the mode machine
            old(self).mode_spec() == Mode::OamScan && old(self).clocks_spec() <= usize::MAX - 256 ==> if old(self).clocks_spec() + time >= OAM_CYCLES {
                final(self).mode_spec() == Mode::Drawing && final(self).clocks_spec() == old(self).clocks_spec() + time - OAM_CYCLES && final(self).ly_spec() == old(self).ly_spec()
            } else {
                final(self).mode_spec() == Mode::OamScan && final(self).clocks_spec() == old(self).clocks_spec() + time && final(self).ly_spec() == old(self).ly_spec()
            },
            old(self).mode_spec() == Mode::Drawing && old(self).clocks_spec() <= usize::MAX - 256 ==> if old(self).clocks_spec() + time >= DRAW_CYCLES {
                final(self).mode_spec() == Mode::HBlank && final(self).clocks_spec() == old(self).clocks_spec() + time - DRAW_CYCLES && final(self).ly_spec() == old(self).ly_spec()
                && (r.1 is Some <==> old(self).ly_spec() < 144)
                && (r.1 matches Some(line) ==> line.0 == old(self).ly_spec())
                && (r.1 matches Some(line) ==> (Self::bg_only(old(self).ctrl_spec()) ==> forall|x: int|
                    0 <= x < 160 ==> line.1@[x] == old(self).bg_line_pixel(x)))
            } else {
                final(self).mode_spec() == Mode::Drawing && final(self).clocks_spec() == old(self).clocks_spec() + time && r.1 is None && final(self).ly_spec() == old(self).ly_spec()
            },
            old(self).mode_spec() == Mode::HBlank && old(self).clocks_spec() <= usize::MAX - 256 ==> if old(self).clocks_spec() + time >= HBLANK_CYCLES {
                final(self).ly_spec() == crate::alu::wadd8(old(self).ly_spec(), 1)
                && final(self).clocks_spec() == old(self).clocks_spec() + time - HBLANK_CYCLES
                && final(self).mode_spec() == if crate::alu::wadd8(old(self).ly_spec(), 1) > 143 {
                    Mode::VBlank
                } else {
                    Mode::OamScan
                }
            } else {
                final(self).mode_spec() == Mode::HBlank && final(self).clocks_spec() == old(self).clocks_spec() + time && final(self).ly_spec() == old(self).ly_spec()
            },
            old(self).mode_spec() == Mode::VBlank && old(self).clocks_spec() <= usize::MAX - 256 ==> if old(self).clocks_spec() + time >= LINE_CYCLES {
                final(self).clocks_spec() == old(self).clocks_spec() + time - LINE_CYCLES
                && (if crate::alu::wadd8(old(self).ly_spec(), 1) > 153 {
                    final(self).ly_spec() == 0 && final(self).mode_spec() == Mode::OamScan
                } else {
                    final(self).ly_spec() == crate::alu::wadd8(old(self).ly_spec(), 1) && final(self).mode_spec() == Mode::VBlank
                })
            } else {
                final(self).mode_spec() == Mode::VBlank && final(self).clocks_spec() == old(self).clocks_spec() + time && final(self).ly_spec() == old(self).ly_spec()
            },
            old(self).mode_spec() == Mode::Off ==> final(self).mode_spec() == Mode::Off
                && final(self).clocks_spec() == 0 && final(self).ly_spec() == old(self).ly_spec()
                && r.0 is None && r.1 is None,
    {
        let clocks = if self.clocks <= usize::MAX - time {
            self.clocks + time
        } else {
            self.clocks
        };
        let mut draw_line: Option<crate::mmu::LineToDraw> = None;
        let old_mode = self.mode;

        if self.mode == Mode::OamScan && clocks >= OAM_CYCLES {
            self.clocks = clocks - OAM_CYCLES;
            self.mode = Mode::Drawing;
        } else if self.mode == Mode::Drawing && clocks >= DRAW_CYCLES {
            draw_line = self.draw();
            if self.lcd_status & 0x08 != 0 {
                irq.lcd(true);
            }
            self.clocks = clocks - DRAW_CYCLES;
            self.mode = Mode::HBlank;
        } else if self.mode == Mode::HBlank && clocks >= HBLANK_CYCLES {
            self.ly = self.ly.wrapping_add(1);
            if self.ly > 143 {
                irq.vblank(true);
                if self.lcd_status & 0x10 != 0 {
                    irq.lcd(true);
                }
                self.mode = Mode::VBlank;
            } else {
                if self.lcd_status & 0x20 != 0 {
                    irq.lcd(true);
                }
                self.mode = Mode::OamScan;
            }
            self.clocks = clocks - HBLANK_CYCLES;
        } else if self.mode == Mode::VBlank && clocks >= LINE_CYCLES {
            self.ly = self.ly.wrapping_add(1);
            if self.ly > 153 {
                self.ly = 0;
                if self.lcd_status & 0x20 != 0 {
                    irq.lcd(true);
                }
                self.mode = Mode::OamScan;
            }
            self.clocks = clocks - LINE_CYCLES;
        } else if self.mode == Mode::Off {
            self.clocks = 0;
        } else {
            self.clocks = clocks;
        }

        if self.lcd_status & 0x40 != 0 && self.lyc == self.ly {
            irq.lcd(true);
        }

        let enter_hblank = old_mode != Mode::HBlank && self.mode == Mode::HBlank;
        let req = if self.mode == Mode::Off {
            None
        } else {
            self.hdma.run(enter_hblank)
        };
        (req, draw_line)
    }

    /// Render the current scanline: background, then window, then
    /// sprites, each layer overwriting the last.
    fn draw(&self) -> (r: Option<crate::mmu::LineToDraw>)
        requires
            self.wf(),
        ensures
            r is Some <==> self.ly_spec() < 144,
            r matches Some(line) ==> line.0 == self.ly_spec(),
            r matches Some(line) ==> (Self::bg_only(self.ctrl_spec()) ==> forall|x: int|
                0 <= x < 160 ==> line.1@[x] == self.bg_line_pixel(x)),
    {
        if self.ly >= 144 {
            return None;
        }
        let mut buf = [Color::Dmg(DmgColor::White); 160];
        let mut bgbuf = [0u8; 160];
        if self.lcd_control & 0x01 != 0 {
            let tiles: u16 = if self.lcd_control & 0x10 != 0 {
                0x8000
            } else {
                0x8800
            };
            let bgmap: u16 = if self.lcd_control & 0x08 != 0 {
                0x9c00
            } else {
                0x9800
            };
            get_scanline_after_offset(
                &self.cgb_ext,
                self.scx,
                self.ly.wrapping_add(self.scy),
                &self.vram,
                tiles,
                bgmap,
                &mut buf,
                &mut bgbuf,
                true,
            );
            if self.lcd_control & 0x20 != 0 && self.ly >= self.wy {
                let winmap: u16 = if self.lcd_control & 0x40 != 0 {
                    0x9c00
                } else {
                    0x9800
                };
                let wx = if self.wx >= 7 {
                    self.wx - 7
                } else {
                    0
                };
                get_scanline_after_offset(
                    &self.cgb_ext,
                    wx,
                    self.ly - self.wy,
                    &self.vram,
                    tiles,
                    winmap,
                    &mut buf,
                    &mut bgbuf,
                    false,
                );
            }
        }
        if self.lcd_control & 0x02 != 0 {
            self.when_obj_enable(&bgbuf, &mut buf);
        }
        Some((self.ly, buf))
    }

    /// Overlay the sprites that cover the current scanline, in OAM order.
    /// Color index 0 is transparent; a sprite with the priority bit set
    /// loses to any non-zero background pixel.  Every changed pixel is an
    /// opaque pixel of some sprite that won its priority test.
    fn when_obj_enable(&self, bgbuf: &[u8; 160], buf: &mut [Color; 160])
        requires
            self.wf(),
        ensures
            forall|x: int|
                0 <= x < 160 ==> final(buf)@[x] == old(buf)@[x] || (exists|s: int|
                    0 <= s < 40 && sprite_overlays(
                        self.ext_spec(),
                        self.oam_spec(),
                        self.vram_spec(),
                        self.ly_spec(),
                        sp_size_of(self.ctrl_spec()),
                        s,
                        x,
                        bgbuf@[x],
                        final(buf)@[x],
                    )),
    {
        let spsize: u8 = if self.lcd_control & 0x04 != 0 {
            16
        } else {
            8
        };
        let mut s: usize = 0;
        while s < 40
            invariant
                s <= 40,
                self.wf(),
                spsize == sp_size_of(self.ctrl_spec()),
                forall|x: int|
                    0 <= x < 160 ==> buf@[x] == old(buf)@[x] || (exists|s2: int|
                        0 <= s2 < s && sprite_overlays(
                            self.ext_spec(),
                            self.oam_spec(),
                            self.vram_spec(),
                            self.ly_spec(),
                            spsize,
                            s2,
                            x,
                            bgbuf@[x],
                            buf@[x],
                        )),
            decreases 40 - s,
        {
            let ypos = self.oam[s * 4];
            let xpos = self.oam[s * 4 + 1];
            let mut ti = self.oam[s * 4 + 2];
            let attr = self.cgb_ext.get_sp_attr(self.oam[s * 4 + 3]);
            let tyoff0 = self.ly.wrapping_add(16).wrapping_sub(ypos);
            if self.ly.wrapping_add(16) >= ypos && tyoff0 < spsize && xpos != 0 && xpos < 168 {
                let tyoff1 = if attr.yflip {
                    spsize - 1 - tyoff0
                } else {
                    tyoff0
                };
                if spsize == 16 {
                    ti = if tyoff1 >= 8 {
                        ti | 1
                    } else {
                        ti & 0xfe
                    };
                }
                let tyoff = tyoff1 % 8;
                let lo = self.cgb_ext.bank_byte(
                    attr.vram_bank1,
                    &self.vram,
                    (ti as u16) * 16 + (tyoff as u16) * 2,
                );
                let hi = self.cgb_ext.bank_byte(
                    attr.vram_bank1,
                    &self.vram,
                    (ti as u16) * 16 + (tyoff as u16) * 2 + 1,
                );
                let mut sx: u8 = 0;
                while sx < 8
                    invariant
                        sx <= 8,
                        self.wf(),
                        spsize == sp_size_of(self.ctrl_spec()),
                        s < 40,
                        spsize == 8 || spsize == 16,
                        ypos == self.oam_spec()[4 * s],
                        xpos == self.oam_spec()[4 * s + 1],
                        attr == self.ext_spec().sp_attr_spec(self.oam_spec()[4 * s + 3]),
                        crate::alu::wadd8(self.ly_spec(), 16) >= ypos,
                        tyoff0 == crate::alu::wadd8(self.ly_spec(), 16) - ypos,
                        tyoff0 < spsize,
                        1 <= xpos < 168,
                        tyoff1 == (if attr.yflip {
                            (spsize - 1 - tyoff0) as u8
                        } else {
                            tyoff0
                        }),
                        ti == (if spsize == 16 {
                            if tyoff1 >= 8 {
                                self.oam_spec()[4 * s + 2] | 1
                            } else {
                                self.oam_spec()[4 * s + 2] & 0xfe
                            }
                        } else {
                            self.oam_spec()[4 * s + 2]
                        }),
                        tyoff == tyoff1 % 8,
                        lo == self.ext_spec().bank_byte_spec(
                            attr.vram_bank1,
                            self.vram_spec(),
                            ti * 16 + tyoff * 2,
                        ),
                        hi == self.ext_spec().bank_byte_spec(
                            attr.vram_bank1,
                            self.vram_spec(),
                            ti * 16 + tyoff * 2 + 1,
                        ),
                        forall|x: int|
                            0 <= x < 160 ==> buf@[x] == old(buf)@[x] || (exists|s2: int|
                                0 <= s2 <= s && sprite_overlays(
                                    self.ext_spec(),
                                    self.oam_spec(),
                                    self.vram_spec(),
                                    self.ly_spec(),
                                    spsize,
                                    s2,
                                    x,
                                    bgbuf@[x],
                                    buf@[x],
                                )),
                    decreases 8 - sx,
                {
                    // screen column of this sprite pixel
                    let xw: u16 = xpos as u16 + sx as u16;
                    if xw >= 8 && xw < 168 {
                        let x = (xw - 8) as usize;
                        let px = if attr.xflip {
                            7 - sx
                        } else {
                            sx
                        };
                        let coli = color_id(lo, hi, px);
                        if coli != 0 && !(attr.priority && bgbuf[x] != 0) {
                            buf[x] = attr.palette[coli as usize];
                            proof {
                                assert(sprite_overlays(
                                    self.ext_spec(),
                                    self.oam_spec(),
                                    self.vram_spec(),
                                    self.ly_spec(),
                                    spsize,
                                    s as int,
                                    x as int,
                                    bgbuf@[x as int],
                                    buf@[x as int],
                                ));
                            }
                        }
                    }
                    sx = sx + 1;
                }
            }
            s = s + 1;
        }
    }

    /// Write the LCDC register (0xff40).  Turning the LCD on restarts the
    /// mode machine in H-blank; turning it off parks it in the off mode
    /// with LY 0 and withdraws any pending V-blank interrupt.
    pub fn write_ctrl(&mut self, value: u8, irq: &mut crate::ic::Irq)
        requires
            old(self).wf(),
        ensures
            final(self).wf(),
            final(self).ctrl_spec() == value,
            final(irq).enable == old(irq).enable,
            old(self).ctrl_spec() & 0x80 == 0 && value & 0x80 != 0 ==> final(self).mode_spec()
                == Mode::HBlank && final(self).clocks_spec() == 0,
            old(self).ctrl_spec() & 0x80 != 0 && value & 0x80 == 0 ==> final(self).mode_spec()
                == Mode::Off && final(self).ly_spec() == 0,
    {
        if self.lcd_control & 0x80 == 0 && value & 0x80 != 0 {
            self.clocks = 0;
            self.mode = Mode::HBlank;
        } else if self.lcd_control & 0x80 != 0 && value & 0x80 == 0 {
            self.mode = Mode::Off;
            self.ly = 0;
            irq.vblank(false);
        }
        self.lcd_control = value;
    }

    /// Read the LCDC register (0xff40).
    pub fn read_ctrl(&self) -> (r: u8)
        ensures
            r == self.ctrl_spec(),
    {
        self.lcd_control
    }

    /// Write the STAT register (0xff41): only the interrupt-select bits
    /// stick.
    pub fn write_status(&mut self, value: u8)
        ensures
            final(self).status_spec() == value & 0x78,
            final(self).wf() == old(self).wf(),
    {
        self.lcd_status = value & 0x78;
    }

    /// Read the STAT register (0xff41): the interrupt-select bits plus
    /// the current mode in bits 1..0.
    pub fn read_status(&self) -> (r: u8)
        ensures
            r == self.status_spec() | mode_bits(self.mode_spec()),
    {
        self.lcd_status | self.mode_bits_exec()
    }

    fn mode_bits_exec(&self) -> (r: u8)
        ensures
            r == mode_bits(self.mode_spec()),
    {
        match self.mode {
            Mode::HBlank => 0,
            Mode::VBlank => 1,
            Mode::OamScan => 2,
            Mode::Drawing => 3,
            Mode::Off => 0,
        }
    }

    /// Read the OAM region (0xfe00-0xfe9f).
    pub fn read_oam(&self, addr: u16) -> (r: u8)
        requires
            0xfe00 <= addr <= 0xfe9f,
        ensures
            r == self.oam_spec()[addr - 0xfe00],
    {
        self.oam[(addr - 0xfe00) as usize]
    }

    /// Write the OAM region (0xfe00-0xfe9f).
    pub fn write_oam(&mut self, addr: u16, v: u8)
        requires
            old(self).wf(),
            0xfe00 <= addr <= 0xfe9f,
        ensures
            final(self).wf(),
            final(self).oam_spec() == old(self).oam_spec().update(addr - 0xfe00, v),
            final(self).vram_spec() == old(self).vram_spec(),
            final(self).mode_spec() == old(self).mode_spec(),
            final(self).ly_spec() == old(self).ly_spec(),
            final(self).hdma_on_spec() == old(self).hdma_on_spec(),
    {
        self.oam[(addr - 0xfe00) as usize] = v;
    }

    /// Read the VRAM window (0x8000-0x9fff) through the selected bank.
    pub fn read_vram(&self, addr: u16) -> (r: u8)
        requires
            self.wf(),
            0x8000 <= addr <= 0x9fff,
        ensures
            r == self.ext_spec().vram_read_spec(self.vram_spec(), addr as int),
    {
        self.cgb_ext.read_vram(addr, &self.vram)
    }

    /// Write the VRAM window (0x8000-0x9fff) through the selected bank:
    /// afterwards the window reads `v` at `addr` and is otherwise
    /// unchanged.
    pub fn write_vram(&mut self, addr: u16, v: u8)
        requires
            old(self).wf(),
            0x8000 <= addr <= 0x9fff,
        ensures
            final(self).wf(),
            final(self).oam_spec() == old(self).oam_spec(),
            final(self).mode_spec() == old(self).mode_spec(),
            final(self).ly_spec() == old(self).ly_spec(),
            forall|a: int|
                0x8000 <= a <= 0x9fff ==> final(self).ext_spec().vram_read_spec(
                    final(self).vram_spec(),
                    a,
                ) == if a == addr {
                    v
                } else {
                    old(self).ext_spec().vram_read_spec(old(self).vram_spec(), a)
                },
    {
        let mut vram = self.vram;
        self.cgb_ext.write_vram(addr, v, &mut vram);
        self.vram = vram;
    }

    /// Read the SCY register (0xff42).
    pub fn read_scy(&self) -> (r: u8)
        ensures
            r == self.scy_spec(),
    {
        self.scy
    }

    /// Write the SCY register (0xff42).
    pub fn write_scy(&mut self, v: u8)
        requires
            old(self).wf(),
        ensures
            final(self).wf(),
            final(self).scy_spec() == v,
    {
        self.scy = v;
    }

    /// Read the SCX register (0xff43).
    pub fn read_scx(&self) -> (r: u8)
        ensures
            r == self.scx_spec(),
    {
        self.scx
    }

    /// Write the SCX register (0xff43).
    pub fn write_scx(&mut self, v: u8)
        requires
            old(self).wf(),
        ensures
            final(self).wf(),
            final(self).scx_spec() == v,
    {
        self.scx = v;
    }

    /// Read the LY register (0xff44).
    pub fn read_ly(&self) -> (r: u8)
        ensures
            r == self.ly_spec(),
    {
        self.ly
    }

    /// Writing LY clears it.
    pub fn clear_ly(&mut self)
        requires
            old(self).wf(),
        ensures
            final(self).wf(),
            final(self).ly_spec() == 0,
    {
        self.ly = 0;
    }

    /// Read the LYC register (0xff45).
    pub fn read_lyc(&self) -> (r: u8)
        ensures
            r == self.lyc_spec(),
    {
        self.lyc
    }

    /// Write the LYC register (0xff45).
    pub fn write_lyc(&mut self, v: u8)
        requires
            old(self).wf(),
        ensures
            final(self).wf(),
            final(self).lyc_spec() == v,
    {
        self.lyc = v;
    }

    /// Read the WY register (0xff4a).
    pub fn read_wy(&self) -> (r: u8)
        ensures
            r == self.wy_spec(),
    {
        self.wy
    }

    /// Write the WY register (0xff4a).
    pub fn write_wy(&mut self, v: u8)
        requires
            old(self).wf(),
        ensures
            final(self).wf(),
            final(self).wy_spec() == v,
    {
        self.wy = v;
    }

    /// Read the WX register (0xff4b).
    pub fn read_wx(&self) -> (r: u8)
        ensures
            r == self.wx_spec(),
    {
        self.wx
    }

    /// Write the WX register (0xff4b).
    pub fn write_wx(&mut self, v: u8)
        requires
            old(self).wf(),
        ensures
            final(self).wf(),
            final(self).wx_spec() == v,
    {
        self.wx = v;
    }

    /// Read the HDMA1 register (0xff51).
    pub fn read_hdma_src_high(&self) -> u8 {
        self.hdma.read_src_high()
    }

    /// Write the HDMA1 register (0xff51).
    pub fn write_hdma_src_high(&mut self, v: u8)
        requires
            old(self).wf(),
        ensures
            final(self).wf(),
    {
        self.hdma.write_src_high(v);
    }

    /// Read the HDMA2 register (0xff52).
    pub fn read_hdma_src_low(&self) -> u8 {
        self.hdma.read_src_low()
    }

    /// Write the HDMA2 register (0xff52).
    pub fn write_hdma_src_low(&mut self, v: u8)
        requires
            old(self).wf(),
        ensures
            final(self).wf(),
    {
        self.hdma.write_src_low(v);
    }

    /// Read the HDMA3 register (0xff53).
    pub fn read_hdma_dst_high(&self) -> u8 {
        self.hdma.read_dst_high()
    }

    /// Write the HDMA3 register (0xff53).
    pub fn write_hdma_dst_high(&mut self, v: u8)
        requires
            old(self).wf(),
        ensures
            final(self).wf(),
    {
        self.hdma.write_dst_high(v);
    }

    /// Read the HDMA4 register (0xff54).
    pub fn read_hdma_dst_low(&self) -> u8 {
        self.hdma.read_dst_low()
    }

    /// Write the HDMA4 register (0xff54).
    pub fn write_hdma_dst_low(&mut self, v: u8)
        requires
            old(self).wf(),
        ensures
            final(self).wf(),
    {
        self.hdma.write_dst_low(v);
    }

    /// Read the HDMA5 register (0xff55).
    pub fn read_hdma_start(&self) -> u8 {
        self.hdma.status()
    }

    /// Write the HDMA5 register (0xff55).
    pub fn write_hdma_start(&mut self, v: u8)
        requires
            old(self).wf(),
        ensures
            final(self).wf(),
    {
        self.hdma.start(v);
    }

    /// Read the BGP register (0xff47).
    pub fn read_bg_palette(&self) -> (r: u8)
        requires
            self.wf(),
        ensures
            r == self.ext_spec().bg_palette_reg_spec(),
    {
        self.cgb_ext.read_bg_palette()
    }

    /// Write the BGP register (0xff47): on DMG it reads back unchanged.
    pub fn write_bg_palette(&mut self, v: u8)
        requires
            old(self).wf(),
        ensures
            final(self).wf(),
            final(self).ext_spec().bg_palette_reg_spec() == old(
                self,
            ).ext_spec().bg_palette_wrote_spec(v),
    {
        self.cgb_ext.write_bg_palette(v);
    }

    /// Read the OBP0 register (0xff48).
    pub fn read_obj_palette0(&self) -> (r: u8)
        requires
            self.wf(),
        ensures
            r == self.ext_spec().obj_palette0_reg_spec(),
    {
        self.cgb_ext.read_obj_palette0()
    }

    /// Write the OBP0 register (0xff48): on DMG it reads back unchanged.
    pub fn write_obj_palette0(&mut self, v: u8)
        requires
            old(self).wf(),
        ensures
            final(self).wf(),
            final(self).ext_spec().obj_palette0_reg_spec() == old(
                self,
            ).ext_spec().obj_palette0_wrote_spec(v),
    {
        self.cgb_ext.write_obj_palette0(v);
    }

    /// Read the OBP1 register (0xff49).
    pub fn read_obj_palette1(&self) -> (r: u8)
        requires
            self.wf(),
        ensures
            r == self.ext_spec().obj_palette1_reg_spec(),
    {
        self.cgb_ext.read_obj_palette1()
    }

    /// Write the OBP1 register (0xff49): on DMG it reads back unchanged.
    pub fn write_obj_palette1(&mut self, v: u8)
        requires
            old(self).wf(),
        ensures
            final(self).wf(),
            final(self).ext_spec().obj_palette1_reg_spec() == old(
                self,
            ).ext_spec().obj_palette1_wrote_spec(v),
    {
        self.cgb_ext.write_obj_palette1(v);
    }

    /// Read the VBK register (0xff4f).
    pub fn read_vram_bank_select(&self) -> (r: u8)
        requires
            self.wf(),
        ensures
            r == self.ext_spec().vbk_reg_spec(),
    {
        self.cgb_ext.read_vram_bank_select()
    }

    /// Write the VBK register (0xff4f): only the low bit sticks.
    pub fn select_vram_bank(&mut self, v: u8)
        requires
            old(self).wf(),
        ensures
            final(self).wf(),
            final(self).ext_spec().vbk_reg_spec() == old(self).ext_spec().vbk_wrote_spec(v),
    {
        self.cgb_ext.select_vram_bank(v);
    }

    /// Write the BCPS register (0xff68).
    pub fn select_bg_color_palette(&mut self, v: u8)
        requires
            old(self).wf(),
        ensures
            final(self).wf(),
    {
        self.cgb_ext.select_bg_color_palette(v);
    }

    /// Read the BCPD register (0xff69).
    pub fn read_bg_color_palette(&self) -> u8
        requires
            self.wf(),
    {
        self.cgb_ext.read_bg_color_palette()
    }

    /// Write the BCPD register (0xff69).
    pub fn write_bg_color_palette(&mut self, v: u8)
        requires
            old(self).wf(),
        ensures
            final(self).wf(),
    {
        self.cgb_ext.write_bg_color_palette(v);
    }

    /// Write the OCPS register (0xff6a).
    pub fn select_obj_color_palette(&mut self, v: u8)
        requires
            old(self).wf(),
        ensures
            final(self).wf(),
    {
        self.cgb_ext.select_obj_color_palette(v);
    }

    /// Read the OCPD register (0xff6b).
    pub fn read_obj_color_palette(&self) -> u8
        requires
            self.wf(),
    {
        self.cgb_ext.read_obj_color_palette()
    }

    /// Write the OCPD register (0xff6b).
    pub fn write_obj_color_palette(&mut self, v: u8)
        requires
            old(self).wf(),
        ensures
            final(self).wf(),
    {
        self.cgb_ext.write_obj_color_palette(v);
    }
}

} // verus!
