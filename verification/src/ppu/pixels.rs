//! Tiles, palettes and the composition of one pixel.
use crate::bits::lemma_and_le_u8;
use vstd::prelude::*;

verus! {

/// A pixel in a queue of the fetcher.
#[derive(Debug, Clone, Copy, PartialEq, Eq, Structural)]
pub struct FifoPixel {
    /// Colour number within the tile, 0..=3.
    pub color: u8,
    /// For an object pixel: the background goes in front unless its colour is 0.
    pub bg_priority: bool,
    /// For an object pixel: the palette register of the object.
    pub palette: u8,
}

impl Default for FifoPixel {
    fn default() -> (r: FifoPixel)
        ensures
            r == (FifoPixel { color: 0, bg_priority: false, palette: 0 }),
    {
        FifoPixel { color: 0, bg_priority: false, palette: 0 }
    }
}

/// Width of the picture in pixels.
pub const WIDTH: usize = 160;

/// Height of the picture in lines.
pub const HEIGHT: usize = 144;

/// Place in the tile data of tile `tile`: with bit 4 of `lcdc` the tiles are
/// numbered 0..=255 from `0000`, without it -128..=127 from `1000`.
pub open spec fn tiledata_addr_spec(lcdc: u8, tile: u8) -> int {
    if lcdc & 0x10 != 0 {
        tile * 16
    } else if tile < 128 {
        0x1000 + tile * 16
    } else {
        0x1000 - (256 - tile) * 16
    }
}

/// Place in video memory of the tile map: `1C00` if the bit of `lcdc` that selects
/// the map of the layer is set (bit 3 for the background, bit 6 for the window),
/// else `1800`.
pub open spec fn tilemap_base_spec(lcdc: u8, in_window: bool) -> int {
    if (lcdc & 0x08 != 0 && !in_window) || (lcdc & 0x40 != 0 && in_window) {
        0x1c00
    } else {
        0x1800
    }
}

/// Colour number of pixel `k` (0 is leftmost) of a tile row with low bit plane `lo`
/// and high bit plane `hi`; `flip` mirrors the row.
pub open spec fn pixel_color_spec(lo: u8, hi: u8, k: u8, flip: bool) -> u8 {
    let b: u8 = if flip {
        k
    } else {
        (7 - k) as u8
    };
    (((hi >> b) & 1) * 2 + ((lo >> b) & 1)) as u8
}

/// The shade that palette register `palette` gives colour number `color`.
pub open spec fn shade_spec(palette: u8, color: u8) -> u8 {
    (palette >> (((color % 4) * 2) as u8)) & 3
}

/// The shade of one pixel of the picture.  An object pixel shows unless it is
/// transparent (colour 0) or yields to a background pixel that is not colour 0;
/// else the background shows, as colour 0 when bit 0 of `lcdc` switches it off.
pub open spec fn compose_spec(bg: FifoPixel, ob: Option<FifoPixel>, lcdc: u8, bgp: u8) -> u8 {
    if ob is Some && ob->0.color != 0 && (!ob->0.bg_priority || bg.color == 0) {
        shade_spec(ob->0.palette, ob->0.color)
    } else if lcdc & 1 != 0 {
        shade_spec(bgp, bg.color)
    } else {
        shade_spec(bgp, 0)
    }
}

/// A shade is a number of 0..=3.
pub proof fn lemma_shade_range(palette: u8, color: u8)
    ensures
        shade_spec(palette, color) <= 3,
{
    lemma_and_le_u8(palette >> (((color % 4) * 2) as u8), 3);
}

/// Every composed pixel is a shade of 0..=3.
pub proof fn lemma_compose_range(bg: FifoPixel, ob: Option<FifoPixel>, lcdc: u8, bgp: u8)
    ensures
        compose_spec(bg, ob, lcdc, bgp) <= 3,
{
    lemma_shade_range(bgp, bg.color);
    lemma_shade_range(bgp, 0);
    if ob is Some {
        lemma_shade_range(ob->0.palette, ob->0.color);
    }
}

/// Place in the tile data of tile `tile`.
pub fn get_tiledata_addr(lcdc: u8, tile: u8) -> (r: usize)
    ensures
        r == tiledata_addr_spec(lcdc, tile),
        r + 16 <= 0x2000,
{
    if lcdc & 0x10 != 0 {
        tile as usize * 16
    } else if tile < 128 {
        0x1000 + tile as usize * 16
    } else {
        0x1000 - (256 - tile as usize) * 16
    }
}

/// Place in video memory of the tile map of a layer.
pub fn tilemap_base(lcdc: u8, in_window: bool) -> (r: usize)
    ensures
        r == tilemap_base_spec(lcdc, in_window),
        r + 0x400 <= 0x2000,
{
    if (lcdc & 0x08 != 0 && !in_window) || (lcdc & 0x40 != 0 && in_window) {
        0x1c00
    } else {
        0x1800
    }
}

/// Colour number of pixel `k` of a tile row.
pub fn pixel_color(lo: u8, hi: u8, k: u8, flip: bool) -> (r: u8)
    requires
        k < 8,
    ensures
        r == pixel_color_spec(lo, hi, k, flip),
        r <= 3,
{
    let b: u8 = if flip {
        k
    } else {
        7 - k
    };
    proof {
        lemma_and_le_u8(hi >> b, 1);
        lemma_and_le_u8(lo >> b, 1);
    }
    ((hi >> b) & 1) * 2 + ((lo >> b) & 1)
}

/// The shade that a palette register gives a colour number.
pub fn shade(palette: u8, color: u8) -> (r: u8)
    ensures
        r == shade_spec(palette, color),
        r <= 3,
{
    proof {
        lemma_shade_range(palette, color);
    }
    (palette >> ((color % 4) * 2)) & 3
}

/// The shade of one pixel of the picture.
pub fn compose(bg: FifoPixel, ob: Option<FifoPixel>, lcdc: u8, bgp: u8) -> (r: u8)
    ensures
        r == compose_spec(bg, ob, lcdc, bgp),
        r <= 3,
{
    match ob {
        Some(c) => {
            if c.color != 0 && (!c.bg_priority || bg.color == 0) {
                return shade(c.palette, c.color);
            }
        },
        None => {},
    }
    if lcdc & 1 != 0 {
        shade(bgp, bg.color)
    } else {
        shade(bgp, 0)
    }
}

} // verus!
