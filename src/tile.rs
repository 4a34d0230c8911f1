use vstd::prelude::*;
use crate::gameboy::Mode;
use crate::mmu::{Mmu, BG_PALETTE_REGISTER};
use crate::palette::Palette;

verus! {

/// Tile attribute bit: VRAM bank of the tile data (CGB).
pub const TILE_BANK: u8 = 0x08;
/// Tile attribute bit: horizontal flip.
pub const TILE_FLIP_X: u8 = 0x20;
/// Tile attribute bit: vertical flip.
pub const TILE_FLIP_Y: u8 = 0x40;
/// Tile attribute bit: background over sprites.
pub const TILE_PRIORITY: u8 = 0x80;

/// The 2-bit colour index of column `col` in a tile row stored as bytes `lo`, `hi`:
/// bit `7 - col` of `hi` is the high bit, of `lo` the low bit.
pub open spec fn tile_color(lo: u8, hi: u8, col: u8) -> u8 {
    (((hi >> (7 - col) as u8) & 1u8) * 2 + ((lo >> (7 - col) as u8) & 1u8)) as u8
}

/// Address of the 16 data bytes of tile `index`: the unsigned table at 0x8000, or the
/// signed table centred at 0x9000.
pub open spec fn tile_address(index: u8, unsigned_table: bool) -> u16 {
    if unsigned_table || index >= 128 {
        (0x8000 + index as int * 16) as u16
    } else {
        (0x9000 + index as int * 16) as u16
    }
}

/// The byte at VRAM address `addr` of `bank`.
pub open spec fn vram_at(mmu: &Mmu, addr: int, bank: u8) -> u8 {
    if bank == 0 {
        mmu.mem(addr)
    } else {
        mmu.cgb_vram_bank1@[addr - 0x8000]
    }
}

/// Colour index of pixel (`row`, `col`) of the tile whose data starts at `base` in `bank`.
pub open spec fn tile_pixel(mmu: &Mmu, base: u16, bank: u8, row: u8, col: u8) -> u8 {
    tile_color(
        vram_at(mmu, base + row * 2, bank),
        vram_at(mmu, base + row * 2 + 1, bank),
        col,
    )
}

pub fn sample_color(lo: u8, hi: u8, col: u8) -> (r: u8)
    requires
        col < 8,
    ensures
        r == tile_color(lo, hi, col),
        r < 4,
{
    let shift = 7 - col;
    let h = (hi >> shift) & 1u8;
    let l = (lo >> shift) & 1u8;
    assert(h <= 1 && l <= 1) by (bit_vector)
        requires
            h == (hi >> shift) & 1u8,
            l == (lo >> shift) & 1u8,
    ;
    h * 2 + l
}

pub fn tile_data_address(index: u8, unsigned_table: bool) -> (r: u16)
    ensures
        r == tile_address(index, unsigned_table),
        0x8000 <= r <= 0x97f0,
{
    if unsigned_table || index >= 128 {
        0x8000 + index as u16 * 16
    } else {
        0x9000 + index as u16 * 16
    }
}

/// Colour index of pixel (`row`, `col`) of the tile at `base` in VRAM `bank`.
pub fn fetch_tile_pixel(mmu: &Mmu, base: u16, bank: u8, row: u8, col: u8) -> (r: u8)
    requires
        mmu.wf(),
        0x8000 <= base <= 0x9ff0,
        row < 8,
        col < 8,
    ensures
        r == tile_pixel(mmu, base, bank, row, col),
        r < 4,
{
    let lo = mmu.read_from_vram(base + row as u16 * 2, bank);
    let hi = mmu.read_from_vram(base + row as u16 * 2 + 1, bank);
    sample_color(lo, hi, col)
}

/// The 64 pixels, row-major, of the tile at `address` decoded as background colours.
pub open spec fn tile_pixels(mmu: &Mmu, address: u16, mode: Mode, attributes: u8) -> Seq<Palette> {
    Seq::new(
        64,
        |i: int|
            Palette::from_background_spec(
                tile_pixel(mmu, address, if attributes & TILE_BANK != 0 { 1u8 } else { 0u8 }, (i / 8) as u8, (i % 8) as u8),
                mode,
                mmu.mem(BG_PALETTE_REGISTER as int),
                mmu.cgb_cram,
                attributes,
            ),
    )
}

/// A decoded 8x8 tile, row-major, with the attribute byte it was decoded under.
pub struct Tile {
    pub pixels: Vec<Palette>,
    pub attributes: u8,
}

impl Tile {
    /// Decodes the tile at `address` as background colours; the data come from VRAM bank
    /// 1 when `attributes` has the bank bit.
    pub fn from(mmu: &Mmu, address: u16, mode: Mode, attributes: u8) -> (r: Tile)
        requires
            mmu.wf(),
            0x8000 <= address <= 0x9ff0,
        ensures
            r.attributes == attributes,
            r.pixels@ == tile_pixels(mmu, address, mode, attributes),
            r.pixels@.len() == 64,
            forall|i: int|
                0 <= i < 64 ==> #[trigger] r.pixels@[i] == Palette::from_background_spec(
                    tile_pixel(mmu, address, if attributes & TILE_BANK != 0 { 1u8 } else { 0u8 }, (i / 8) as u8, (i % 8) as u8),
                    mode,
                    mmu.mem(BG_PALETTE_REGISTER as int),
                    mmu.cgb_cram,
                    attributes,
                ),
    {
        let bank: u8 = if attributes & TILE_BANK != 0 {
            1
        } else {
            0
        };
        let shades = mmu.memory[BG_PALETTE_REGISTER as usize];
        let mut pixels: Vec<Palette> = Vec::new();
        let mut row: u8 = 0;
        while row < 8
            invariant
                mmu.wf(),
                0x8000 <= address <= 0x9ff0,
                row <= 8,
                shades == mmu.mem(BG_PALETTE_REGISTER as int),
                bank == (if attributes & TILE_BANK != 0 { 1u8 } else { 0u8 }),
                pixels@.len() == row * 8,
                forall|i: int|
                    0 <= i < row * 8 ==> #[trigger] pixels@[i] == Palette::from_background_spec(
                        tile_pixel(mmu, address, bank, (i / 8) as u8, (i % 8) as u8),
                        mode,
                        shades,
                        mmu.cgb_cram,
                        attributes,
                    ),
            decreases 8 - row,
        {
            let mut col: u8 = 0;
            while col < 8
                invariant
                    mmu.wf(),
                    0x8000 <= address <= 0x9ff0,
                    row < 8,
                    col <= 8,
                    shades == mmu.mem(BG_PALETTE_REGISTER as int),
                    pixels@.len() == row * 8 + col,
                    forall|i: int|
                        0 <= i < row * 8 + col ==> #[trigger] pixels@[i] == Palette::from_background_spec(
                            tile_pixel(mmu, address, bank, (i / 8) as u8, (i % 8) as u8),
                            mode,
                            shades,
                            mmu.cgb_cram,
                            attributes,
                        ),
                decreases 8 - col,
            {
                let color = fetch_tile_pixel(mmu, address, bank, row, col);
                pixels.push(Palette::from_background(color, mode, shades, &mmu.cgb_cram, attributes));
                proof {
                    let k = row * 8 + col;
                    assert(k / 8 == row as int && k % 8 == col as int) by (nonlinear_arith)
                        requires k == row * 8 + col, col < 8;
                }
                col = col + 1;
            }
            row = row + 1;
        }
        assert(pixels@ =~= tile_pixels(mmu, address, mode, attributes));
        Tile { pixels, attributes }
    }
}

} // verus!
