use vstd::prelude::*;
use crate::mmu::{Mmu, OAM_ADDRESS};

verus! {

/// Sprite attribute bit: VRAM bank of the tile data (CGB).
pub const SPRITE_BANK: u8 = 0x08;
/// Sprite attribute bit: OBP1 instead of OBP0 (DMG).
pub const SPRITE_DMG_PALETTE: u8 = 0x10;
/// Sprite attribute bit: horizontal flip.
pub const SPRITE_FLIP_X: u8 = 0x20;
/// Sprite attribute bit: vertical flip.
pub const SPRITE_FLIP_Y: u8 = 0x40;
/// Sprite attribute bit: background colours 1-3 over the sprite.
pub const SPRITE_PRIORITY: u8 = 0x80;
/// Number of OAM records.
pub const OAM_SPRITES: u16 = 40;

/// One OAM record.
#[derive(Debug, Clone, Copy, PartialEq, Eq, Structural)]
pub struct Sprite {
    /// Top edge plus 16.
    pub y: u8,
    /// Left edge plus 8.
    pub x: u8,
    pub tile_index: u8,
    pub attributes: u8,
    pub oam_addr: u16,
}

/// OAM record `index` as it stands in memory.
pub open spec fn oam_sprite(mmu: &Mmu, index: int) -> Sprite {
    let a = OAM_ADDRESS + index * 4;
    Sprite {
        y: mmu.mem(a),
        x: mmu.mem(a + 1),
        tile_index: mmu.mem(a + 2),
        attributes: mmu.mem(a + 3),
        oam_addr: a as u16,
    }
}

impl Sprite {
    /// Whether the sprite, `height` pixels tall, spans scanline `ly`.
    pub open spec fn on_line(self, ly: int, height: int) -> bool {
        self.y as int - 16 <= ly < self.y as int - 16 + height
    }

    /// Whether the sprite's 8 columns include screen column `px`.
    pub open spec fn on_column(self, px: int) -> bool {
        self.x as int - 8 <= px < self.x as int
    }

    pub fn from_oam(mmu: &Mmu, index: u16) -> (r: Sprite)
        requires
            mmu.wf(),
            index < OAM_SPRITES,
        ensures
            r == oam_sprite(mmu, index as int),
    {
        let a = OAM_ADDRESS + index * 4;
        Sprite {
            y: mmu.read_from_vram(a, 0),
            x: mmu.read_from_vram(a + 1, 0),
            tile_index: mmu.read_from_vram(a + 2, 0),
            attributes: mmu.read_from_vram(a + 3, 0),
            oam_addr: a,
        }
    }

    pub fn is_on_line(&self, ly: u8, height: u8) -> (r: bool)
        ensures
            r == self.on_line(ly as int, height as int),
    {
        self.y as u16 <= ly as u16 + 16 && (ly as u16 + 16) < self.y as u16 + height as u16
    }

    pub fn is_on_column(&self, px: u8) -> (r: bool)
        ensures
            r == self.on_column(px as int),
    {
        self.x as u16 <= px as u16 + 8 && (px as u16) < self.x as u16
    }
}

/// A sprite with x = 0 or x >= 168 covers no screen column, and one with y = 0 or
/// y >= 160 covers no visible scanline, whether 8 or 16 pixels tall.
pub proof fn lemma_offscreen_sprites_invisible(s: Sprite, px: int, ly: int, height: int)
    requires
        0 <= px < 160,
        0 <= ly < 144,
        height == 8 || height == 16,
    ensures
        s.x == 0 || s.x >= 168 ==> !s.on_column(px),
        s.y == 0 || s.y >= 160 ==> !s.on_line(ly, height),
{
}

} // verus!
