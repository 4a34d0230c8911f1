use vstd::prelude::*;
use crate::gameboy::Mode;
use crate::irq::{STAT_BIT, VBLANK_BIT};
use crate::mmu::{
    Mmu, BG_PALETTE_REGISTER, INTERRUPT_FLAGS_REGISTER, LCD_CONTROL_REGISTER, LCD_STATUS_REGISTER,
    OBJ0_PALETTE_REGISTER, OBJ1_PALETTE_REGISTER, SCANLINE_Y_COMPARE_REGISTER, SCANLINE_Y_REGISTER,
    SCROLL_X_REGISTER, SCROLL_Y_REGISTER, WINDOW_X_REGISTER, WINDOW_Y_REGISTER,
};
use crate::palette::Palette;
use crate::sprite::{
    oam_sprite, Sprite, OAM_SPRITES, SPRITE_BANK, SPRITE_DMG_PALETTE, SPRITE_FLIP_X, SPRITE_FLIP_Y,
    SPRITE_PRIORITY,
};
use crate::state::State;
use crate::tile::{
    fetch_tile_pixel, tile_address, tile_data_address, tile_pixel, tile_pixels, Tile, TILE_BANK,
    TILE_FLIP_X, TILE_FLIP_Y, TILE_PRIORITY,
};

verus! {

pub const SCREEN_WIDTH: usize = 160;
pub const SCREEN_HEIGHT: usize = 144;
/// T-cycles of OAM scan.
pub const OAM_SCAN_CYCLES: usize = 80;
/// T-cycles of pixel transfer.
pub const DRAWING_CYCLES: usize = 172;
/// T-cycles of horizontal blank.
pub const HBLANK_CYCLES: usize = 204;
/// T-cycles of one scanline.
pub const LINE_CYCLES: usize = 456;
/// Scanlines per frame, the ten of vertical blank included.
pub const LINES_PER_FRAME: u8 = 154;
/// Tiles in the tile data area 0x8000..0x97ff.
pub const TILESET_SIZE: usize = 384;
/// Entries in one 32x32 tile map.
pub const BACKGROUND_MAP_SIZE: usize = 1024;
/// Most sprites drawn on one scanline.
pub const MAX_SPRITES_PER_LINE: usize = 10;

/// LCDC bits.
pub const LCDC_BG_ENABLE: u8 = 0x01;
pub const LCDC_OBJ_ENABLE: u8 = 0x02;
pub const LCDC_OBJ_SIZE: u8 = 0x04;
pub const LCDC_BG_MAP: u8 = 0x08;
pub const LCDC_TILE_DATA: u8 = 0x10;
pub const LCDC_WINDOW_ENABLE: u8 = 0x20;
pub const LCDC_WINDOW_MAP: u8 = 0x40;
pub const LCDC_LCD_ENABLE: u8 = 0x80;

/// STAT bits.
pub const STAT_LYC_EQUAL: u8 = 0x04;
pub const STAT_MODE0_INTERRUPT: u8 = 0x08;
pub const STAT_MODE1_INTERRUPT: u8 = 0x10;
pub const STAT_MODE2_INTERRUPT: u8 = 0x20;
pub const STAT_LYC_INTERRUPT: u8 = 0x40;

/// How long the PPU stays in a phase before the next transition.
pub open spec fn phase_duration(state: State) -> nat {
    match state {
        State::OamScan => 80,
        State::Drawing => 172,
        State::HBlank => 204,
        State::VBlank => 456,
    }
}

/// The phase and LY after the transition out of `state` on line `ly`.
pub open spec fn next_position(state: State, ly: u8) -> (State, u8) {
    match state {
        State::OamScan => (State::Drawing, ly),
        State::Drawing => (State::HBlank, ly),
        State::HBlank => if ly >= 143 {
            (State::VBlank, 144u8)
        } else {
            (State::OamScan, (ly + 1) as u8)
        },
        State::VBlank => if ly >= 153 {
            (State::OamScan, 0u8)
        } else {
            (State::VBlank, (ly + 1) as u8)
        },
    }
}

/// T-cycles from the start of `state` on line `ly` until LY next wraps to 0.
pub open spec fn cycles_to_frame_end(state: State, ly: u8) -> nat
    decreases 154 - ly, match state {
        State::OamScan => 3nat,
        State::Drawing => 2nat,
        State::HBlank => 1nat,
        State::VBlank => 0nat,
    },
{
    if ly >= 154 {
        0
    } else {
        let (s, l) = next_position(state, ly);
        if state == State::VBlank && ly >= 153 {
            phase_duration(state)
        } else if l > ly || (l == ly && state != State::VBlank) {
            phase_duration(state) + cycles_to_frame_end(s, l)
        } else {
            0
        }
    }
}

/// IF bits raised by the transition out of `state` on line `ly`, given STAT and LYC.
pub open spec fn raised_interrupts(state: State, ly: u8, stat: u8, lyc: u8) -> u8 {
    let (s, l) = next_position(state, ly);
    let mode = match state {
        State::OamScan => 0u8,
        State::Drawing => if stat & STAT_MODE0_INTERRUPT != 0 { STAT_BIT } else { 0u8 },
        State::HBlank => if s == State::VBlank {
            VBLANK_BIT | (if stat & STAT_MODE1_INTERRUPT != 0 { STAT_BIT } else { 0u8 })
        } else if stat & STAT_MODE2_INTERRUPT != 0 {
            STAT_BIT
        } else {
            0u8
        },
        State::VBlank => if s == State::OamScan && stat & STAT_MODE2_INTERRUPT != 0 {
            STAT_BIT
        } else {
            0u8
        },
    };
    let lyc_hit = (state == State::HBlank || state == State::VBlank) && stat & STAT_LYC_INTERRUPT != 0
        && (l == lyc || (l == 153 && lyc == 0));
    mode | (if lyc_hit { STAT_BIT } else { 0u8 })
}

proof fn lemma_vblank_lines(ly: u8)
    requires
        144 <= ly <= 153,
    ensures
        cycles_to_frame_end(State::VBlank, ly) == 456 * (154 - ly),
    decreases 154 - ly,
{
    if ly < 153 {
        lemma_vblank_lines((ly + 1) as u8);
    }
}

proof fn lemma_visible_lines(ly: u8)
    requires
        ly <= 143,
    ensures
        cycles_to_frame_end(State::OamScan, ly) == 456 * (154 - ly),
    decreases 143 - ly,
{
    if ly < 143 {
        lemma_visible_lines((ly + 1) as u8);
        assert(cycles_to_frame_end(State::HBlank, ly) == 204 + cycles_to_frame_end(State::OamScan, (ly + 1) as u8));
    } else {
        lemma_vblank_lines(144);
        assert(cycles_to_frame_end(State::HBlank, ly) == 204 + cycles_to_frame_end(State::VBlank, 144));
    }
    assert(cycles_to_frame_end(State::Drawing, ly) == 172 + cycles_to_frame_end(State::HBlank, ly));
    assert(cycles_to_frame_end(State::OamScan, ly) == 80 + cycles_to_frame_end(State::Drawing, ly));
}

/// A visible scanline's phases last 80 + 172 + 204 = 456 T-cycles, as does each
/// vertical-blank line; a frame has 154 lines, and LY wraps from 153 to 0 once every
/// 70224 T-cycles.
pub proof fn lemma_frame_timing()
    ensures
        phase_duration(State::OamScan) + phase_duration(State::Drawing) + phase_duration(State::HBlank)
            == 456,
        phase_duration(State::VBlank) == 456,
        cycles_to_frame_end(State::OamScan, 0) == 70224,
        70224 == 154 * 456,
{
    lemma_visible_lines(0);
}

/// Background pixel and its tile attributes at screen (`x`, `y`).
pub open spec fn background_pixel(mmu: &Mmu, mode: Mode, x: int, y: int) -> (Palette, u8) {
    let lcdc = mmu.mem(LCD_CONTROL_REGISTER as int);
    let bgp = mmu.mem(BG_PALETTE_REGISTER as int);
    if lcdc & LCDC_BG_ENABLE == 0 && mode == Mode::Dmg {
        (Palette::from_background_spec(0, mode, bgp, mmu.cgb_cram, 0), 0u8)
    } else {
        let px = (x + mmu.mem(SCROLL_X_REGISTER as int)) % 256;
        let py = (y + mmu.mem(SCROLL_Y_REGISTER as int)) % 256;
        let map: int = if lcdc & LCDC_BG_MAP != 0 { 0x9c00 } else { 0x9800 };
        map_pixel(mmu, mode, map + (py / 8) * 32 + px / 8, px % 8, py % 8)
    }
}

/// Pixel (`col`, `row`) of the tile named at tile-map address `maddr`, translated.
pub open spec fn map_pixel(mmu: &Mmu, mode: Mode, maddr: int, col: int, row: int) -> (Palette, u8) {
    let lcdc = mmu.mem(LCD_CONTROL_REGISTER as int);
    let index = mmu.mem(maddr);
    let attrs = if mode == Mode::Cgb { mmu.cgb_vram_bank1@[maddr - 0x8000] } else { 0u8 };
    let c = if mode == Mode::Cgb && attrs & TILE_FLIP_X != 0 { 7 - col } else { col };
    let r = if mode == Mode::Cgb && attrs & TILE_FLIP_Y != 0 { 7 - row } else { row };
    let bank = if mode == Mode::Cgb && attrs & TILE_BANK != 0 { 1u8 } else { 0u8 };
    let color = tile_pixel(mmu, tile_address(index, lcdc & LCDC_TILE_DATA != 0), bank, r as u8, c as u8);
    (
        Palette::from_background_spec(color, mode, mmu.mem(BG_PALETTE_REGISTER as int), mmu.cgb_cram, attrs),
        attrs,
    )
}

/// Window pixel and its tile attributes at screen (`x`, `y`), with the window line counter
/// `wline`; transparent where the window does not cover the pixel.
pub open spec fn window_pixel(mmu: &Mmu, mode: Mode, x: int, y: int, wline: int) -> (Palette, u8) {
    let lcdc = mmu.mem(LCD_CONTROL_REGISTER as int);
    let wy = mmu.mem(WINDOW_Y_REGISTER as int);
    let wx = mmu.mem(WINDOW_X_REGISTER as int);
    if (lcdc & LCDC_BG_ENABLE == 0 && mode == Mode::Dmg) || lcdc & LCDC_WINDOW_ENABLE == 0 || y < wy || x + 7 < wx {
        (Palette::Transparent(0), 0u8)
    } else {
        let wxp = x + 7 - wx;
        let map: int = if lcdc & LCDC_WINDOW_MAP != 0 { 0x9c00 } else { 0x9800 };
        map_pixel(mmu, mode, map + ((wline % 256) / 8) * 32 + wxp / 8, wxp % 8, wline % 8)
    }
}

/// Colour index of sprite `s`, `height` tall, at screen (`px`, `ly`), which it covers.
pub open spec fn sprite_color(mmu: &Mmu, mode: Mode, s: Sprite, px: int, ly: int, height: int) -> u8 {
    let row0 = ly - (s.y - 16);
    let col0 = px - (s.x - 8);
    let row = if s.attributes & SPRITE_FLIP_Y != 0 { height - 1 - row0 } else { row0 };
    let col = if s.attributes & SPRITE_FLIP_X != 0 { 7 - col0 } else { col0 };
    let index: int = if height == 16 {
        (s.tile_index & 0xfe) + if row >= 8 { 1int } else { 0 }
    } else {
        s.tile_index as int
    };
    let bank = if mode == Mode::Cgb && s.attributes & SPRITE_BANK != 0 { 1u8 } else { 0u8 };
    tile_pixel(mmu, (0x8000 + index * 16) as u16, bank, (row % 8) as u8, col as u8)
}

/// Whether sprite `s` shows a non-transparent pixel at (`px`, `ly`).
pub open spec fn sprite_candidate(mmu: &Mmu, mode: Mode, s: Sprite, px: int, ly: int, height: int) -> bool {
    s.on_column(px) && s.on_line(ly, height) && sprite_color(mmu, mode, s, px, ly, height) != 0
}

/// Position in `list` (first `n` entries) of the sprite drawn at (`px`, `ly`): on CGB the
/// first candidate, on DMG the candidate with the lowest x, the earliest on ties.
pub open spec fn chosen_sprite(mmu: &Mmu, mode: Mode, list: Seq<Sprite>, n: int, px: int, ly: int, height: int) -> Option<int>
    decreases n,
{
    if n <= 0 {
        None
    } else {
        let prev = chosen_sprite(mmu, mode, list, n - 1, px, ly, height);
        let s = list[n - 1];
        if sprite_candidate(mmu, mode, s, px, ly, height) && (prev is None || (mode == Mode::Dmg && s.x
            < list[prev->Some_0].x)) {
            Some(n - 1)
        } else {
            prev
        }
    }
}

/// The sprites among the first `n` OAM records that span scanline `ly`, in OAM order.
pub open spec fn line_sprites(mmu: &Mmu, n: int, ly: int, height: int) -> Seq<Sprite>
    decreases n,
{
    if n <= 0 {
        Seq::empty()
    } else {
        let prev = line_sprites(mmu, n - 1, ly, height);
        if oam_sprite(mmu, n - 1).on_line(ly, height) {
            prev.push(oam_sprite(mmu, n - 1))
        } else {
            prev
        }
    }
}

pub open spec fn widen(o: Option<usize>) -> Option<int> {
    match o {
        Some(v) => Some(v as int),
        None => None,
    }
}

/// At most the first ten entries of `s`.
pub open spec fn first_ten(s: Seq<Sprite>) -> Seq<Sprite> {
    if s.len() <= 10 {
        s
    } else {
        s.take(10)
    }
}

/// The pixel at (`x`, `ly`) given the scanline's sprite list: white while the LCD is off,
/// else the layers composited.
pub open spec fn composite_pixel(mmu: &Mmu, mode: Mode, list: Seq<Sprite>, x: int, ly: int, wline: int) -> Palette {
    if mmu.mem(LCD_CONTROL_REGISTER as int) & LCDC_LCD_ENABLE == 0 {
        Palette::White(0)
    } else {
        layered_pixel(mmu, mode, list, x, ly, wline)
    }
}

/// Background, window and the chosen sprite composited at (`x`, `ly`).
pub open spec fn layered_pixel(mmu: &Mmu, mode: Mode, list: Seq<Sprite>, x: int, ly: int, wline: int) -> Palette {
    let lcdc = mmu.mem(LCD_CONTROL_REGISTER as int);
    let height: int = if lcdc & LCDC_OBJ_SIZE != 0 { 16 } else { 8 };
    let (bg, battr) = background_pixel(mmu, mode, x, ly);
    let (win, wattr) = window_pixel(mmu, mode, x, ly, wline);
    let under = if win != Palette::Transparent(0) { win } else { bg };
    let under_attr = if win != Palette::Transparent(0) { wattr } else { battr };
    let pick = chosen_sprite(mmu, mode, list, list.len() as int, x, ly, height);
    if lcdc & LCDC_OBJ_ENABLE != 0 && pick is Some {
        let s = list[pick->Some_0];
        let shades = if s.attributes & SPRITE_DMG_PALETTE != 0 {
            mmu.mem(OBJ1_PALETTE_REGISTER as int)
        } else {
            mmu.mem(OBJ0_PALETTE_REGISTER as int)
        };
        let color = Palette::from_object_spec(
            sprite_color(mmu, mode, s, x, ly, height),
            mode,
            shades,
            mmu.cgb_cram,
            s.attributes,
            true,
        );
        let covered = under.index() != 0;
        let wins = if mode == Mode::Cgb && lcdc & LCDC_BG_ENABLE == 0 {
            true
        } else {
            !(s.attributes & SPRITE_PRIORITY != 0 && covered) && !(mode == Mode::Cgb && under_attr
                & TILE_PRIORITY != 0 && covered)
        };
        if wins {
            color
        } else {
            under
        }
    } else {
        under
    }
}

/// `post` is the frame `pre` with scanline LY rendered from `mmu`.
pub open spec fn scanline_rendered(pre: Seq<Palette>, post: Seq<Palette>, mmu: &Mmu, mode: Mode, wline: int) -> bool {
    let ly = mmu.mem(SCANLINE_Y_REGISTER as int) as int;
    let lcdc = mmu.mem(LCD_CONTROL_REGISTER as int);
    let height: int = if lcdc & LCDC_OBJ_SIZE != 0 { 16 } else { 8 };
    let list = first_ten(line_sprites(mmu, OAM_SPRITES as int, ly, height));
    &&& post.len() == pre.len()
    &&& forall|i: int|
        0 <= i < pre.len() ==> #[trigger] post[i] == if ly * 160 <= i < ly * 160 + 160 {
            composite_pixel(mmu, mode, list, i - ly * 160, ly, wline)
        } else {
            pre[i]
        }
}

/// The window line counter at the start of a visible line: reset on line 0 and where
/// LY = WY; counted up on lines below WY while the window is on.
pub open spec fn next_window_line(wl: nat, mmu: &Mmu) -> nat {
    let ly = mmu.mem(SCANLINE_Y_REGISTER as int);
    let wy = mmu.mem(WINDOW_Y_REGISTER as int);
    let wx = mmu.mem(WINDOW_X_REGISTER as int);
    let lcdc = mmu.mem(LCD_CONTROL_REGISTER as int);
    let start: nat = if ly == 0 { 0 } else { wl };
    if lcdc & LCDC_WINDOW_ENABLE != 0 && wx <= 166 && wy <= 143 {
        if ly == wy {
            0
        } else if ly > wy {
            if start < 255 { start + 1 } else { 255 }
        } else {
            start
        }
    } else {
        start
    }
}

/// What leaving the current phase does: the next phase and LY per `next_position`, IF
/// raised per `raised_interrupts`, STAT's LY = LYC bit following the new LY at a line's
/// end, and, on leaving OAM scan of a visible line, the window line counter updated and
/// the line rendered. `done` tells whether LY wrapped to 0.
pub open spec fn phase_post(o: Ppu, f: Ppu, om: Mmu, fm: Mmu, done: bool) -> bool {
    let ly = om.mem(SCANLINE_Y_REGISTER as int);
    let stat = om.mem(LCD_STATUS_REGISTER as int);
    let lyc = om.mem(SCANLINE_Y_COMPARE_REGISTER as int);
    let (ns, nly) = next_position(o.state, ly);
    let line_end = o.state == State::HBlank || o.state == State::VBlank;
    &&& f.state == ns
    &&& fm.last_ppu_state == ns
    &&& fm.mem(SCANLINE_Y_REGISTER as int) == nly
    &&& fm.mem(INTERRUPT_FLAGS_REGISTER as int) == om.mem(INTERRUPT_FLAGS_REGISTER as int) | raised_interrupts(
        o.state,
        ly,
        stat,
        lyc,
    )
    &&& line_end ==> fm.mem(LCD_STATUS_REGISTER as int) == (stat & !STAT_LYC_EQUAL) | (if nly == lyc {
        STAT_LYC_EQUAL
    } else {
        0u8
    })
    &&& o.state == State::OamScan ==> f.window_line() == next_window_line(o.window_line(), &om)
    &&& o.state != State::OamScan ==> f.window_line() == o.window_line()
    &&& o.state == State::OamScan && ly < SCREEN_HEIGHT ==> scanline_rendered(
        o.frame(),
        f.frame(),
        &om,
        o.mode_spec(),
        f.window_line() as int,
    )
    &&& !(o.state == State::OamScan && ly < SCREEN_HEIGHT) ==> f.frame() == o.frame()
    &&& done == (o.state == State::VBlank && ly >= 153)
}

/// The picture processing unit: phase state machine and scanline renderer.
pub struct Ppu {
    pub state: State,
    pub cycles: usize,
    pub emulated_frame: Vec<Palette>,
    pub window_line_counter: usize,
    pub mode: Mode,
    /// Whether the frame was cleared since the LCD was switched off.
    pub frame_blanked: bool,
}

impl Ppu {
    pub closed spec fn frame(&self) -> Seq<Palette> {
        self.emulated_frame@
    }

    pub closed spec fn pending_cycles(&self) -> nat {
        self.cycles as nat
    }

    pub closed spec fn window_line(&self) -> nat {
        self.window_line_counter as nat
    }

    pub closed spec fn mode_spec(&self) -> Mode {
        self.mode
    }

    pub open spec fn wf(&self) -> bool {
        &&& self.frame().len() == SCREEN_WIDTH * SCREEN_HEIGHT
        &&& self.window_line() < 256
        &&& self.pending_cycles() < 0x1_0000
    }

    pub fn new(mode: Mode) -> (r: Ppu)
        ensures
            r.wf(),
            r.state == State::OamScan,
            r.pending_cycles() == 0,
            r.mode_spec() == mode,
            forall|i: int| 0 <= i < SCREEN_WIDTH * SCREEN_HEIGHT ==> r.frame()[i] == Palette::White(0),
    {
        let mut frame: Vec<Palette> = Vec::new();
        while frame.len() < SCREEN_WIDTH * SCREEN_HEIGHT
            invariant
                frame.len() <= SCREEN_WIDTH * SCREEN_HEIGHT,
                forall|i: int| 0 <= i < frame.len() ==> frame@[i] == Palette::White(0),
            decreases SCREEN_WIDTH * SCREEN_HEIGHT - frame.len(),
        {
            frame.push(Palette::White(0));
        }
        Ppu {
            state: State::OamScan,
            cycles: 0,
            emulated_frame: frame,
            window_line_counter: 0,
            mode,
            frame_blanked: false,
        }
    }

    /// Back to the start of OAM scan with no cycles pending.
    pub fn reset_state(&mut self)
        requires
            old(self).wf(),
        ensures
            final(self).wf(),
            final(self).state == State::OamScan,
            final(self).pending_cycles() == 0,
            final(self).frame() == old(self).frame(),
            final(self).mode_spec() == old(self).mode_spec(),
    {
        self.state = State::OamScan;
        self.cycles = 0;
    }

    /// A copy of the framebuffer, row-major, 160 pixels per row.
    pub fn pull_frame(&self) -> (r: Vec<Palette>)
        ensures
            r@ == self.frame(),
    {
        self.emulated_frame.clone()
    }

    fn fetch_map_pixel(&self, mmu: &Mmu, maddr: u16, col: u8, row: u8) -> (r: (Palette, u8))
        requires
            mmu.wf(),
            0x9800 <= maddr <= 0x9fff,
            col < 8,
            row < 8,
        ensures
            r == map_pixel(mmu, self.mode_spec(), maddr as int, col as int, row as int),
    {
        let lcdc = mmu.memory[LCD_CONTROL_REGISTER as usize];
        let index = mmu.read_from_vram(maddr, 0);
        let cgb = self.mode == Mode::Cgb;
        let attrs = if cgb {
            mmu.read_from_vram(maddr, 1)
        } else {
            0u8
        };
        let c = if cgb && attrs & TILE_FLIP_X != 0 {
            7 - col
        } else {
            col
        };
        let r = if cgb && attrs & TILE_FLIP_Y != 0 {
            7 - row
        } else {
            row
        };
        let bank: u8 = if cgb && attrs & TILE_BANK != 0 {
            1
        } else {
            0
        };
        let base = tile_data_address(index, lcdc & LCDC_TILE_DATA != 0);
        let color = fetch_tile_pixel(mmu, base, bank, r, c);
        let shades = mmu.memory[BG_PALETTE_REGISTER as usize];
        (Palette::from_background(color, self.mode, shades, &mmu.cgb_cram, attrs), attrs)
    }

    /// The background pixel at screen (`x`, `y`) and its tile attributes.
    pub fn fetch_background_pixel(&self, mmu: &Mmu, x: u8, y: u8) -> (r: (Palette, u8))
        requires
            mmu.wf(),
        ensures
            r == background_pixel(mmu, self.mode_spec(), x as int, y as int),
    {
        let lcdc = mmu.memory[LCD_CONTROL_REGISTER as usize];
        if lcdc & LCDC_BG_ENABLE == 0 && self.mode == Mode::Dmg {
            let shades = mmu.memory[BG_PALETTE_REGISTER as usize];
            return (Palette::from_background(0, self.mode, shades, &mmu.cgb_cram, 0), 0);
        }
        let px = ((x as u16 + mmu.memory[SCROLL_X_REGISTER as usize] as u16) % 256) as u8;
        let py = ((y as u16 + mmu.memory[SCROLL_Y_REGISTER as usize] as u16) % 256) as u8;
        let map: u16 = if lcdc & LCDC_BG_MAP != 0 {
            0x9c00
        } else {
            0x9800
        };
        self.fetch_map_pixel(mmu, map + (py / 8) as u16 * 32 + (px / 8) as u16, px % 8, py % 8)
    }

    /// The window pixel at screen (`x`, `y`) and its tile attributes; transparent where the
    /// window does not cover the pixel.
    pub fn fetch_window_pixel(&self, mmu: &Mmu, x: u8, y: u8) -> (r: (Palette, u8))
        requires
            mmu.wf(),
            self.wf(),
            x < SCREEN_WIDTH,
        ensures
            r == window_pixel(mmu, self.mode_spec(), x as int, y as int, self.window_line() as int),
    {
        let lcdc = mmu.memory[LCD_CONTROL_REGISTER as usize];
        let wy = mmu.memory[WINDOW_Y_REGISTER as usize];
        let wx = mmu.memory[WINDOW_X_REGISTER as usize];
        if (lcdc & LCDC_BG_ENABLE == 0 && self.mode == Mode::Dmg) || lcdc & LCDC_WINDOW_ENABLE == 0 || y < wy || (x as u16) + 7
            < wx as u16 {
            return (Palette::Transparent(0), 0);
        }
        let wxp = (x as u16 + 7 - wx as u16) as u8;
        let wline = self.window_line_counter;
        let map: u16 = if lcdc & LCDC_WINDOW_MAP != 0 {
            0x9c00
        } else {
            0x9800
        };
        self.fetch_map_pixel(
            mmu,
            map + ((wline % 256) / 8) as u16 * 32 + (wxp / 8) as u16,
            wxp % 8,
            (wline % 8) as u8,
        )
    }

    /// The sprites that span scanline `ly`, at most ten, in OAM order.
    #[verifier::rlimit(30)]
    pub fn fetch_oams(&self, mmu: &Mmu, ly: u8, height: u8) -> (r: Vec<Sprite>)
        requires
            mmu.wf(),
        ensures
            r@ == first_ten(line_sprites(mmu, OAM_SPRITES as int, ly as int, height as int)),
    {
        let mut sprites: Vec<Sprite> = Vec::new();
        let mut i: u16 = 0;
        while i < OAM_SPRITES
            invariant
                mmu.wf(),
                i <= OAM_SPRITES,
                sprites@ == first_ten(line_sprites(mmu, i as int, ly as int, height as int)),
            decreases OAM_SPRITES - i,
        {
            let sprite = Sprite::from_oam(mmu, i);
            let ghost prev = line_sprites(mmu, i as int, ly as int, height as int);
            if sprite.is_on_line(ly, height) {
                if sprites.len() < MAX_SPRITES_PER_LINE {
                    sprites.push(sprite);
                    assert(prev.len() < 10);
                    assert(prev.push(sprite).len() <= 10);
                } else {
                    assert(first_ten(prev.push(sprite)) =~= first_ten(prev));
                }
            }
            i = i + 1;
        }
        sprites
    }

    fn sprite_pixel_color(&self, mmu: &Mmu, s: Sprite, px: u8, ly: u8, height: u8) -> (r: u8)
        requires
            mmu.wf(),
            s.on_column(px as int),
            s.on_line(ly as int, height as int),
            height == 8 || height == 16,
        ensures
            r == sprite_color(mmu, self.mode_spec(), s, px as int, ly as int, height as int),
            r < 4,
    {
        let row0 = (ly as u16 + 16 - s.y as u16) as u8;
        let col0 = (px as u16 + 8 - s.x as u16) as u8;
        let row = if s.attributes & SPRITE_FLIP_Y != 0 {
            height - 1 - row0
        } else {
            row0
        };
        let col = if s.attributes & SPRITE_FLIP_X != 0 {
            7 - col0
        } else {
            col0
        };
        let index: u16 = if height == 16 {
            (s.tile_index & 0xfe) as u16 + if row >= 8 {
                1u16
            } else {
                0u16
            }
        } else {
            s.tile_index as u16
        };
        let bank: u8 = if self.mode == Mode::Cgb && s.attributes & SPRITE_BANK != 0 {
            1
        } else {
            0
        };
        fetch_tile_pixel(mmu, 0x8000 + index * 16, bank, row % 8, col)
    }

    /// The sprite drawn at (`x`, `ly`) among `oams`, with its translated colour.
    #[verifier::rlimit(30)]
    pub fn fetch_sprite_pixel(&self, mmu: &Mmu, oams: &Vec<Sprite>, x: u8, ly: u8, height: u8) -> (r:
        Option<(Sprite, Palette)>)
        requires
            mmu.wf(),
            height == 8 || height == 16,
        ensures
            ({
                let pick = chosen_sprite(mmu, self.mode_spec(), oams@, oams@.len() as int, x as int, ly as int, height as int);
                &&& pick is None ==> r is None
                &&& pick is Some ==> {
                    let s = oams@[pick->Some_0];
                    let shades = if s.attributes & SPRITE_DMG_PALETTE != 0 {
                        mmu.mem(OBJ1_PALETTE_REGISTER as int)
                    } else {
                        mmu.mem(OBJ0_PALETTE_REGISTER as int)
                    };
                    r == Some((s, Palette::from_object_spec(
                        sprite_color(mmu, self.mode_spec(), s, x as int, ly as int, height as int),
                        self.mode_spec(),
                        shades,
                        mmu.cgb_cram,
                        s.attributes,
                        true,
                    )))
                }
            }),
    {
        let mut best: Option<usize> = None;
        let mut best_color: u8 = 0;
        let mut j: usize = 0;
        while j < oams.len()
            invariant
                mmu.wf(),
                height == 8 || height == 16,
                j <= oams@.len(),
                widen(best) == chosen_sprite(mmu, self.mode_spec(), oams@, j as int, x as int, ly as int, height as int),
                best_color < 4,
                best matches Some(b) ==> b < j && best_color == sprite_color(mmu, self.mode_spec(), oams@[b as int], x as int, ly as int, height as int),
            decreases oams@.len() - j,
        {
            let s = oams[j];
            if s.is_on_column(x) && s.is_on_line(ly, height) {
                let color = self.sprite_pixel_color(mmu, s, x, ly, height);
                if color != 0 {
                    let better = match best {
                        None => true,
                        Some(b) => self.mode == Mode::Dmg && s.x < oams[b].x,
                    };
                    if better {
                        best = Some(j);
                        best_color = color;
                    }
                }
            }
            j = j + 1;
        }
        match best {
            None => None,
            Some(b) => {
                let s = oams[b];
                let shades = if s.attributes & SPRITE_DMG_PALETTE != 0 {
                    mmu.memory[OBJ1_PALETTE_REGISTER as usize]
                } else {
                    mmu.memory[OBJ0_PALETTE_REGISTER as usize]
                };
                let pal = Palette::from_object(best_color, self.mode, shades, &mmu.cgb_cram, s.attributes, true);
                Some((s, pal))
            },
        }
    }

    /// Renders scanline LY into the framebuffer: background, then window, then the
    /// sprite chosen for each pixel where it wins over what lies under it.
    #[verifier::rlimit(30)]
    pub fn render_scanline(&mut self, mmu: &Mmu)
        requires
            old(self).wf(),
            mmu.wf(),
            mmu.mem(SCANLINE_Y_REGISTER as int) < SCREEN_HEIGHT,
        ensures
            final(self).wf(),
            final(self).state == old(self).state,
            final(self).pending_cycles() == old(self).pending_cycles(),
            final(self).window_line() == old(self).window_line(),
            final(self).mode_spec() == old(self).mode_spec(),
            final(self).frame_blanked == old(self).frame_blanked,
            scanline_rendered(old(self).frame(), final(self).frame(), mmu, old(self).mode_spec(), old(self).window_line() as int),
    {
        let ly = mmu.memory[SCANLINE_Y_REGISTER as usize];
        let lcdc = mmu.memory[LCD_CONTROL_REGISTER as usize];
        let height: u8 = if lcdc & LCDC_OBJ_SIZE != 0 {
            16
        } else {
            8
        };
        let cgb = self.mode == Mode::Cgb;
        let oams = self.fetch_oams(mmu, ly, height);
        let ghost pre = *self;
        let mut x: u8 = 0;
        while (x as usize) < SCREEN_WIDTH
            invariant
                self.wf(),
                mmu.wf(),
                x <= SCREEN_WIDTH,
                ly < SCREEN_HEIGHT,
                ly == mmu.mem(SCANLINE_Y_REGISTER as int),
                lcdc == mmu.mem(LCD_CONTROL_REGISTER as int),
                height == (if lcdc & LCDC_OBJ_SIZE != 0 { 16u8 } else { 8u8 }),
                cgb == (self.mode_spec() == Mode::Cgb),
                oams@ == first_ten(line_sprites(mmu, OAM_SPRITES as int, ly as int, height as int)),
                self.state == pre.state,
                self.pending_cycles() == pre.pending_cycles(),
                self.window_line() == pre.window_line(),
                self.mode_spec() == pre.mode_spec(),
                self.frame_blanked == pre.frame_blanked,
                forall|i: int|
                    0 <= i < SCREEN_WIDTH * SCREEN_HEIGHT ==> #[trigger] self.frame()[i] == if ly * 160 <= i
                        < ly * 160 + x {
                        composite_pixel(mmu, pre.mode_spec(), oams@, i - ly * 160, ly as int, pre.window_line() as int)
                    } else {
                        pre.frame()[i]
                    },
            decreases SCREEN_WIDTH - x,
        {
            let pixel = if lcdc & LCDC_LCD_ENABLE == 0 {
                Palette::White(0)
            } else {
                let (bg, battr) = self.fetch_background_pixel(mmu, x, ly);
                let (win, wattr) = self.fetch_window_pixel(mmu, x, ly);
                let win_visible = !win.is_transparent();
                let under = if win_visible {
                    win
                } else {
                    bg
                };
                let under_attr = if win_visible {
                    wattr
                } else {
                    battr
                };
                let mut pixel = under;
                if lcdc & LCDC_OBJ_ENABLE != 0 {
                    match self.fetch_sprite_pixel(mmu, &oams, x, ly, height) {
                        Some((s, color)) => {
                            let covered = !under.is_color(0);
                            let wins = if cgb && lcdc & LCDC_BG_ENABLE == 0 {
                                true
                            } else {
                                !(s.attributes & SPRITE_PRIORITY != 0 && covered) && !(cgb && under_attr
                                    & TILE_PRIORITY != 0 && covered)
                            };
                            if wins {
                                pixel = color;
                            }
                        },
                        None => {},
                    }
                }
                pixel
            };
            let ghost prev = *self;
            self.emulated_frame.set(ly as usize * SCREEN_WIDTH + x as usize, pixel);
            proof {
                let k = ly * 160 + x;
                assert forall|i: int| 0 <= i < SCREEN_WIDTH * SCREEN_HEIGHT implies #[trigger] self.frame()[i] == if ly * 160 <= i < ly * 160 + x + 1 {
                    composite_pixel(mmu, pre.mode_spec(), oams@, i - ly * 160, ly as int, pre.window_line() as int)
                } else {
                    pre.frame()[i]
                } by {
                    if i != k {
                        assert(self.frame()[i] == prev.frame()[i]);
                    }
                }
            }
            x = x + 1;
        }
    }

    /// Updates the internal window line counter at the start of a visible line: reset on
    /// line 0 and where LY = WY; counted up on lines below WY while the window is on.
    pub fn handle_window_line_counter(&mut self, mmu: &Mmu)
        requires
            old(self).wf(),
            mmu.wf(),
        ensures
            final(self).wf(),
            final(self).state == old(self).state,
            final(self).pending_cycles() == old(self).pending_cycles(),
            final(self).frame() == old(self).frame(),
            final(self).mode_spec() == old(self).mode_spec(),
            final(self).frame_blanked == old(self).frame_blanked,
            final(self).window_line() == next_window_line(old(self).window_line(), mmu),
    {
        let ly = mmu.memory[SCANLINE_Y_REGISTER as usize];
        if ly == 0 {
            self.window_line_counter = 0;
        }
        let wx = mmu.memory[WINDOW_X_REGISTER as usize];
        let wy = mmu.memory[WINDOW_Y_REGISTER as usize];
        let lcdc = mmu.memory[LCD_CONTROL_REGISTER as usize];
        if lcdc & LCDC_WINDOW_ENABLE != 0 && wx <= 166 && wy <= 143 {
            if ly == wy {
                self.window_line_counter = 0;
            } else if ly > wy {
                if self.window_line_counter < 255 {
                    self.window_line_counter = self.window_line_counter + 1;
                }
            }
        }
    }

    /// Leaves the current phase: OAM scan renders the line and enters drawing; drawing
    /// enters HBlank (running an armed HBlank transfer); HBlank and VBlank lines end by
    /// advancing LY. Interrupts are raised in IF as `raised_interrupts` says, and the
    /// LY = LYC flag of STAT follows the new LY. Returns whether LY wrapped to 0.
    #[verifier::rlimit(30)]
    fn advance_phase(&mut self, mmu: &mut Mmu) -> (frame_done: bool)
        requires
            old(self).wf(),
            old(mmu).wf(),
        ensures
            final(self).wf(),
            final(mmu).wf(),
            final(self).mode_spec() == old(self).mode_spec(),
            final(self).pending_cycles() == old(self).pending_cycles(),
            phase_post(*old(self), *final(self), *old(mmu), *final(mmu), frame_done),
    {
        let ly = mmu.memory[SCANLINE_Y_REGISTER as usize];
        let stat = mmu.memory[LCD_STATUS_REGISTER as usize];
        let lyc = mmu.memory[SCANLINE_Y_COMPARE_REGISTER as usize];
        let iflags = mmu.memory[INTERRUPT_FLAGS_REGISTER as usize];
        let (ns, nly, mode_bits, frame_done) = match self.state {
            State::OamScan => {
                self.handle_window_line_counter(mmu);
                if (ly as usize) < SCREEN_HEIGHT {
                    self.render_scanline(mmu);
                }
                (State::Drawing, ly, 0u8, false)
            },
            State::Drawing => {
                mmu.cache_ppu_state(State::HBlank);
                mmu.tick_hdma();
                let m = if stat & STAT_MODE0_INTERRUPT != 0 {
                    STAT_BIT
                } else {
                    0u8
                };
                (State::HBlank, ly, m, false)
            },
            State::HBlank => {
                if ly >= 143 {
                    let m = VBLANK_BIT | (if stat & STAT_MODE1_INTERRUPT != 0 {
                        STAT_BIT
                    } else {
                        0u8
                    });
                    (State::VBlank, 144u8, m, false)
                } else {
                    let m = if stat & STAT_MODE2_INTERRUPT != 0 {
                        STAT_BIT
                    } else {
                        0u8
                    };
                    (State::OamScan, ly + 1, m, false)
                }
            },
            State::VBlank => {
                if ly >= 153 {
                    let m = if stat & STAT_MODE2_INTERRUPT != 0 {
                        STAT_BIT
                    } else {
                        0u8
                    };
                    (State::OamScan, 0u8, m, true)
                } else {
                    (State::VBlank, ly + 1, 0u8, false)
                }
            },
        };
        let line_end = self.state == State::HBlank || self.state == State::VBlank;
        let lyc_hit = line_end && stat & STAT_LYC_INTERRUPT != 0 && (nly == lyc || (nly == 153 && lyc
            == 0));
        let raised = mode_bits | (if lyc_hit {
            STAT_BIT
        } else {
            0u8
        });
        self.state = ns;
        mmu.cache_ppu_state(ns);
        mmu.memory.set(SCANLINE_Y_REGISTER as usize, nly);
        mmu.memory.set(INTERRUPT_FLAGS_REGISTER as usize, iflags | raised);
        if line_end {
            let flag = if nly == lyc {
                STAT_LYC_EQUAL
            } else {
                0u8
            };
            mmu.memory.set(LCD_STATUS_REGISTER as usize, (stat & !STAT_LYC_EQUAL) | flag);
        }
        frame_done
    }

    /// Feeds `cycles` T-cycles to the phase state machine and takes every transition
    /// they complete. With the LCD off the PPU is frozen: LY reads 0, nothing is raised,
    /// and the framebuffer is blanked once. Returns whether a frame was completed.
    #[verifier::rlimit(30)]
    pub fn tick_state(&mut self, mmu: &mut Mmu, cycles: usize) -> (new_frame: bool)
        requires
            old(self).wf(),
            old(mmu).wf(),
            cycles < 0x1_0000,
        ensures
            final(self).wf(),
            final(mmu).wf(),
            final(self).mode_spec() == old(self).mode_spec(),
            old(mmu).mem(LCD_CONTROL_REGISTER as int) & LCDC_LCD_ENABLE == 0 ==> {
                &&& !new_frame
                &&& final(mmu).mem(SCANLINE_Y_REGISTER as int) == 0
                &&& final(mmu).mem(INTERRUPT_FLAGS_REGISTER as int) == old(mmu).mem(INTERRUPT_FLAGS_REGISTER as int)
                &&& final(self).state == State::OamScan
                &&& final(self).pending_cycles() == 0
                &&& final(self).frame_blanked
                &&& old(self).frame_blanked ==> final(self).frame() == old(self).frame()
                &&& !old(self).frame_blanked ==> forall|i: int|
                    0 <= i < SCREEN_WIDTH * SCREEN_HEIGHT ==> #[trigger] final(self).frame()[i] == Palette::White(0)
            },
            old(mmu).mem(LCD_CONTROL_REGISTER as int) & LCDC_LCD_ENABLE != 0 ==> final(self).pending_cycles()
                < phase_duration(final(self).state),
            old(mmu).mem(LCD_CONTROL_REGISTER as int) & LCDC_LCD_ENABLE != 0 && phase_duration(
                old(self).state,
            ) <= old(self).pending_cycles() + cycles < phase_duration(old(self).state) + phase_duration(
                next_position(old(self).state, old(mmu).mem(SCANLINE_Y_REGISTER as int)).0,
            ) ==> {
                let ly = old(mmu).mem(SCANLINE_Y_REGISTER as int);
                let (ns, nly) = next_position(old(self).state, ly);
                &&& final(self).state == ns
                &&& final(mmu).mem(SCANLINE_Y_REGISTER as int) == nly
                &&& final(mmu).mem(INTERRUPT_FLAGS_REGISTER as int) == old(mmu).mem(INTERRUPT_FLAGS_REGISTER as int)
                    | raised_interrupts(
                    old(self).state,
                    ly,
                    old(mmu).mem(LCD_STATUS_REGISTER as int),
                    old(mmu).mem(SCANLINE_Y_COMPARE_REGISTER as int),
                )
                &&& final(self).pending_cycles() == old(self).pending_cycles() + cycles - phase_duration(old(self).state)
                &&& new_frame == (old(self).state == State::VBlank && ly >= 153)
                &&& phase_post(*old(self), *final(self), *old(mmu), *final(mmu), new_frame)
            },
            old(mmu).mem(LCD_CONTROL_REGISTER as int) & LCDC_LCD_ENABLE != 0
                && old(self).pending_cycles() + cycles < phase_duration(old(self).state) ==> {
                &&& !new_frame
                &&& *final(mmu) == *old(mmu)
                &&& final(self).state == old(self).state
                &&& final(self).pending_cycles() == old(self).pending_cycles() + cycles
            },
    {
        let ghost mmu0 = *mmu;
        let ghost state0 = self.state;
        let ghost ppu0 = *self;
        let lcdc = mmu.memory[LCD_CONTROL_REGISTER as usize];
        if lcdc & LCDC_LCD_ENABLE == 0 {
            mmu.memory.set(SCANLINE_Y_REGISTER as usize, 0);
            self.state = State::OamScan;
            self.cycles = 0;
            mmu.cache_ppu_state(State::OamScan);
            if !self.frame_blanked {
                let mut i: usize = 0;
                while i < SCREEN_WIDTH * SCREEN_HEIGHT
                    invariant
                        self.wf(),
                        i <= SCREEN_WIDTH * SCREEN_HEIGHT,
                        self.state == State::OamScan,
                        self.pending_cycles() == 0,
                        self.mode_spec() == old(self).mode_spec(),
                        !self.frame_blanked,
                        forall|k: int| 0 <= k < i ==> #[trigger] self.frame()[k] == Palette::White(0),
                    decreases SCREEN_WIDTH * SCREEN_HEIGHT - i,
                {
                    self.emulated_frame.set(i, Palette::White(0));
                    i = i + 1;
                }
                self.frame_blanked = true;
            }
            return false;
        }
        self.frame_blanked = false;
        self.cycles = self.cycles + cycles;
        let mut new_frame = false;
        let ghost ly0 = mmu0.mem(SCANLINE_Y_REGISTER as int);
        let ghost stat0 = mmu0.mem(LCD_STATUS_REGISTER as int);
        let ghost lyc0 = mmu0.mem(SCANLINE_Y_COMPARE_REGISTER as int);
        let ghost if0 = mmu0.mem(INTERRUPT_FLAGS_REGISTER as int);
        let ghost first = next_position(state0, ly0);
        let ghost mut steps: nat = 0;
        loop
            invariant
                ppu0 == *old(self),
                mmu0 == *old(mmu) && state0 == old(self).state && ly0 == mmu0.mem(SCANLINE_Y_REGISTER as int)
                    && stat0 == mmu0.mem(LCD_STATUS_REGISTER as int) && lyc0 == mmu0.mem(SCANLINE_Y_COMPARE_REGISTER as int)
                    && if0 == mmu0.mem(INTERRUPT_FLAGS_REGISTER as int) && first == next_position(state0, ly0),
                steps >= 1 ==> old(self).cycles + cycles >= phase_duration(old(self).state),
                steps >= 2 ==> old(self).cycles + cycles >= phase_duration(old(self).state) + phase_duration(first.0),
                steps == 0 ==> *mmu == *old(mmu) && self.state == old(self).state && self.cycles == old(
                    self,
                ).cycles + cycles && !new_frame,
                steps == 0 ==> self.frame() == old(self).frame() && self.window_line() == old(self).window_line(),
                steps == 1 ==> phase_post(ppu0, *self, mmu0, *mmu, new_frame),
                steps == 1 ==> self.state == first.0 && mmu.mem(SCANLINE_Y_REGISTER as int) == first.1
                    && mmu.mem(INTERRUPT_FLAGS_REGISTER as int) == if0 | raised_interrupts(old(self).state, ly0, stat0, lyc0)
                    && self.cycles == old(self).cycles + cycles - phase_duration(old(self).state)
                    && new_frame == (old(self).state == State::VBlank && ly0 >= 153),
                self.frame().len() == SCREEN_WIDTH * SCREEN_HEIGHT,
                self.window_line() < 256,
                self.cycles < 0x2_0000,
                mmu.wf(),
                self.mode_spec() == old(self).mode_spec(),
            ensures
                ppu0 == *old(self),
                mmu0 == *old(mmu) && state0 == old(self).state && ly0 == mmu0.mem(SCANLINE_Y_REGISTER as int)
                    && stat0 == mmu0.mem(LCD_STATUS_REGISTER as int) && lyc0 == mmu0.mem(SCANLINE_Y_COMPARE_REGISTER as int)
                    && if0 == mmu0.mem(INTERRUPT_FLAGS_REGISTER as int) && first == next_position(state0, ly0),
                self.wf(),
                mmu.wf(),
                self.mode_spec() == old(self).mode_spec(),
                steps >= 1 ==> old(self).cycles + cycles >= phase_duration(old(self).state),
                steps >= 2 ==> old(self).cycles + cycles >= phase_duration(old(self).state) + phase_duration(first.0),
                steps == 0 ==> *mmu == *old(mmu) && self.state == old(self).state && self.cycles == old(
                    self,
                ).cycles + cycles && !new_frame,
                self.cycles < phase_duration(self.state),
                steps == 0 ==> self.frame() == old(self).frame() && self.window_line() == old(self).window_line(),
                steps == 1 ==> phase_post(ppu0, *self, mmu0, *mmu, new_frame),
                steps == 1 ==> self.state == first.0 && mmu.mem(SCANLINE_Y_REGISTER as int) == first.1
                    && mmu.mem(INTERRUPT_FLAGS_REGISTER as int) == if0 | raised_interrupts(old(self).state, ly0, stat0, lyc0)
                    && self.cycles == old(self).cycles + cycles - phase_duration(old(self).state)
                    && new_frame == (old(self).state == State::VBlank && ly0 >= 153),
            decreases self.cycles,
        {
            let duration: usize = match self.state {
                State::OamScan => OAM_SCAN_CYCLES,
                State::Drawing => DRAWING_CYCLES,
                State::HBlank => HBLANK_CYCLES,
                State::VBlank => LINE_CYCLES,
            };
            if self.cycles < duration {
                break;
            }
            assert(duration == phase_duration(self.state));
            self.cycles = self.cycles - duration;
            let c = self.cycles;
            self.cycles = 0;
            let done = self.advance_phase(mmu);
            if done {
                new_frame = true;
            }
            self.cycles = c;
            proof {
                steps = steps + 1;
            }
        }
        new_frame
    }

    /// Every tile of the tile data area of VRAM bank `vram_bank`, for inspection.
    pub fn render_tileset(&self, mmu: &Mmu, vram_bank: u8) -> (r: Vec<Tile>)
        requires
            mmu.wf(),
        ensures
            r@.len() == TILESET_SIZE,
            forall|i: int|
                0 <= i < TILESET_SIZE ==> (#[trigger] r@[i]).attributes == (if vram_bank == 1 { TILE_BANK } else { 0u8 })
                    && r@[i].pixels@ == tile_pixels(
                    mmu,
                    (0x8000 + i * 16) as u16,
                    self.mode_spec(),
                    if vram_bank == 1 { TILE_BANK } else { 0u8 },
                ),
    {
        let attributes: u8 = if vram_bank == 1 {
            TILE_BANK
        } else {
            0
        };
        let mut tiles: Vec<Tile> = Vec::new();
        let mut i: usize = 0;
        while i < TILESET_SIZE
            invariant
                mmu.wf(),
                i <= TILESET_SIZE,
                tiles@.len() == i,
                attributes == (if vram_bank == 1 { TILE_BANK } else { 0u8 }),
                forall|k: int|
                    0 <= k < i ==> (#[trigger] tiles@[k]).attributes == attributes && tiles@[k].pixels@
                        == tile_pixels(mmu, (0x8000 + k * 16) as u16, self.mode_spec(), attributes),
            decreases TILESET_SIZE - i,
        {
            let tile = Tile::from(mmu, 0x8000 + (i as u16) * 16, self.mode, attributes);
            tiles.push(tile);
            i = i + 1;
        }
        tiles
    }

    /// The tiles of a 32x32 tile map at `map`, in map order, decoded under the current
    /// tile data selection; with `with_attributes`, CGB attributes come from VRAM bank 1.
    fn render_tilemap(&self, mmu: &Mmu, map: u16, with_attributes: bool) -> (r: Vec<Tile>)
        requires
            mmu.wf(),
            map == 0x9800 || map == 0x9c00,
        ensures
            r@.len() == BACKGROUND_MAP_SIZE,
            forall|i: int|
                0 <= i < BACKGROUND_MAP_SIZE ==> {
                    let maddr = map + i;
                    let attrs = if with_attributes && self.mode_spec() == Mode::Cgb {
                        mmu.cgb_vram_bank1@[maddr - 0x8000]
                    } else {
                        0u8
                    };
                    let unsigned = mmu.mem(LCD_CONTROL_REGISTER as int) & LCDC_TILE_DATA != 0;
                    (#[trigger] r@[i]).attributes == attrs && r@[i].pixels@ == tile_pixels(
                        mmu,
                        tile_address(mmu.mem(maddr), unsigned),
                        self.mode_spec(),
                        attrs,
                    )
                },
    {
        let lcdc = mmu.memory[LCD_CONTROL_REGISTER as usize];
        let unsigned = lcdc & LCDC_TILE_DATA != 0;
        let mut tiles: Vec<Tile> = Vec::new();
        let mut i: usize = 0;
        while i < BACKGROUND_MAP_SIZE
            invariant
                mmu.wf(),
                map == 0x9800 || map == 0x9c00,
                i <= BACKGROUND_MAP_SIZE,
                tiles@.len() == i,
                lcdc == mmu.mem(LCD_CONTROL_REGISTER as int),
                unsigned == (lcdc & LCDC_TILE_DATA != 0),
                forall|k: int|
                    0 <= k < i ==> {
                        let maddr = map + k;
                        let attrs = if with_attributes && self.mode_spec() == Mode::Cgb {
                            mmu.cgb_vram_bank1@[maddr - 0x8000]
                        } else {
                            0u8
                        };
                        (#[trigger] tiles@[k]).attributes == attrs && tiles@[k].pixels@ == tile_pixels(
                            mmu,
                            tile_address(mmu.mem(maddr), unsigned),
                            self.mode_spec(),
                            attrs,
                        )
                    },
            decreases BACKGROUND_MAP_SIZE - i,
        {
            let maddr = map + i as u16;
            let index = mmu.read_from_vram(maddr, 0);
            let attrs = if with_attributes && self.mode == Mode::Cgb {
                mmu.read_from_vram(maddr, 1)
            } else {
                0u8
            };
            let tile = Tile::from(mmu, tile_data_address(index, unsigned), self.mode, attrs);
            tiles.push(tile);
            i = i + 1;
        }
        tiles
    }

    /// The background tile map selected by LCDC, with CGB attributes, for inspection.
    pub fn render_background_tilemap(&self, mmu: &Mmu) -> (r: Vec<Tile>)
        requires
            mmu.wf(),
        ensures
            ({
                let map: u16 = if mmu.mem(LCD_CONTROL_REGISTER as int) & LCDC_BG_MAP != 0 { 0x9c00 } else { 0x9800 };
                &&& r@.len() == BACKGROUND_MAP_SIZE
                &&& forall|i: int|
                    0 <= i < BACKGROUND_MAP_SIZE ==> {
                        let maddr = map + i;
                        let attrs = if self.mode_spec() == Mode::Cgb {
                            mmu.cgb_vram_bank1@[maddr - 0x8000]
                        } else {
                            0u8
                        };
                        (#[trigger] r@[i]).attributes == attrs && r@[i].pixels@ == tile_pixels(
                            mmu,
                            tile_address(mmu.mem(maddr), mmu.mem(LCD_CONTROL_REGISTER as int) & LCDC_TILE_DATA != 0),
                            self.mode_spec(),
                            attrs,
                        )
                    }
            }),
    {
        let lcdc = mmu.memory[LCD_CONTROL_REGISTER as usize];
        let map: u16 = if lcdc & LCDC_BG_MAP != 0 {
            0x9c00
        } else {
            0x9800
        };
        self.render_tilemap(mmu, map, true)
    }

    /// The window tile map selected by LCDC, without attributes, for inspection.
    pub fn render_window_tilemap(&self, mmu: &Mmu) -> (r: Vec<Tile>)
        requires
            mmu.wf(),
        ensures
            ({
                let map: u16 = if mmu.mem(LCD_CONTROL_REGISTER as int) & LCDC_WINDOW_MAP != 0 { 0x9c00 } else { 0x9800 };
                &&& r@.len() == BACKGROUND_MAP_SIZE
                &&& forall|i: int|
                    0 <= i < BACKGROUND_MAP_SIZE ==> (#[trigger] r@[i]).attributes == 0 && r@[i].pixels@
                        == tile_pixels(
                        mmu,
                        tile_address(mmu.mem(map + i), mmu.mem(LCD_CONTROL_REGISTER as int) & LCDC_TILE_DATA != 0),
                        self.mode_spec(),
                        0,
                    )
            }),
    {
        let lcdc = mmu.memory[LCD_CONTROL_REGISTER as usize];
        let map: u16 = if lcdc & LCDC_WINDOW_MAP != 0 {
            0x9c00
        } else {
            0x9800
        };
        self.render_tilemap(mmu, map, false)
    }
}

} // verus!
