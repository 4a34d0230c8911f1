use vstd::prelude::*;
use crate::cram::Cram;
use crate::gameboy::Mode;

verus! {

/// A pixel after palette translation. Every variant keeps the 2-bit colour index it
/// came from, for priority decisions after translation.
#[derive(Debug, Clone, Copy, PartialEq, Eq, Structural)]
pub enum Palette {
    White(u8),
    LightGray(u8),
    DarkGray(u8),
    Black(u8),
    Transparent(u8),
    Color(u8, u8, u8, u8),
}

/// Widens a 5-bit channel to 8 bits.
pub open spec fn expand5(x: int) -> int {
    x * 8 + x / 4
}

/// Channel `k` (0 red, 1 green, 2 blue) of a 15-bit colour.
pub open spec fn channel5(color: u16, k: int) -> int {
    if k == 0 {
        color as int % 32
    } else if k == 1 {
        (color as int / 32) % 32
    } else {
        (color as int / 1024) % 32
    }
}

/// The 2-bit shade that a DMG palette register assigns to colour index `value`.
pub open spec fn dmg_shade(shades: u8, value: u8) -> u8 {
    ((shades as int / pow4(value as nat)) % 4) as u8
}

pub open spec fn pow4(n: nat) -> int
    decreases n,
{
    if n == 0 {
        1
    } else {
        4 * pow4((n - 1) as nat)
    }
}

pub open spec fn shade_palette(shade: u8, value: u8) -> Palette {
    if shade == 0 {
        Palette::White(value)
    } else if shade == 1 {
        Palette::LightGray(value)
    } else if shade == 2 {
        Palette::DarkGray(value)
    } else {
        Palette::Black(value)
    }
}

pub open spec fn cgb_palette(value: u8, color: u16) -> Palette {
    Palette::Color(
        value,
        expand5(channel5(color, 0)) as u8,
        expand5(channel5(color, 1)) as u8,
        expand5(channel5(color, 2)) as u8,
    )
}

impl Palette {
    pub open spec fn from_background_spec(value: u8, mode: Mode, shades: u8, cram: Cram, attributes: u8) -> Palette {
        if mode == Mode::Dmg {
            shade_palette(dmg_shade(shades, value), value)
        } else {
            cgb_palette(value, Cram::color_spec(cram.bg(), (attributes % 8) as u8, (value * 2) as u8))
        }
    }

    pub open spec fn from_object_spec(
        value: u8,
        mode: Mode,
        shades: u8,
        cram: Cram,
        attributes: u8,
        allow_transparency: bool,
    ) -> Palette {
        if allow_transparency && value == 0 {
            Palette::Transparent(0)
        } else if mode == Mode::Dmg {
            shade_palette(dmg_shade(shades, value), value)
        } else {
            cgb_palette(value, Cram::color_spec(cram.obj(), (attributes % 8) as u8, (value * 2) as u8))
        }
    }

    pub open spec fn index(self) -> u8 {
        match self {
            Palette::White(i) => i,
            Palette::LightGray(i) => i,
            Palette::DarkGray(i) => i,
            Palette::Black(i) => i,
            Palette::Transparent(i) => i,
            Palette::Color(i, _, _, _) => i,
        }
    }

    pub open spec fn rgb_spec(self) -> (u8, u8, u8) {
        match self {
            Palette::White(_) => (0xff, 0xff, 0xff),
            Palette::LightGray(_) => (0xaa, 0xaa, 0xaa),
            Palette::DarkGray(_) => (0x55, 0x55, 0x55),
            Palette::Black(_) => (0, 0, 0),
            Palette::Transparent(_) => (0, 0, 0),
            Palette::Color(_, r, g, b) => (r, g, b),
        }
    }

    pub fn is_transparent(&self) -> (r: bool)
        ensures
            r == (*self == Palette::Transparent(0)),
    {
        match self {
            Palette::Transparent(i) => *i == 0,
            _ => false,
        }
    }

    pub fn is_color(&self, index: u8) -> (r: bool)
        ensures
            r == (self.index() == index),
    {
        match self {
            Palette::White(i) => *i == index,
            Palette::LightGray(i) => *i == index,
            Palette::DarkGray(i) => *i == index,
            Palette::Black(i) => *i == index,
            Palette::Transparent(i) => *i == index,
            Palette::Color(i, _, _, _) => *i == index,
        }
    }

    /// Converts a little-endian 5-5-5 colour to 8-8-8, widening each channel `x` to
    /// `(x << 3) | (x >> 2)`.
    pub fn rgb555_to_rgb888(color: u16) -> (r: (u8, u8, u8))
        ensures
            r.0 == expand5(channel5(color, 0)),
            r.1 == expand5(channel5(color, 1)),
            r.2 == expand5(channel5(color, 2)),
    {
        let r5 = color % 32;
        let g5 = (color / 32) % 32;
        let b5 = (color / 1024) % 32;
        ((r5 * 8 + r5 / 4) as u8, (g5 * 8 + g5 / 4) as u8, (b5 * 8 + b5 / 4) as u8)
    }

    /// The RGB triple shown for this pixel.
    pub fn to_rgb(&self) -> (r: (u8, u8, u8))
        ensures
            r == self.rgb_spec(),
    {
        match self {
            Palette::White(_) => (0xff, 0xff, 0xff),
            Palette::LightGray(_) => (0xaa, 0xaa, 0xaa),
            Palette::DarkGray(_) => (0x55, 0x55, 0x55),
            Palette::Black(_) => (0, 0, 0),
            Palette::Transparent(_) => (0, 0, 0),
            Palette::Color(_, r, g, b) => (*r, *g, *b),
        }
    }

    /// Translates a background / window colour index: on DMG through the BGP register
    /// `shades`, on CGB through background palette `attributes & 7` of `cram`.
    pub fn from_background(value: u8, mode: Mode, shades: u8, cram: &Cram, attributes: u8) -> (r:
        Palette)
        requires
            value < 4,
            cram.wf(),
        ensures
            r == Palette::from_background_spec(value, mode, shades, *cram, attributes),
            mode == Mode::Dmg ==> r == shade_palette(dmg_shade(shades, value), value),
            mode == Mode::Cgb ==> r == cgb_palette(
                value,
                Cram::color_spec(cram.bg(), (attributes % 8) as u8, (value * 2) as u8),
            ),
    {
        if mode == Mode::Dmg {
            let shade = Palette::shade_of(shades, value);
            Palette::from_shade(shade, value)
        } else {
            let color = cram.fetch_bg(attributes % 8, value * 2);
            let (r, g, b) = Palette::rgb555_to_rgb888(color);
            Palette::Color(value, r, g, b)
        }
    }

    /// Translates a sprite colour index: index 0 is transparent when `allow_transparency`;
    /// otherwise on DMG through `shades` (OBP0 or OBP1), on CGB through object palette
    /// `attributes & 7` of `cram`.
    pub fn from_object(
        value: u8,
        mode: Mode,
        shades: u8,
        cram: &Cram,
        attributes: u8,
        allow_transparency: bool,
    ) -> (r: Palette)
        requires
            value < 4,
            cram.wf(),
        ensures
            r == Palette::from_object_spec(value, mode, shades, *cram, attributes, allow_transparency),
            allow_transparency && value == 0 ==> r == Palette::Transparent(0),
            !(allow_transparency && value == 0) && mode == Mode::Dmg ==> r == shade_palette(
                dmg_shade(shades, value),
                value,
            ),
            !(allow_transparency && value == 0) && mode == Mode::Cgb ==> r == cgb_palette(
                value,
                Cram::color_spec(cram.obj(), (attributes % 8) as u8, (value * 2) as u8),
            ),
    {
        if allow_transparency && value == 0 {
            return Palette::Transparent(0);
        }
        if mode == Mode::Dmg {
            let shade = Palette::shade_of(shades, value);
            Palette::from_shade(shade, value)
        } else {
            let color = cram.fetch_obj(attributes % 8, value * 2);
            let (r, g, b) = Palette::rgb555_to_rgb888(color);
            Palette::Color(value, r, g, b)
        }
    }

    fn shade_of(shades: u8, value: u8) -> (r: u8)
        requires
            value < 4,
        ensures
            r == dmg_shade(shades, value),
            r < 4,
    {
        reveal_with_fuel(pow4, 4);
        if value == 0 {
            shades % 4
        } else if value == 1 {
            (shades / 4) % 4
        } else if value == 2 {
            (shades / 16) % 4
        } else {
            (shades / 64) % 4
        }
    }

    fn from_shade(shade: u8, value: u8) -> (r: Palette)
        ensures
            r == shade_palette(shade, value),
    {
        if shade == 0 {
            Palette::White(value)
        } else if shade == 1 {
            Palette::LightGray(value)
        } else if shade == 2 {
            Palette::DarkGray(value)
        } else {
            Palette::Black(value)
        }
    }
}

} // verus!
